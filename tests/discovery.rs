use daikin_exporter::discover::{
    broadcast_addresses, round_plan, BroadcastTarget, InterfaceBroadcast, Ipv4Address, RoundStep,
    DISCOVER_PORT, DISCOVER_PROBE,
};

#[test]
fn keeps_ipv4_broadcast_addresses_only() {
    let ifaces = vec![
        InterfaceBroadcast::Absent,
        InterfaceBroadcast::Ipv4(Ipv4Address(192, 168, 1, 255)),
        InterfaceBroadcast::Other,
        InterfaceBroadcast::Ipv4(Ipv4Address(10, 0, 0, 255)),
    ];
    let targets = broadcast_addresses(&ifaces);
    assert_eq!(
        targets,
        vec![
            BroadcastTarget { ip: Ipv4Address(192, 168, 1, 255), port: 30050 },
            BroadcastTarget { ip: Ipv4Address(10, 0, 0, 255), port: 30050 },
        ]
    );
    assert_eq!(DISCOVER_PORT, 30050);
    assert_eq!(DISCOVER_PROBE, "DAIKIN_UDP/common/basic_info");
}

#[test]
fn no_interfaces_no_targets() {
    assert!(broadcast_addresses(&Vec::new()).is_empty());
}

#[test]
fn round_probes_each_address_twice_around_one_pause() {
    let a = BroadcastTarget { ip: Ipv4Address(192, 168, 1, 255), port: DISCOVER_PORT };
    let b = BroadcastTarget { ip: Ipv4Address(10, 0, 0, 255), port: DISCOVER_PORT };
    let plan = round_plan(&vec![a, b]);
    assert_eq!(
        plan,
        vec![
            RoundStep::Probe(a),
            RoundStep::Probe(b),
            RoundStep::Pause,
            RoundStep::Probe(a),
            RoundStep::Probe(b),
        ]
    );
    assert_eq!(plan.iter().filter(|s| **s == RoundStep::Probe(a)).count(), 2);
}

#[test]
fn round_without_targets_only_pauses() {
    assert_eq!(round_plan(&Vec::new()), vec![RoundStep::Pause]);
}
