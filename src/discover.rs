use vstd::prelude::*;

verus! {

/// The UDP port devices answer discovery probes on.
pub const DISCOVER_PORT: u16 = 30050;

/// The probe sent to every broadcast address.
pub const DISCOVER_PROBE: &'static str = "DAIKIN_UDP/common/basic_info";

/// An IPv4 address, by its four octets.
#[derive(Debug, Clone, Copy, PartialEq, Eq, Structural)]
pub struct Ipv4Address(pub u8, pub u8, pub u8, pub u8);

/// The broadcast address of one local network interface.
#[derive(Debug, Clone, Copy, PartialEq, Eq, Structural)]
pub enum InterfaceBroadcast {
    /// The interface has no broadcast address.
    Absent,
    /// An IPv4 broadcast address.
    Ipv4(Ipv4Address),
    /// A broadcast address of another family.
    Other,
}

/// Where a probe is sent: an IPv4 address and a port.
#[derive(Debug, Clone, Copy, PartialEq, Eq, Structural)]
pub struct BroadcastTarget {
    pub ip: Ipv4Address,
    pub port: u16,
}

/// The probe targets of a list of interfaces: the IPv4 broadcast addresses, in order, on the
/// discovery port.
pub open spec fn probe_targets(ifaces: Seq<InterfaceBroadcast>) -> Seq<BroadcastTarget>
    decreases ifaces.len(),
{
    if ifaces.len() == 0 {
        Seq::empty()
    } else {
        let rest = probe_targets(ifaces.drop_last());
        match ifaces.last() {
            InterfaceBroadcast::Ipv4(ip) => rest.push(BroadcastTarget { ip, port: DISCOVER_PORT }),
            _ => rest,
        }
    }
}

/// The local broadcast addresses to probe, out of what each interface reports.
pub fn broadcast_addresses(ifaces: &Vec<InterfaceBroadcast>) -> (r: Vec<BroadcastTarget>)
    ensures
        r@ == probe_targets(ifaces@),
{
    let mut r: Vec<BroadcastTarget> = Vec::new();
    let mut i: usize = 0;
    while i < ifaces.len()
        invariant
            i <= ifaces@.len(),
            r@ == probe_targets(ifaces@.take(i as int)),
        decreases ifaces@.len() - i,
    {
        assert(ifaces@.take(i + 1).drop_last() == ifaces@.take(i as int));
        match ifaces[i] {
            InterfaceBroadcast::Ipv4(ip) => r.push(BroadcastTarget { ip, port: DISCOVER_PORT }),
            _ => {},
        }
        i += 1;
    }
    assert(ifaces@.take(ifaces@.len() as int) == ifaces@);
    r
}

/// One step of a discovery round.
#[derive(Debug, Clone, Copy, PartialEq, Eq, Structural)]
pub enum RoundStep {
    /// Send the probe to the target.
    Probe(BroadcastTarget),
    /// Wait for the minor interval.
    Pause,
}

/// A discovery round: a probe to each target, a pause, and a probe to each target again.
pub open spec fn round_steps(targets: Seq<BroadcastTarget>) -> Seq<RoundStep> {
    let probes = targets.map_values(|t: BroadcastTarget| RoundStep::Probe(t));
    probes.push(RoundStep::Pause) + probes
}

/// The steps of one discovery round over `targets`.
pub fn round_plan(targets: &Vec<BroadcastTarget>) -> (r: Vec<RoundStep>)
    ensures
        r@ == round_steps(targets@),
{
    let n = targets.len();
    let mut r: Vec<RoundStep> = Vec::new();
    let mut pass: usize = 0;
    while pass < 2
        invariant
            n == targets@.len(),
            pass <= 2,
            pass == 0 ==> r@.len() == 0,
            pass == 1 ==> r@ == targets@.map_values(|t: BroadcastTarget| RoundStep::Probe(t)).push(
                RoundStep::Pause,
            ),
            pass == 2 ==> r@ == round_steps(targets@),
        decreases 2 - pass,
    {
        let ghost start = r@;
        let mut i: usize = 0;
        while i < n
            invariant
                n == targets@.len(),
                i <= n,
                r@ == start + targets@.take(i as int).map_values(|t: BroadcastTarget| RoundStep::Probe(t)),
            decreases n - i,
        {
            r.push(RoundStep::Probe(targets[i]));
            i += 1;
            assert(targets@.take(i as int).map_values(|t: BroadcastTarget| RoundStep::Probe(t))
                =~= targets@.take(i - 1).map_values(|t: BroadcastTarget| RoundStep::Probe(t)).push(
                RoundStep::Probe(targets@[i - 1]),
            ));
        }
        assert(targets@.take(n as int) == targets@);
        if pass == 0 {
            r.push(RoundStep::Pause);
            assert(r@ =~= targets@.map_values(|t: BroadcastTarget| RoundStep::Probe(t)).push(RoundStep::Pause));
        }
        pass += 1;
    }
    r
}

pub open spec fn is_probe_to(t: BroadcastTarget) -> spec_fn(RoundStep) -> bool {
    |s: RoundStep| s == RoundStep::Probe(t)
}

pub open spec fn is_target(t: BroadcastTarget) -> spec_fn(BroadcastTarget) -> bool {
    |u: BroadcastTarget| u == t
}

/// How many steps of `steps` probe `t`.
pub open spec fn probes_to(steps: Seq<RoundStep>, t: BroadcastTarget) -> nat {
    steps.filter(is_probe_to(t)).len()
}

/// How often `t` stands in `targets`.
pub open spec fn occurrences(targets: Seq<BroadcastTarget>, t: BroadcastTarget) -> nat {
    targets.filter(is_target(t)).len()
}

/// In every round, each target gets exactly two probes, one before the round's single pause
/// and one after it.
pub proof fn round_probes_each_target_twice(targets: Seq<BroadcastTarget>)
    ensures
        round_steps(targets).len() == 2 * targets.len() + 1,
        round_steps(targets)[targets.len() as int] == RoundStep::Pause,
        forall|i: int| 0 <= i < targets.len() ==> {
            &&& round_steps(targets)[i] == RoundStep::Probe(#[trigger] targets[i])
            &&& round_steps(targets)[targets.len() + 1 + i] == RoundStep::Probe(targets[i])
        },
        forall|j: int| 0 <= j < round_steps(targets).len() && j != targets.len() ==> (#[trigger] round_steps(targets)[j]) is Probe,
        forall|t: BroadcastTarget| #[trigger] probes_to(round_steps(targets), t) == 2 * occurrences(targets, t),
{
    let n = targets.len() as int;
    let probes = targets.map_values(|t: BroadcastTarget| RoundStep::Probe(t));
    let steps = round_steps(targets);
    assert forall|j: int| 0 <= j < steps.len() && j != n implies (#[trigger] steps[j]) is Probe by {
        if j < n {
            assert(steps[j] == probes[j]);
        } else {
            assert(steps[j] == probes[j - n - 1]);
        }
    }
    assert forall|t: BroadcastTarget| #[trigger] probes_to(steps, t) == 2 * occurrences(targets, t) by {
        lemma_probe_count(targets, t);
        Seq::filter_distributes_over_add(probes.push(RoundStep::Pause), probes, is_probe_to(t));
        probes.lemma_filter_push(RoundStep::Pause, is_probe_to(t));
    }
}

proof fn lemma_probe_count(targets: Seq<BroadcastTarget>, t: BroadcastTarget)
    ensures
        probes_to(targets.map_values(|u: BroadcastTarget| RoundStep::Probe(u)), t) == occurrences(targets, t),
    decreases targets.len(),
{
    if targets.len() > 0 {
        let rest = targets.drop_last();
        lemma_probe_count(rest, t);
        let probes = targets.map_values(|u: BroadcastTarget| RoundStep::Probe(u));
        assert(probes =~= rest.map_values(|u: BroadcastTarget| RoundStep::Probe(u)).push(
            RoundStep::Probe(targets.last()),
        ));
        assert(targets =~= rest.push(targets.last()));
        rest.map_values(|u: BroadcastTarget| RoundStep::Probe(u)).lemma_filter_push(
            RoundStep::Probe(targets.last()),
            is_probe_to(t),
        );
        rest.lemma_filter_push(targets.last(), is_target(t));
    }
}

} // verus!
