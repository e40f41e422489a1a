use std::time::Duration;

use daikin_exporter::configuration::Configuration;
use daikin_exporter::supervisor::{fatal_exit, Component, FatalError};
use daikin_exporter::watcher::DaikinWatcher;

fn configuration(hosts: Option<Vec<String>>) -> Configuration {
    Configuration::new(None, hosts, None, None, Some(1000), None)
}

#[test]
fn discovered_twice_gives_one_adaptor() {
    let mut w = DaikinWatcher::new(&configuration(None));
    assert!(w.start().is_empty());
    let first = w.on_discovered("192.168.1.20".to_string());
    let second = w.on_discovered("192.168.1.20".to_string());
    let a = first.unwrap();
    assert_eq!(a.host, "192.168.1.20");
    assert_eq!(a.interval(), Duration::from_millis(1000));
    assert!(second.is_none());
    assert!(w.on_discovered("192.168.1.21".to_string()).is_some());
    assert!(w.on_discovered("192.168.1.21".to_string()).is_none());
}

#[test]
fn configured_hosts_all_start_and_are_not_rediscovered() {
    let hosts = vec!["a".to_string(), "b".to_string(), "a".to_string()];
    let mut w = DaikinWatcher::new(&configuration(Some(hosts)));
    let started = w.start();
    let names: Vec<&str> = started.iter().map(|a| a.host.as_str()).collect();
    assert_eq!(names, vec!["a", "b", "a"]);
    assert!(w.on_discovered("a".to_string()).is_none());
    assert!(w.on_discovered("b".to_string()).is_none());
    assert!(w.on_discovered("c".to_string()).is_some());
}

#[test]
fn fatal_error_exits_with_status_one() {
    let (e, status) = fatal_exit(Some(FatalError {
        component: Component::Discovery,
        message: "Unable to read discover response".to_string(),
    }));
    assert_eq!(status, 1);
    assert_eq!(e.component, Component::Discovery);
    assert_eq!(e.message, "Unable to read discover response");
}

#[test]
fn closed_error_channel_exits_with_status_one() {
    let (e, status) = fatal_exit(None);
    assert_eq!(status, 1);
    assert_eq!(e.component, Component::Supervisor);
}

#[test]
fn configuration_defaults() {
    let c = Configuration::default();
    assert_eq!(c.bind_address(), "0.0.0.0:9150");
    assert_eq!(c.discover_major_interval(), Duration::from_millis(300_000));
    assert_eq!(c.discover_minor_interval(), Duration::from_millis(200));
    assert_eq!(c.refresh_interval(), Duration::from_millis(7500));
    assert_eq!(c.refresh_timeout(), Duration::from_millis(250));
    assert!(c.hosts().is_none());
}

#[test]
fn configuration_given_values() {
    let c = Configuration::new(
        Some("127.0.0.1:9000".to_string()),
        Some(vec!["10.0.0.5".to_string()]),
        Some(60_000),
        Some(50),
        Some(2000),
        Some(100),
    );
    assert_eq!(c.bind_address(), "127.0.0.1:9000");
    assert_eq!(c.discover_major_interval(), Duration::from_millis(60_000));
    assert_eq!(c.discover_minor_interval(), Duration::from_millis(50));
    assert_eq!(c.refresh_interval(), Duration::from_millis(2000));
    assert_eq!(c.refresh_timeout(), Duration::from_millis(100));
    assert_eq!(c.hosts(), Some(vec!["10.0.0.5".to_string()]));
}
