use cloud_latency::config::{file_exists, Config};
use cloud_latency::cycle::plan_cycle;
use cloud_latency::target::TargetError;

fn config(icmp: &[&str], tcp: &[&str]) -> Config {
    Config {
        tsdb_prefix: String::from("app.metrics"),
        test_interval: 10,
        grafana_address: String::from("127.0.0.1"),
        grafana_port: String::from("2003"),
        endpoints: icmp.iter().map(|s| s.to_string()).collect(),
        tcp_endpoints: tcp.iter().map(|s| s.to_string()).collect(),
        icmp_timeout_ms: 2000,
    }
}

#[test]
fn empty_configuration_plans_nothing() {
    let plan = plan_cycle(&config(&[], &[]));
    assert!(plan.icmp.is_empty());
    assert!(plan.tcp.is_empty());
    assert!(plan.skipped.is_empty());
}

#[test]
fn colonless_tcp_target_is_skipped_others_run() {
    let plan = plan_cycle(&config(&["8.8.8.8"], &["a.example:80", "broken", "10.0.0.1:22"]));
    assert_eq!(plan.icmp, vec![String::from("8.8.8.8")]);
    assert_eq!(plan.tcp.len(), 2);
    assert_eq!(plan.tcp[0].name, "a.example:80");
    assert_eq!(plan.tcp[0].target.host, "a.example");
    assert_eq!(plan.tcp[0].target.port, 80);
    assert_eq!(plan.tcp[1].name, "10.0.0.1:22");
    assert_eq!(plan.tcp[1].target.host, "10.0.0.1");
    assert_eq!(plan.tcp[1].target.port, 22);
    assert_eq!(plan.skipped, vec![(String::from("broken"), TargetError::MissingColon)]);
}

#[test]
fn empty_icmp_list_still_plans_tcp() {
    let plan = plan_cycle(&config(&[], &["h:1"]));
    assert!(plan.icmp.is_empty());
    assert_eq!(plan.tcp.len(), 1);
}

#[test]
fn icmp_targets_keep_their_order() {
    let plan = plan_cycle(&config(&["b", "a", "b"], &[]));
    assert_eq!(plan.icmp, vec![String::from("b"), String::from("a"), String::from("b")]);
    assert!(plan.tcp.is_empty());
}

#[test]
fn file_exists_tells_present_from_absent() {
    assert!(file_exists("/"));
    assert!(!file_exists("/no/such/place/config.yml"));
}
