use cloud_latency::config::Config;
use cloud_latency::ship::{backend_address, shipment_at, shipment_now, ShipHealth};
use cloud_latency::wire::Protocol;

fn config() -> Config {
    Config {
        tsdb_prefix: String::from("app.metrics"),
        test_interval: 5,
        grafana_address: String::from("graphite.local"),
        grafana_port: String::from("2003"),
        endpoints: vec![],
        tcp_endpoints: vec![],
        icmp_timeout_ms: 2000,
    }
}

#[test]
fn shipment_at_given_time() {
    let s = shipment_at(&config(), "10.0.0.1", Protocol::Tcp, 23, 1700000000);
    assert_eq!(s.backend, "graphite.local:2003");
    assert_eq!(s.line, "app-metrics.tcp.10-0-0-1 23 1700000000\n");
    assert_eq!(backend_address(&config()), "graphite.local:2003");
}

#[test]
fn shipment_now_uses_current_time() {
    let s = shipment_now(&config(), "db.internal:5432", Protocol::Tcp, 7);
    let head = "app-metrics.tcp.db-internal:5432 7 ";
    assert!(s.line.starts_with(head));
    assert!(s.line.ends_with('\n'));
    let ts: u64 = s.line[head.len()..s.line.len() - 1].parse().unwrap();
    assert!(ts > 1_700_000_000);
}

#[test]
fn health_counts_failures_in_a_row() {
    let mut h = ShipHealth::new();
    assert_eq!(h.consecutive_failures, 0);
    h.record(false);
    h.record(false);
    assert_eq!(h.consecutive_failures, 2);
    h.record(true);
    assert_eq!(h.consecutive_failures, 0);
    let mut m = ShipHealth { consecutive_failures: u64::MAX };
    m.record(false);
    assert_eq!(m.consecutive_failures, u64::MAX);
}
