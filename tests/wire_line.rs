use cloud_latency::wire::{append_decimal, encode_line, sanitize, Protocol};

#[test]
fn encodes_tcp_measurement_exactly() {
    let line = encode_line("app.metrics", Protocol::Tcp, "10.0.0.1", 23, 1700000000);
    assert_eq!(line, "app-metrics.tcp.10-0-0-1 23 1700000000\n");
}

#[test]
fn encodes_icmp_measurement() {
    let line = encode_line("lat", Protocol::Icmp, "example.com", 0, 0);
    assert_eq!(line, "lat.icmp.example-com 0 0\n");
}

#[test]
fn protocol_tags_are_lowercase() {
    assert_eq!(Protocol::Icmp.tag(), "icmp");
    assert_eq!(Protocol::Tcp.tag(), "tcp");
}

#[test]
fn sanitize_rewrites_every_dot() {
    assert_eq!(sanitize("a.b..c."), "a-b--c-");
    assert_eq!(sanitize(""), "");
    assert_eq!(sanitize("no-dots_here"), "no-dots_here");
}

#[test]
fn shipped_line_has_only_separator_dots() {
    let line = encode_line("x.y.z", Protocol::Icmp, "host.example.org", 1234, 99);
    assert_eq!(line, "x-y-z.icmp.host-example-org 1234 99\n");
    assert_eq!(line.matches('.').count(), 2);
}

#[test]
fn decimal_rendering_of_edge_values() {
    let mut s = String::from("v=");
    append_decimal(&mut s, 0);
    assert_eq!(s, "v=0");
    let mut t = String::new();
    append_decimal(&mut t, u64::MAX);
    assert_eq!(t, "18446744073709551615");
    let mut u = String::new();
    append_decimal(&mut u, 1000);
    assert_eq!(u, "1000");
}

#[test]
fn negative_timestamp_keeps_its_sign() {
    let line = encode_line("p", Protocol::Tcp, "n", 5, -42);
    assert_eq!(line, "p.tcp.n 5 -42\n");
    let line = encode_line("p", Protocol::Tcp, "n", 5, i64::MIN);
    assert_eq!(line, "p.tcp.n 5 -9223372036854775808\n");
}
