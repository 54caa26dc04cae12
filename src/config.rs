//! The agent's configuration: read once at start and never changed.
use vstd::prelude::*;

verus! {

/// What to probe, how often, and where to ship the measurements.
#[derive(Clone, Debug)]
pub struct Config {
    /// The namespace root of every shipped metric.
    pub tsdb_prefix: String,
    /// Seconds between the starts of two probe cycles.
    pub test_interval: u64,
    /// The metrics backend's host.
    pub grafana_address: String,
    /// The metrics backend's port.
    pub grafana_port: String,
    /// Targets probed by ICMP echo: hostnames or literal addresses.
    pub endpoints: Vec<String>,
    /// Targets probed by TCP connect, each `host:port`.
    pub tcp_endpoints: Vec<String>,
    /// The bound on an ICMP echo's round trip, in milliseconds.
    pub icmp_timeout_ms: u64,
}

/// The texts of a list of strings.
pub open spec fn texts(v: Seq<String>) -> Seq<Seq<char>> {
    v.map_values(|s: String| s@)
}

/// Relies on `std::path::Path::exists`: whether something is at `path` on
/// the file system; an error while looking reads as `false`.
#[verifier::external_body]
fn path_exists(path: &str) -> bool {
    std::path::Path::new(path).exists()
}

/// Whether the configuration file is there to be read.
pub fn file_exists(config_file: &str) -> bool {
    path_exists(config_file)
}

} // verus!
