//! Preparing a measurement for shipment: the backend to connect to and the
//! line to write, stamped with the time of shipment.
use vstd::prelude::*;
use crate::config::Config;
use crate::wire::{Protocol, encode_line, wire_line};

verus! {

/// One line for the metrics backend, and where to send it.
#[derive(Clone, Debug)]
pub struct Shipment {
    /// `host:port` of the metrics backend.
    pub backend: String,
    /// The encoded measurement, newline included.
    pub line: String,
}

/// The backend address of a configuration: its host and port joined by a colon.
pub open spec fn backend_of(c: Config) -> Seq<char> {
    c.grafana_address@ + seq![':'] + c.grafana_port@
}

/// Relies on chrono's `From<SystemTime> for DateTime<Utc>` and
/// `DateTime::timestamp`: the current time as whole seconds since the Unix
/// epoch, negative for a clock set before it. It depends on the clock, so
/// nothing is promised of its value.
#[verifier::external_body]
fn unix_seconds_now() -> i64 {
    chrono::DateTime::<chrono::Utc>::from(std::time::SystemTime::now()).timestamp()
}

/// The backend address of a configuration, `host:port`.
pub fn backend_address(config: &Config) -> (r: String)
    ensures
        r@ == backend_of(*config),
{
    proof {
        reveal_strlit(":");
    }
    let mut out = config.grafana_address.clone();
    out.append(":");
    out.append(config.grafana_port.as_str());
    out
}

/// The shipment of one measurement taken at `timestamp` (Unix seconds).
pub fn shipment_at(config: &Config, name: &str, protocol: Protocol, millis: u64, timestamp: i64) -> (r:
    Shipment)
    ensures
        r.backend@ == backend_of(*config),
        r.line@ == wire_line(config.tsdb_prefix@, protocol, name@, millis as nat, timestamp as int),
{
    let backend = backend_address(config);
    let line = encode_line(config.tsdb_prefix.as_str(), protocol, name, millis, timestamp);
    Shipment { backend, line }
}

/// The shipment of one measurement, stamped with the current time.
pub fn shipment_now(config: &Config, name: &str, protocol: Protocol, millis: u64) -> (r: Shipment)
    ensures
        r.backend@ == backend_of(*config),
        exists|ts: int|
            r.line@ == wire_line(config.tsdb_prefix@, protocol, name@, millis as nat, ts),
{
    let now = unix_seconds_now();
    let r = shipment_at(config, name, protocol, millis, now);
    assert(r.line@ == wire_line(config.tsdb_prefix@, protocol, name@, millis as nat, now as int));
    r
}

/// A count of shipments that failed in a row, for an outside observer to
/// read; shipping never waits on it and never retries.
#[derive(Clone, Copy, Debug, PartialEq, Eq)]
pub struct ShipHealth {
    pub consecutive_failures: u64,
}

impl ShipHealth {
    pub fn new() -> (r: ShipHealth)
        ensures
            r.consecutive_failures == 0,
    {
        ShipHealth { consecutive_failures: 0 }
    }

    /// Records the fate of one shipment: a delivery resets the count, a
    /// failure adds one (staying at the largest value once there).
    pub fn record(&mut self, delivered: bool)
        ensures
            final(self).consecutive_failures == if delivered {
                0
            } else if old(self).consecutive_failures == u64::MAX {
                u64::MAX
            } else {
                (old(self).consecutive_failures + 1) as u64
            },
    {
        if delivered {
            self.consecutive_failures = 0;
        } else if self.consecutive_failures < u64::MAX {
            self.consecutive_failures = self.consecutive_failures + 1;
        }
    }
}

} // verus!
