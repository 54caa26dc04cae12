//! A small network-latency agent: it plans probe cycles over configured
//! ICMP and TCP endpoints, decides each probe's outcome, and encodes every
//! successful measurement as one plaintext metrics line.
pub mod config;
pub mod cycle;
pub mod probe;
pub mod resolve;
pub mod ship;
pub mod target;
pub mod wire;
