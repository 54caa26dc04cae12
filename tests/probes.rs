use cloud_latency::probe::{
    measurement, step, Outcome, ProbeEvent, ProbeState, ICMP_TIMEOUT_MS, TCP_TIMEOUT_MS,
};
use cloud_latency::resolve::{begin_resolve, finish_resolve, Address, ResolveError, ResolveStep};

const A: Address = Address::V4([10, 0, 0, 1]);
const B: Address = Address::V6([0xfe80, 0, 0, 0, 0, 0, 0, 1]);

#[test]
fn literal_address_skips_lookup() {
    assert_eq!(begin_resolve(Some(A)), ResolveStep::Literal(A));
    assert_eq!(begin_resolve(Some(B)), ResolveStep::Literal(B));
    assert_eq!(begin_resolve(None), ResolveStep::Lookup);
}

#[test]
fn lookup_takes_first_address() {
    assert_eq!(finish_resolve(Some(vec![B, A])), Ok(B));
    assert_eq!(finish_resolve(Some(vec![])), Err(ResolveError::NoAddress));
    assert_eq!(finish_resolve(None), Err(ResolveError::LookupFailed));
}

#[test]
fn successful_probe_yields_latency() {
    let s = step(ProbeState::Pending, ProbeEvent::ResolvedTo(A), TCP_TIMEOUT_MS);
    assert_eq!(s, ProbeState::Resolved(A));
    let s = step(s, ProbeEvent::Answered(23), TCP_TIMEOUT_MS);
    assert_eq!(s, ProbeState::Finished(Outcome::Success(23)));
    assert_eq!(measurement(s), Some(23));
}

#[test]
fn tcp_answer_past_bound_is_timeout() {
    let s = step(ProbeState::Resolved(A), ProbeEvent::Answered(5001), TCP_TIMEOUT_MS);
    assert_eq!(s, ProbeState::Finished(Outcome::Timeout));
    assert_eq!(measurement(s), None);
    let s = step(ProbeState::Resolved(A), ProbeEvent::Answered(5000), TCP_TIMEOUT_MS);
    assert_eq!(measurement(s), Some(5000));
    let s = step(ProbeState::Resolved(A), ProbeEvent::NoAnswer, ICMP_TIMEOUT_MS);
    assert_eq!(s, ProbeState::Finished(Outcome::Timeout));
}

#[test]
fn failures_give_no_measurement() {
    let s = step(ProbeState::Pending, ProbeEvent::Malformed, TCP_TIMEOUT_MS);
    assert_eq!(s, ProbeState::Finished(Outcome::MalformedInput));
    assert_eq!(step(s, ProbeEvent::Answered(1), TCP_TIMEOUT_MS), s);
    let s = step(ProbeState::Pending, ProbeEvent::ResolveFailed, TCP_TIMEOUT_MS);
    assert_eq!(s, ProbeState::Finished(Outcome::ResolutionFailed));
    assert_eq!(measurement(s), None);
    let s = step(ProbeState::Resolved(A), ProbeEvent::Refused, TCP_TIMEOUT_MS);
    assert_eq!(s, ProbeState::Finished(Outcome::Unreachable));
    assert_eq!(measurement(s), None);
    assert_eq!(measurement(ProbeState::Pending), None);
}

#[test]
fn out_of_order_event_changes_nothing() {
    assert_eq!(step(ProbeState::Pending, ProbeEvent::Answered(3), TCP_TIMEOUT_MS), ProbeState::Pending);
    assert_eq!(step(ProbeState::Resolved(A), ProbeEvent::Malformed, TCP_TIMEOUT_MS), ProbeState::Resolved(A));
}
