//! The life of one probe: `Pending`, then `Resolved`, then one final outcome.
//! Only a success leads to a shipped measurement.
use vstd::prelude::*;
use crate::resolve::Address;

verus! {

/// The bound on a TCP connection attempt, in milliseconds.
pub const TCP_TIMEOUT_MS: u64 = 5000;

/// The default bound on an ICMP echo's round trip, in milliseconds.
pub const ICMP_TIMEOUT_MS: u64 = 5000;

/// How a probe ended.
#[derive(Clone, Copy, Debug, PartialEq, Eq)]
pub enum Outcome {
    /// The target answered after this many milliseconds.
    Success(u64),
    /// No answer came within the bound.
    Timeout,
    /// The target refused or reported itself unreachable.
    Unreachable,
    /// The target text could not be read.
    MalformedInput,
    /// The target's name gave no address.
    ResolutionFailed,
}

#[derive(Clone, Copy, Debug, PartialEq, Eq)]
pub enum ProbeState {
    Pending,
    Resolved(Address),
    Finished(Outcome),
}

/// What the outside world reported to a probe.
#[derive(Clone, Copy, Debug, PartialEq, Eq)]
pub enum ProbeEvent {
    /// The target text could not be read.
    Malformed,
    /// Resolution failed.
    ResolveFailed,
    /// Resolution gave this address.
    ResolvedTo(Address),
    /// The target answered after this many milliseconds.
    Answered(u64),
    /// No answer came.
    NoAnswer,
    /// The target refused or reported itself unreachable.
    Refused,
}

/// The transition of a probe on an event, with `limit_ms` as the bound on an
/// answer. An event that does not fit the state leaves it as it is.
pub open spec fn next_state(state: ProbeState, event: ProbeEvent, limit_ms: u64) -> ProbeState {
    match (state, event) {
        (ProbeState::Pending, ProbeEvent::Malformed) => ProbeState::Finished(Outcome::MalformedInput),
        (ProbeState::Pending, ProbeEvent::ResolveFailed) => ProbeState::Finished(
            Outcome::ResolutionFailed,
        ),
        (ProbeState::Pending, ProbeEvent::ResolvedTo(a)) => ProbeState::Resolved(a),
        (ProbeState::Resolved(_), ProbeEvent::Answered(ms)) => if ms <= limit_ms {
            ProbeState::Finished(Outcome::Success(ms))
        } else {
            ProbeState::Finished(Outcome::Timeout)
        },
        (ProbeState::Resolved(_), ProbeEvent::NoAnswer) => ProbeState::Finished(Outcome::Timeout),
        (ProbeState::Resolved(_), ProbeEvent::Refused) => ProbeState::Finished(Outcome::Unreachable),
        _ => state,
    }
}

/// The latency to ship from a state: only a finished success has one.
pub open spec fn measurement_of(state: ProbeState) -> Option<u64> {
    match state {
        ProbeState::Finished(Outcome::Success(ms)) => Some(ms),
        _ => None,
    }
}

/// Moves a probe on by one event.
pub fn step(state: ProbeState, event: ProbeEvent, limit_ms: u64) -> (r: ProbeState)
    ensures
        r == next_state(state, event, limit_ms),
{
    match (state, event) {
        (ProbeState::Pending, ProbeEvent::Malformed) => ProbeState::Finished(Outcome::MalformedInput),
        (ProbeState::Pending, ProbeEvent::ResolveFailed) => ProbeState::Finished(
            Outcome::ResolutionFailed,
        ),
        (ProbeState::Pending, ProbeEvent::ResolvedTo(a)) => ProbeState::Resolved(a),
        (ProbeState::Resolved(_), ProbeEvent::Answered(ms)) => {
            if ms <= limit_ms {
                ProbeState::Finished(Outcome::Success(ms))
            } else {
                ProbeState::Finished(Outcome::Timeout)
            }
        },
        (ProbeState::Resolved(_), ProbeEvent::NoAnswer) => ProbeState::Finished(Outcome::Timeout),
        (ProbeState::Resolved(_), ProbeEvent::Refused) => ProbeState::Finished(Outcome::Unreachable),
        _ => state,
    }
}

/// The latency to ship, if the probe ended in success.
pub fn measurement(state: ProbeState) -> (r: Option<u64>)
    ensures
        r == measurement_of(state),
{
    match state {
        ProbeState::Finished(Outcome::Success(ms)) => Some(ms),
        _ => None,
    }
}

/// A TCP probe whose answer comes later than its bound, or never, ends
/// without a measurement; and it is finished, so the cycle moves on.
pub proof fn lemma_slow_tcp_answer_gives_no_measurement(a: Address, ms: u64)
    requires
        ms > TCP_TIMEOUT_MS,
    ensures
        next_state(ProbeState::Resolved(a), ProbeEvent::Answered(ms), TCP_TIMEOUT_MS)
            == ProbeState::Finished(Outcome::Timeout),
        measurement_of(
            next_state(ProbeState::Resolved(a), ProbeEvent::Answered(ms), TCP_TIMEOUT_MS),
        ) is None,
        next_state(ProbeState::Resolved(a), ProbeEvent::NoAnswer, TCP_TIMEOUT_MS)
            == ProbeState::Finished(Outcome::Timeout),
        measurement_of(next_state(ProbeState::Resolved(a), ProbeEvent::NoAnswer, TCP_TIMEOUT_MS))
            is None,
{
}

/// A malformed target ends at once, with no measurement and no further event
/// changing that.
pub proof fn lemma_malformed_probe_is_final(e: ProbeEvent, limit_ms: u64)
    ensures
        ({
            let s = next_state(ProbeState::Pending, ProbeEvent::Malformed, limit_ms);
            &&& s == ProbeState::Finished(Outcome::MalformedInput)
            &&& measurement_of(s) is None
            &&& next_state(s, e, limit_ms) == s
        }),
{
}

} // verus!
