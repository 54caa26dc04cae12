//! Turning an endpoint identifier into a network address: a literal address
//! is taken as it is; anything else is looked up, and the first address of
//! the lookup's answer is used.
use vstd::prelude::*;

verus! {

/// A network address, IPv4 as four octets or IPv6 as eight segments.
#[derive(Clone, Copy, Debug, PartialEq, Eq)]
pub enum Address {
    V4([u8; 4]),
    V6([u16; 8]),
}

/// Why an identifier gave no address.
#[derive(Clone, Copy, Debug, PartialEq, Eq)]
pub enum ResolveError {
    /// The lookup itself failed.
    LookupFailed,
    /// The lookup answered with no address.
    NoAddress,
}

/// What to do with an identifier, once it is known whether it reads as a
/// literal address.
#[derive(Clone, Copy, Debug, PartialEq, Eq)]
pub enum ResolveStep {
    /// The identifier is this literal address: no lookup is made.
    Literal(Address),
    /// The identifier is a hostname and must be looked up.
    Lookup,
}

pub open spec fn resolve_step_of(literal: Option<Address>) -> ResolveStep {
    match literal {
        Some(a) => ResolveStep::Literal(a),
        None => ResolveStep::Lookup,
    }
}

/// The address chosen from a lookup's answer (`None` when the lookup failed):
/// the first one listed.
pub open spec fn lookup_choice(answer: Option<Seq<Address>>) -> Result<Address, ResolveError> {
    match answer {
        None => Err(ResolveError::LookupFailed),
        Some(list) => if list.len() == 0 {
            Err(ResolveError::NoAddress)
        } else {
            Ok(list[0])
        },
    }
}

/// Decides how to resolve an identifier, given what it reads as when parsed as
/// a literal address.
pub fn begin_resolve(literal: Option<Address>) -> (r: ResolveStep)
    ensures
        r == resolve_step_of(literal),
{
    match literal {
        Some(a) => ResolveStep::Literal(a),
        None => ResolveStep::Lookup,
    }
}

/// Picks the address from a lookup's answer: the first in the order the
/// lookup gave, with no preference between IPv4 and IPv6.
pub fn finish_resolve(answer: Option<Vec<Address>>) -> (r: Result<Address, ResolveError>)
    ensures
        r == lookup_choice(
            match answer {
                Some(v) => Some(v@),
                None => None,
            },
        ),
{
    match answer {
        None => Err(ResolveError::LookupFailed),
        Some(list) => {
            if list.len() == 0 {
                Err(ResolveError::NoAddress)
            } else {
                Ok(list[0])
            }
        },
    }
}

/// A literal address is its own resolution: no lookup is asked for, and the
/// address handed on is exactly the one the identifier spells.
pub proof fn lemma_literal_needs_no_lookup(a: Address)
    ensures
        resolve_step_of(Some(a)) == ResolveStep::Literal(a),
        resolve_step_of(Some(a)) != ResolveStep::Lookup,
{
}

} // verus!
