//! Pairing an external connection with the held tunnel connection.
//!
//! A tunnel client may have gone away silently, so a held connection is
//! probed before it is assigned: the driver writes one sentinel byte to it,
//! and only whether that write succeeded is looked at. The slot holds at
//! most one connection, so one failed probe settles that none is available.

use crate::server::slot::InternalSlot;
use vstd::prelude::*;

verus! {

/// The byte written to a held tunnel connection to learn whether it is still
/// usable. It is never interpreted and no relay ever sends it.
pub const PROBE_SENTINEL: u8 = 0;

/// What the driver does once the slot has been looked at.
#[derive(Debug, PartialEq, Eq)]
pub enum ClaimStep<T> {
    /// Probe this connection, which is no longer in the slot.
    Probe(T),
    /// The slot was empty: there is nothing to probe.
    Unavailable,
}

/// How an external connection fares.
#[derive(Debug, PartialEq, Eq)]
pub enum Pairing<T> {
    /// It is bridged to this tunnel connection.
    Paired(T),
    /// No tunnel connection is available: it is dropped without a reply.
    Unavailable,
}

/// The first half of a claim, as a function of what the slot holds.
pub open spec fn claim_step<T>(held: Option<T>) -> ClaimStep<T> {
    match held {
        Some(conn) => ClaimStep::Probe(conn),
        None => ClaimStep::Unavailable,
    }
}

/// The outcome of a claim, as a function of what the slot held and of what
/// the probe said. The probe's answer plays no part when nothing was held.
pub open spec fn pairing_for<T>(held: Option<T>, alive: bool) -> Pairing<T> {
    match held {
        Some(conn) => if alive {
            Pairing::Paired(conn)
        } else {
            Pairing::Unavailable
        },
        None => Pairing::Unavailable,
    }
}

/// What the broker's log says of a pairing.
pub open spec fn notice_text<T>(pairing: Pairing<T>) -> Seq<char> {
    match pairing {
        Pairing::Paired(_) => "Internal client assigned to external client"@,
        Pairing::Unavailable => "No internal clients available"@,
    }
}

/// Looks for a tunnel connection on behalf of an external connection that
/// has just arrived. Whatever is found leaves the slot, so that no second
/// external connection can be offered the same one. The caller holds the
/// slot's lock from this call until the probe has been answered.
pub fn begin_claim<T>(slot: &mut InternalSlot<T>) -> (step: ClaimStep<T>)
    ensures
        final(slot)@ is None,
        step == claim_step(old(slot)@),
{
    match slot.take_candidate() {
        Some(conn) => ClaimStep::Probe(conn),
        None => ClaimStep::Unavailable,
    }
}

/// Settles a claim once the probe of `candidate` has been answered: a live
/// candidate is assigned, a dead one is discarded. No further candidate is
/// looked for.
pub fn conclude_claim<T>(candidate: T, alive: bool) -> (pairing: Pairing<T>)
    ensures
        pairing == pairing_for(Some(candidate), alive),
{
    if alive {
        Pairing::Paired(candidate)
    } else {
        Pairing::Unavailable
    }
}

/// The two halves of a claim make up one decision: probing whatever
/// [`claim_step`] hands out and settling on the answer gives the pairing
/// that [`pairing_for`] names for what the slot held, and an empty slot
/// gives it without a probe.
pub proof fn law_claim_halves_agree<T>(held: Option<T>, alive: bool)
    ensures
        match claim_step(held) {
            ClaimStep::Probe(candidate) => pairing_for(Some(candidate), alive) == pairing_for(
                held,
                alive,
            ),
            ClaimStep::Unavailable => pairing_for(held, alive) == Pairing::<T>::Unavailable,
        },
{
}

impl<T> Pairing<T> {
    /// The line that the broker logs for this outcome.
    pub fn notice(&self) -> (text: &'static str)
        ensures
            text@ == notice_text(*self),
    {
        match self {
            Pairing::Paired(_) => "Internal client assigned to external client",
            Pairing::Unavailable => "No internal clients available",
        }
    }
}

} // verus!
