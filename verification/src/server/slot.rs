//! The broker's holder for the one tunnel connection that can be assigned.

use vstd::prelude::*;

verus! {

/// A mailbox of capacity one for the tunnel connection that the next external
/// client will be offered. It is not a queue: the most recently accepted
/// connection is the only one reachable.
///
/// `T` is whatever the driver uses to stand for a connection; the slot only
/// carries it. Every mutation takes `&mut self`, so a driver that shares the
/// slot between tasks keeps it under one lock and holds that lock for the
/// whole of a replace or of a probe-and-claim.
pub struct InternalSlot<T> {
    held: Option<T>,
}

impl<T> View for InternalSlot<T> {
    type V = Option<T>;

    closed spec fn view(&self) -> Option<T> {
        self.held
    }
}

impl<T> InternalSlot<T> {
    /// The slot as it is when the broker starts: empty.
    pub fn new() -> (slot: Self)
        ensures
            slot@ is None,
    {
        InternalSlot { held: None }
    }

    /// Whether no tunnel connection is held.
    pub fn is_vacant(&self) -> (vacant: bool)
        ensures
            vacant == (self@ is None),
    {
        self.held.is_none()
    }

    /// Puts a newly accepted tunnel connection in the slot, in place of
    /// whatever was there. The previous occupant is handed back so that the
    /// caller decides what becomes of it; the slot itself never closes it.
    pub fn accept(&mut self, conn: T) -> (discarded: Option<T>)
        ensures
            final(self)@ == Some(conn),
            discarded == old(self)@,
    {
        let mut incoming: Option<T> = Some(conn);
        core::mem::swap(&mut self.held, &mut incoming);
        incoming
    }

    /// Takes the held connection out for a liveness probe. The slot is empty
    /// afterwards whatever the probe will say: a live candidate goes to the
    /// external client, a dead one is discarded.
    pub fn take_candidate(&mut self) -> (candidate: Option<T>)
        ensures
            final(self)@ is None,
            candidate == old(self)@,
    {
        let mut candidate: Option<T> = None;
        core::mem::swap(&mut self.held, &mut candidate);
        candidate
    }
}

} // verus!
