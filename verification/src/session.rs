//! A paired session: two streams bridged by two relays, one per direction,
//! for as long as either of them runs.

use crate::relay::{
    read_request, relay_step, start, step, RelayAction, RelayActionView, RelayEvent,
    RelayEventView, RelayPolicy, RelayState,
};
use vstd::prelude::*;

verus! {

/// One of the two directions of a session between a first and a second
/// stream. On the broker the first stream is the external client and the
/// second the tunnel connection; on the tunnel client the first is the local
/// service and the second the broker.
#[derive(Clone, Copy, Debug, PartialEq, Eq)]
pub enum Direction {
    /// From the first stream to the second.
    Forward,
    /// From the second stream to the first.
    Backward,
}

/// The two relays of a session. Each direction runs to its own end: what
/// happens in one never changes the state of the other, and the only signal
/// between them is the shutdown of a destination that a policy may ask for.
#[derive(Debug, PartialEq, Eq)]
pub struct PairedSession<E> {
    /// The policy that both directions follow.
    pub policy: RelayPolicy,
    /// The relay from the first stream to the second.
    pub forward: RelayState<E>,
    /// The relay from the second stream to the first.
    pub backward: RelayState<E>,
}

/// The session and the action that follow `event` in `direction`.
pub open spec fn session_step<E>(
    session: PairedSession<E>,
    direction: Direction,
    event: RelayEventView<E>,
) -> (PairedSession<E>, RelayActionView<E>) {
    match direction {
        Direction::Forward => {
            let next = relay_step(session.policy, session.forward, event);
            (PairedSession { forward: next.0, ..session }, next.1)
        },
        Direction::Backward => {
            let next = relay_step(session.policy, session.backward, event);
            (PairedSession { backward: next.0, ..session }, next.1)
        },
    }
}

impl<E> PairedSession<E> {
    /// Whether both directions have finished, which is when the session
    /// ceases to exist.
    pub open spec fn over(self) -> bool {
        self.forward is Finished && self.backward is Finished
    }

    /// Opens a session under `policy`. Both directions begin with the same
    /// read, which is handed back once for each.
    pub fn open(policy: RelayPolicy) -> (opened: (Self, RelayAction<E>, RelayAction<E>))
        ensures
            opened.0.policy == policy,
            opened.0.forward == RelayState::<E>::AwaitingRead,
            opened.0.backward == RelayState::<E>::AwaitingRead,
            opened.1@ == read_request::<E>(policy),
            opened.2@ == read_request::<E>(policy),
    {
        let (forward, first) = start(&policy);
        let (backward, second) = start(&policy);
        (PairedSession { policy, forward, backward }, first, second)
    }

    /// Feeds what the driver observed in one direction to that direction's
    /// relay. The other direction is left exactly as it was.
    pub fn step(&mut self, direction: Direction, event: RelayEvent<E>) -> (action: RelayAction<E>)
        ensures
            *final(self) == session_step(*old(self), direction, event@).0,
            action@ == session_step(*old(self), direction, event@).1,
    {
        let mut state: RelayState<E> = RelayState::Finished;
        match direction {
            Direction::Forward => core::mem::swap(&mut self.forward, &mut state),
            Direction::Backward => core::mem::swap(&mut self.backward, &mut state),
        }
        let (next, action) = step(&self.policy, state, event);
        match direction {
            Direction::Forward => {
                self.forward = next;
            },
            Direction::Backward => {
                self.backward = next;
            },
        }
        action
    }

    /// Whether both directions have finished.
    pub fn is_over(&self) -> (over: bool)
        ensures
            over == self.over(),
    {
        let forward_done = match &self.forward {
            RelayState::Finished => true,
            _ => false,
        };
        let backward_done = match &self.backward {
            RelayState::Finished => true,
            _ => false,
        };
        forward_done && backward_done
    }
}

/// Independence of the two directions. Whatever is observed in one
/// direction, a failure or a timeout as much as data, the relay of the other
/// direction stays in the state it was in, and so does the policy.
pub proof fn law_directions_are_independent<E>(
    session: PairedSession<E>,
    direction: Direction,
    event: RelayEventView<E>,
)
    ensures
        session_step(session, direction, event).0.policy == session.policy,
        direction == Direction::Forward ==> session_step(session, direction, event).0.backward
            == session.backward,
        direction == Direction::Backward ==> session_step(session, direction, event).0.forward
            == session.forward,
{
}

/// A session that is over stays over: no event brings a finished direction
/// back to life, and none asks the driver for anything.
pub proof fn law_over_is_final<E>(
    session: PairedSession<E>,
    direction: Direction,
    event: RelayEventView<E>,
)
    requires
        session.over(),
    ensures
        session_step(session, direction, event).0 == session,
        session_step(session, direction, event).1 == RelayActionView::<E>::Nothing,
{
}

} // verus!
