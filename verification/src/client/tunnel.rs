//! The tunnel client's loop: connect to the broker, connect to the local
//! service, bridge the two, and start over, for as long as the process runs.
//!
//! The loop performs no I/O. A driver connects, sleeps and runs sessions on
//! its behalf, reports each outcome as a [`TunnelEvent`], and carries out the
//! [`TunnelAction`] it gets back.

use vstd::prelude::*;

verus! {

/// How long the client waits after a failed connect before it tries again.
pub const RETRY_DELAY_SECS: u64 = 5;

/// How long the client waits after a session before it sets up the next.
pub const TURNAROUND_DELAY_SECS: u64 = 1;

/// Where the loop stands: which operation of the driver it is waiting for.
#[derive(Clone, Copy, Debug, PartialEq, Eq)]
pub enum TunnelState {
    /// A connect to the broker's tunnel listener is outstanding.
    ConnectingRemote,
    /// The broker is connected; a connect to the local service is
    /// outstanding.
    ConnectingLocal,
    /// Both are connected and a session bridges them.
    Relaying,
    /// A delay is running, after which the loop starts over.
    Waiting,
}

/// What the driver observed.
#[derive(Clone, Copy, Debug, PartialEq, Eq)]
pub enum TunnelEvent {
    /// The outstanding connect succeeded.
    Connected,
    /// The outstanding connect failed.
    ConnectFailed,
    /// Both directions of the session have finished, however they did.
    SessionEnded,
    /// The delay has passed.
    DelayElapsed,
}

/// What the driver does next.
#[derive(Clone, Copy, Debug, PartialEq, Eq)]
pub enum TunnelAction {
    /// Connect to the broker's tunnel listener.
    ConnectRemote,
    /// Connect to the local service.
    ConnectLocal,
    /// Bridge the two connections under the tunnel client's relay policy and
    /// wait for both directions to finish.
    StartSession,
    /// Give up any connection still held from this round and sleep for this
    /// many seconds.
    Sleep(u64),
    /// The event did not answer the outstanding operation and was ignored.
    Nothing,
}

/// The loop's transition function: the state and the action that follow
/// `event` in `state`.
pub open spec fn tunnel_step(state: TunnelState, event: TunnelEvent) -> (TunnelState, TunnelAction) {
    match (state, event) {
        (TunnelState::ConnectingRemote, TunnelEvent::Connected) => (
            TunnelState::ConnectingLocal,
            TunnelAction::ConnectLocal,
        ),
        (TunnelState::ConnectingRemote, TunnelEvent::ConnectFailed) => (
            TunnelState::Waiting,
            TunnelAction::Sleep(RETRY_DELAY_SECS),
        ),
        (TunnelState::ConnectingLocal, TunnelEvent::Connected) => (
            TunnelState::Relaying,
            TunnelAction::StartSession,
        ),
        (TunnelState::ConnectingLocal, TunnelEvent::ConnectFailed) => (
            TunnelState::Waiting,
            TunnelAction::Sleep(RETRY_DELAY_SECS),
        ),
        (TunnelState::Relaying, TunnelEvent::SessionEnded) => (
            TunnelState::Waiting,
            TunnelAction::Sleep(TURNAROUND_DELAY_SECS),
        ),
        (TunnelState::Waiting, TunnelEvent::DelayElapsed) => (
            TunnelState::ConnectingRemote,
            TunnelAction::ConnectRemote,
        ),
        _ => (state, TunnelAction::Nothing),
    }
}

/// Starts the loop: the initial state and the first connect.
pub fn start() -> (begun: (TunnelState, TunnelAction))
    ensures
        begun == (TunnelState::ConnectingRemote, TunnelAction::ConnectRemote),
{
    (TunnelState::ConnectingRemote, TunnelAction::ConnectRemote)
}

/// Feeds one observation of the driver to the loop.
///
/// A failed connect, to either side, is answered with a sleep of
/// [`RETRY_DELAY_SECS`]; the end of a session, however it ended, with one of
/// [`TURNAROUND_DELAY_SECS`]; the end of either sleep with a fresh connect to
/// the broker. No state is final. An event that does not answer the
/// outstanding operation changes nothing.
pub fn step(state: TunnelState, event: TunnelEvent) -> (next: (TunnelState, TunnelAction))
    ensures
        next == tunnel_step(state, event),
{
    match state {
        TunnelState::ConnectingRemote => match event {
            TunnelEvent::Connected => (TunnelState::ConnectingLocal, TunnelAction::ConnectLocal),
            TunnelEvent::ConnectFailed => (
                TunnelState::Waiting,
                TunnelAction::Sleep(RETRY_DELAY_SECS),
            ),
            _ => (state, TunnelAction::Nothing),
        },
        TunnelState::ConnectingLocal => match event {
            TunnelEvent::Connected => (TunnelState::Relaying, TunnelAction::StartSession),
            TunnelEvent::ConnectFailed => (
                TunnelState::Waiting,
                TunnelAction::Sleep(RETRY_DELAY_SECS),
            ),
            _ => (state, TunnelAction::Nothing),
        },
        TunnelState::Relaying => match event {
            TunnelEvent::SessionEnded => (
                TunnelState::Waiting,
                TunnelAction::Sleep(TURNAROUND_DELAY_SECS),
            ),
            _ => (state, TunnelAction::Nothing),
        },
        TunnelState::Waiting => match event {
            TunnelEvent::DelayElapsed => (TunnelState::ConnectingRemote, TunnelAction::ConnectRemote),
            _ => (state, TunnelAction::Nothing),
        },
    }
}

/// The state reached and the actions issued, in order, when `events` are
/// fed one after another to a loop in `state`.
pub open spec fn run(state: TunnelState, events: Seq<TunnelEvent>) -> (
    TunnelState,
    Seq<TunnelAction>,
)
    decreases events.len(),
{
    if events.len() == 0 {
        (state, Seq::empty())
    } else {
        let earlier = run(state, events.drop_last());
        let latest = tunnel_step(earlier.0, events.last());
        (latest.0, earlier.1.push(latest.1))
    }
}

/// What the driver reports while the broker cannot be reached: `rounds`
/// times a failed connect and the end of the sleep that followed it.
pub open spec fn unreachable_rounds(rounds: nat) -> Seq<TunnelEvent>
    decreases rounds,
{
    if rounds == 0 {
        Seq::empty()
    } else {
        unreachable_rounds((rounds - 1) as nat).push(TunnelEvent::ConnectFailed).push(
            TunnelEvent::DelayElapsed,
        )
    }
}

/// What a retrying client does `rounds` times over: sleep for the retry
/// delay, then connect to the broker again.
pub open spec fn retry_rounds(rounds: nat) -> Seq<TunnelAction>
    decreases rounds,
{
    if rounds == 0 {
        Seq::empty()
    } else {
        retry_rounds((rounds - 1) as nat).push(TunnelAction::Sleep(RETRY_DELAY_SECS)).push(
            TunnelAction::ConnectRemote,
        )
    }
}

/// The event that answers the operation outstanding in `state`
/// successfully.
pub open spec fn awaited(state: TunnelState) -> TunnelEvent {
    match state {
        TunnelState::ConnectingRemote => TunnelEvent::Connected,
        TunnelState::ConnectingLocal => TunnelEvent::Connected,
        TunnelState::Relaying => TunnelEvent::SessionEnded,
        TunnelState::Waiting => TunnelEvent::DelayElapsed,
    }
}

/// Reconnect loop. However often the connect to the broker fails, the client
/// answers each failure with a sleep of five seconds and a new attempt, and
/// is then exactly where it started; the first attempt that succeeds takes
/// it on to the local service.
pub proof fn law_client_keeps_retrying(rounds: nat)
    ensures
        run(TunnelState::ConnectingRemote, unreachable_rounds(rounds)) == (
            TunnelState::ConnectingRemote,
            retry_rounds(rounds),
        ),
        RETRY_DELAY_SECS == 5,
        tunnel_step(
            run(TunnelState::ConnectingRemote, unreachable_rounds(rounds)).0,
            TunnelEvent::Connected,
        ) == (TunnelState::ConnectingLocal, TunnelAction::ConnectLocal),
    decreases rounds,
{
    if rounds > 0 {
        law_client_keeps_retrying((rounds - 1) as nat);
        let before = unreachable_rounds((rounds - 1) as nat);
        let failed = before.push(TunnelEvent::ConnectFailed);
        let slept = failed.push(TunnelEvent::DelayElapsed);
        let begin = TunnelState::ConnectingRemote;
        assert(failed.drop_last() =~= before);
        assert(run(begin, failed).0 == TunnelState::Waiting);
        assert(slept.drop_last() =~= failed);
        assert(run(begin, slept).1 =~= retry_rounds(rounds));
    }
}

/// The loop has no final state: in every state the operation that is
/// outstanding has an answer that moves the loop on and gives the driver
/// something to do, so no transient failure ever ends it.
pub proof fn law_client_never_stops(state: TunnelState)
    ensures
        tunnel_step(state, awaited(state)).1 != TunnelAction::Nothing,
        tunnel_step(state, awaited(state)).0 != state,
{
}

} // verus!
