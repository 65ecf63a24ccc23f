//! One direction of a paired session: bytes read from a source stream are
//! written, unchanged and in order, to a destination stream.
//!
//! The relay performs no I/O. A driver reads, writes and shuts down on its
//! behalf, reports each completed operation as a [`RelayEvent`], and carries
//! out the [`RelayAction`] it gets back.

use vstd::prelude::*;

pub mod trace;

verus! {

/// How many bytes a single read may return.
pub const BUFFER_SIZE: usize = 4096;

/// How long the tunnel client waits for bytes before it gives a direction up.
pub const IDLE_TIMEOUT_SECS: u64 = 5;

/// What distinguishes the broker's relay from the tunnel client's.
#[derive(Clone, Copy, Debug, PartialEq, Eq)]
pub struct RelayPolicy {
    /// Longest wait for one read, in seconds; `None` waits without limit.
    pub idle_timeout_secs: Option<u64>,
    /// Whether the destination is shut down in both directions when the relay
    /// ends, so that the opposite direction of the session ends as well.
    pub shutdown_on_exit: bool,
}

impl RelayPolicy {
    /// The broker's policy: reads wait without limit, and the destination is
    /// shut down when the relay ends, for whatever reason.
    pub fn broker() -> (policy: Self)
        ensures
            policy.idle_timeout_secs is None,
            policy.shutdown_on_exit,
    {
        RelayPolicy { idle_timeout_secs: None, shutdown_on_exit: true }
    }

    /// The tunnel client's policy: a read that stays silent for
    /// [`IDLE_TIMEOUT_SECS`] ends the relay, and the destination is left
    /// open when the relay ends.
    pub fn tunnel_client() -> (policy: Self)
        ensures
            policy.idle_timeout_secs == Some(IDLE_TIMEOUT_SECS),
            !policy.shutdown_on_exit,
    {
        RelayPolicy { idle_timeout_secs: Some(IDLE_TIMEOUT_SECS), shutdown_on_exit: false }
    }
}

/// Why a relay ended other than by end of stream. `E` is the driver's own
/// error value, carried through untouched.
#[derive(Debug, PartialEq, Eq)]
pub enum RelayError<E> {
    /// Reading the source failed.
    Read(E),
    /// Writing the destination failed.
    Write(E),
    /// The source stayed silent for the whole idle window.
    IdleTimeout,
}

/// Where a relay stands: which operation of the driver it is waiting for.
#[derive(Debug, PartialEq, Eq)]
pub enum RelayState<E> {
    /// A read of the source is outstanding.
    AwaitingRead,
    /// A write of the last chunk to the destination is outstanding.
    AwaitingWrite,
    /// The relay is over but for the shutdown of the destination; the
    /// outcome is kept until that has been attempted.
    AwaitingShutdown(Result<(), RelayError<E>>),
    /// The relay is over and its outcome has been handed out.
    Finished,
}

/// What the driver observed.
#[derive(Debug, PartialEq, Eq)]
pub enum RelayEvent<E> {
    /// The source reached end of stream.
    ReadEof,
    /// The read returned these bytes. An empty chunk is not end of stream.
    ReadData(Vec<u8>),
    /// The read failed.
    ReadFailed(E),
    /// The idle window passed without a byte.
    ReadTimedOut,
    /// The whole chunk was written.
    WriteDone,
    /// The write failed.
    WriteFailed(E),
    /// The shutdown of the destination was attempted; whether it succeeded
    /// does not matter to the relay.
    ShutdownDone,
}

/// What the driver does next.
#[derive(Debug, PartialEq, Eq)]
pub enum RelayAction<E> {
    /// Read at most `capacity` bytes from the source, waiting no longer than
    /// `idle_timeout_secs` if that is set.
    Read { capacity: usize, idle_timeout_secs: Option<u64> },
    /// Write exactly these bytes to the destination.
    Write(Vec<u8>),
    /// Shut down both directions of the destination.
    ShutdownDestination,
    /// The relay is over, with this outcome.
    Finish(Result<(), RelayError<E>>),
    /// The event did not answer the outstanding operation and was ignored.
    Nothing,
}

/// A [`RelayEvent`] with its bytes as a sequence.
pub enum RelayEventView<E> {
    ReadEof,
    ReadData(Seq<u8>),
    ReadFailed(E),
    ReadTimedOut,
    WriteDone,
    WriteFailed(E),
    ShutdownDone,
}

/// A [`RelayAction`] with its bytes as a sequence.
pub enum RelayActionView<E> {
    Read { capacity: usize, idle_timeout_secs: Option<u64> },
    Write(Seq<u8>),
    ShutdownDestination,
    Finish(Result<(), RelayError<E>>),
    Nothing,
}

impl<E> View for RelayEvent<E> {
    type V = RelayEventView<E>;

    open spec fn view(&self) -> RelayEventView<E> {
        match *self {
            RelayEvent::ReadEof => RelayEventView::ReadEof,
            RelayEvent::ReadData(bytes) => RelayEventView::ReadData(bytes@),
            RelayEvent::ReadFailed(e) => RelayEventView::ReadFailed(e),
            RelayEvent::ReadTimedOut => RelayEventView::ReadTimedOut,
            RelayEvent::WriteDone => RelayEventView::WriteDone,
            RelayEvent::WriteFailed(e) => RelayEventView::WriteFailed(e),
            RelayEvent::ShutdownDone => RelayEventView::ShutdownDone,
        }
    }
}

impl<E> View for RelayAction<E> {
    type V = RelayActionView<E>;

    open spec fn view(&self) -> RelayActionView<E> {
        match *self {
            RelayAction::Read { capacity, idle_timeout_secs } => RelayActionView::Read {
                capacity,
                idle_timeout_secs,
            },
            RelayAction::Write(bytes) => RelayActionView::Write(bytes@),
            RelayAction::ShutdownDestination => RelayActionView::ShutdownDestination,
            RelayAction::Finish(outcome) => RelayActionView::Finish(outcome),
            RelayAction::Nothing => RelayActionView::Nothing,
        }
    }
}

/// The read that a relay under `policy` asks for.
pub open spec fn read_request<E>(policy: RelayPolicy) -> RelayActionView<E> {
    RelayActionView::Read { capacity: BUFFER_SIZE, idle_timeout_secs: policy.idle_timeout_secs }
}

/// How a relay under `policy` ends with `outcome`: at once, or after the
/// destination has been shut down.
pub open spec fn conclusion<E>(policy: RelayPolicy, outcome: Result<(), RelayError<E>>) -> (
    RelayState<E>,
    RelayActionView<E>,
) {
    if policy.shutdown_on_exit {
        (RelayState::AwaitingShutdown(outcome), RelayActionView::ShutdownDestination)
    } else {
        (RelayState::Finished, RelayActionView::Finish(outcome))
    }
}

/// The relay's transition function: the state and the action that follow
/// `event` in `state`.
pub open spec fn relay_step<E>(policy: RelayPolicy, state: RelayState<E>, event: RelayEventView<E>) -> (
    RelayState<E>,
    RelayActionView<E>,
) {
    match state {
        RelayState::AwaitingRead => match event {
            RelayEventView::ReadEof => conclusion(policy, Ok(())),
            RelayEventView::ReadData(bytes) => if bytes.len() == 0 {
                (RelayState::AwaitingRead, read_request(policy))
            } else {
                (RelayState::AwaitingWrite, RelayActionView::Write(bytes))
            },
            RelayEventView::ReadFailed(e) => conclusion(policy, Err(RelayError::Read(e))),
            RelayEventView::ReadTimedOut => conclusion(policy, Err(RelayError::IdleTimeout)),
            _ => (state, RelayActionView::Nothing),
        },
        RelayState::AwaitingWrite => match event {
            RelayEventView::WriteDone => (RelayState::AwaitingRead, read_request(policy)),
            RelayEventView::WriteFailed(e) => conclusion(policy, Err(RelayError::Write(e))),
            _ => (state, RelayActionView::Nothing),
        },
        RelayState::AwaitingShutdown(outcome) => match event {
            RelayEventView::ShutdownDone => (RelayState::Finished, RelayActionView::Finish(outcome)),
            _ => (state, RelayActionView::Nothing),
        },
        RelayState::Finished => (state, RelayActionView::Nothing),
    }
}

/// Starts a relay: the initial state and the first read.
pub fn start<E>(policy: &RelayPolicy) -> (begun: (RelayState<E>, RelayAction<E>))
    ensures
        begun.0 == RelayState::<E>::AwaitingRead,
        begun.1@ == read_request::<E>(*policy),
{
    (RelayState::AwaitingRead, next_read(policy))
}

/// Feeds one observation of the driver to the relay.
///
/// Data is passed on exactly as it was read; an empty chunk asks for another
/// read. End of stream ends the relay with `Ok`, a failed read or write with
/// the driver's error, a silent idle window with
/// [`RelayError::IdleTimeout`]. Under a policy with `shutdown_on_exit` each of
/// these endings first asks for the destination to be shut down. An event
/// that does not answer the outstanding operation changes nothing.
pub fn step<E>(policy: &RelayPolicy, state: RelayState<E>, event: RelayEvent<E>) -> (next: (
    RelayState<E>,
    RelayAction<E>,
))
    ensures
        next.0 == relay_step(*policy, state, event@).0,
        next.1@ == relay_step(*policy, state, event@).1,
{
    match state {
        RelayState::AwaitingRead => match event {
            RelayEvent::ReadEof => conclude(policy, Ok(())),
            RelayEvent::ReadData(bytes) => {
                if bytes.len() == 0 {
                    (RelayState::AwaitingRead, next_read(policy))
                } else {
                    (RelayState::AwaitingWrite, RelayAction::Write(bytes))
                }
            },
            RelayEvent::ReadFailed(e) => conclude(policy, Err(RelayError::Read(e))),
            RelayEvent::ReadTimedOut => conclude(policy, Err(RelayError::IdleTimeout)),
            _ => (RelayState::AwaitingRead, RelayAction::Nothing),
        },
        RelayState::AwaitingWrite => match event {
            RelayEvent::WriteDone => (RelayState::AwaitingRead, next_read(policy)),
            RelayEvent::WriteFailed(e) => conclude(policy, Err(RelayError::Write(e))),
            _ => (RelayState::AwaitingWrite, RelayAction::Nothing),
        },
        RelayState::AwaitingShutdown(outcome) => match event {
            RelayEvent::ShutdownDone => (RelayState::Finished, RelayAction::Finish(outcome)),
            _ => (RelayState::AwaitingShutdown(outcome), RelayAction::Nothing),
        },
        RelayState::Finished => (RelayState::Finished, RelayAction::Nothing),
    }
}

fn next_read<E>(policy: &RelayPolicy) -> (action: RelayAction<E>)
    ensures
        action@ == read_request::<E>(*policy),
{
    RelayAction::Read { capacity: BUFFER_SIZE, idle_timeout_secs: policy.idle_timeout_secs }
}

fn conclude<E>(policy: &RelayPolicy, outcome: Result<(), RelayError<E>>) -> (ending: (
    RelayState<E>,
    RelayAction<E>,
))
    ensures
        ending.0 == conclusion(*policy, outcome).0,
        ending.1@ == conclusion(*policy, outcome).1,
{
    if policy.shutdown_on_exit {
        (RelayState::AwaitingShutdown(outcome), RelayAction::ShutdownDestination)
    } else {
        (RelayState::Finished, RelayAction::Finish(outcome))
    }
}

} // verus!
