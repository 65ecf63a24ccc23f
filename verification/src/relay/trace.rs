//! Whole runs of a relay: what reaches the destination over a sequence of
//! observations, and what follows from the transition function for every
//! such sequence.

use crate::relay::{
    conclusion, read_request, relay_step, RelayActionView, RelayError, RelayEventView,
    RelayPolicy, RelayState, IDLE_TIMEOUT_SECS,
};
use vstd::prelude::*;

verus! {

/// The state reached and the actions issued, in order, when `events` are
/// fed one after another to a relay in `state`.
pub open spec fn run<E>(policy: RelayPolicy, state: RelayState<E>, events: Seq<RelayEventView<E>>) -> (
    RelayState<E>,
    Seq<RelayActionView<E>>,
)
    decreases events.len(),
{
    if events.len() == 0 {
        (state, Seq::empty())
    } else {
        let earlier = run(policy, state, events.drop_last());
        let latest = relay_step(policy, earlier.0, events.last());
        (latest.0, earlier.1.push(latest.1))
    }
}

/// The bytes that an action sends to the destination.
pub open spec fn payload<E>(action: RelayActionView<E>) -> Seq<u8> {
    match action {
        RelayActionView::Write(bytes) => bytes,
        _ => Seq::empty(),
    }
}

/// Everything that `actions` send to the destination, in order.
pub open spec fn written<E>(actions: Seq<RelayActionView<E>>) -> Seq<u8>
    decreases actions.len(),
{
    if actions.len() == 0 {
        Seq::empty()
    } else {
        written(actions.drop_last()) + payload(actions.last())
    }
}

/// The chunks laid end to end.
pub open spec fn joined(chunks: Seq<Seq<u8>>) -> Seq<u8>
    decreases chunks.len(),
{
    if chunks.len() == 0 {
        Seq::empty()
    } else {
        joined(chunks.drop_last()) + chunks.last()
    }
}

/// What a healthy transport reports for one chunk: the read that returned
/// it and, unless it was empty, the completion of the write it caused.
pub open spec fn chunk_events<E>(chunk: Seq<u8>) -> Seq<RelayEventView<E>> {
    if chunk.len() == 0 {
        seq![RelayEventView::ReadData(chunk)]
    } else {
        seq![RelayEventView::ReadData(chunk), RelayEventView::WriteDone]
    }
}

/// What a healthy transport reports while the source yields `chunks`, one
/// per read, before it reaches end of stream.
pub open spec fn transfer_events<E>(chunks: Seq<Seq<u8>>) -> Seq<RelayEventView<E>>
    decreases chunks.len(),
{
    if chunks.len() == 0 {
        Seq::empty()
    } else {
        transfer_events(chunks.drop_last()) + chunk_events(chunks.last())
    }
}

/// Feeding `first + second` is feeding `first`, then `second` from the state
/// that `first` led to.
pub proof fn lemma_run_append<E>(
    policy: RelayPolicy,
    state: RelayState<E>,
    first: Seq<RelayEventView<E>>,
    second: Seq<RelayEventView<E>>,
)
    ensures
        run(policy, state, first + second).0 == run(
            policy,
            run(policy, state, first).0,
            second,
        ).0,
        run(policy, state, first + second).1 == run(policy, state, first).1 + run(
            policy,
            run(policy, state, first).0,
            second,
        ).1,
    decreases second.len(),
{
    let middle = run(policy, state, first);
    if second.len() == 0 {
        assert(first + second =~= first);
        assert(middle.1 + Seq::<RelayActionView<E>>::empty() =~= middle.1);
    } else {
        assert((first + second).drop_last() =~= first + second.drop_last());
        assert((first + second).last() == second.last());
        lemma_run_append(policy, state, first, second.drop_last());
        let tail = run(policy, middle.0, second.drop_last());
        let latest = relay_step(policy, tail.0, second.last());
        assert((middle.1 + tail.1).push(latest.1) =~= middle.1 + tail.1.push(latest.1));
    }
}

/// What two runs of actions send is what the first sends, then what the
/// second sends.
pub proof fn lemma_written_append<E>(first: Seq<RelayActionView<E>>, second: Seq<RelayActionView<E>>)
    ensures
        written(first + second) == written(first) + written(second),
    decreases second.len(),
{
    if second.len() == 0 {
        assert(first + second =~= first);
        assert(written(first) + written(second) =~= written(first));
    } else {
        assert((first + second).drop_last() =~= first + second.drop_last());
        assert((first + second).last() == second.last());
        lemma_written_append(first, second.drop_last());
        assert((written(first) + written(second.drop_last())) + payload(second.last())
            =~= written(first) + (written(second.drop_last()) + payload(second.last())));
    }
}

/// What a run of actions sends once one more action has been issued.
pub proof fn lemma_written_push<E>(actions: Seq<RelayActionView<E>>, action: RelayActionView<E>)
    ensures
        written(actions.push(action)) == written(actions) + payload(action),
{
    assert(actions.push(action).drop_last() =~= actions);
}

/// One chunk from a healthy transport leaves a reading relay reading again
/// and sends exactly that chunk to the destination.
pub proof fn lemma_chunk_is_passed_on<E>(policy: RelayPolicy, chunk: Seq<u8>)
    ensures
        run(policy, RelayState::<E>::AwaitingRead, chunk_events(chunk)).0
            == RelayState::<E>::AwaitingRead,
        written(run(policy, RelayState::<E>::AwaitingRead, chunk_events(chunk)).1) == chunk,
{
    let reading = RelayState::<E>::AwaitingRead;
    let events = chunk_events::<E>(chunk);
    let none = Seq::<RelayEventView<E>>::empty();
    let silent = Seq::<RelayActionView<E>>::empty();
    let head = seq![RelayEventView::<E>::ReadData(chunk)];
    assert(head.drop_last() =~= none);
    let after_read = run(policy, reading, head);
    assert(run(policy, reading, head.drop_last()) == (reading, silent));
    assert(after_read.1 == silent.push(relay_step(policy, reading, head.last()).1));
    lemma_written_push(silent, relay_step(policy, reading, head.last()).1);
    assert(written(silent) + chunk =~= chunk);
    if chunk.len() == 0 {
        assert(events =~= head);
    } else {
        assert(events.drop_last() =~= head);
        lemma_written_push(after_read.1, read_request::<E>(policy));
        assert(chunk + Seq::<u8>::empty() =~= chunk);
    }
}

/// Byte-exactness. Whatever the source yields and however it is cut into
/// reads (chunks shorter than, as long as, or longer than the buffer, empty
/// ones among them), a relay over a healthy transport sends the destination
/// exactly those bytes, in order, nothing dropped and nothing repeated, and
/// is ready for the next read.
pub proof fn law_relay_is_byte_exact<E>(policy: RelayPolicy, chunks: Seq<Seq<u8>>)
    ensures
        run(policy, RelayState::<E>::AwaitingRead, transfer_events(chunks)).0
            == RelayState::<E>::AwaitingRead,
        written(run(policy, RelayState::<E>::AwaitingRead, transfer_events(chunks)).1) == joined(
            chunks,
        ),
    decreases chunks.len(),
{
    let reading = RelayState::<E>::AwaitingRead;
    if chunks.len() == 0 {
        assert(written(run(policy, reading, transfer_events::<E>(chunks)).1) =~= joined(chunks));
    } else {
        let before = transfer_events::<E>(chunks.drop_last());
        let last = chunk_events::<E>(chunks.last());
        law_relay_is_byte_exact::<E>(policy, chunks.drop_last());
        lemma_chunk_is_passed_on::<E>(policy, chunks.last());
        lemma_run_append(policy, reading, before, last);
        lemma_written_append(run(policy, reading, before).1, run(policy, reading, last).1);
    }
}

/// End of stream after a healthy transfer ends the relay with success: at
/// once where the policy leaves the destination open, and otherwise once the
/// shutdown of the destination has been attempted. Nothing more is sent.
pub proof fn law_end_of_stream_ends_relay<E>(policy: RelayPolicy, chunks: Seq<Seq<u8>>)
    ensures
        ({
            let ending = if policy.shutdown_on_exit {
                seq![RelayEventView::<E>::ReadEof, RelayEventView::<E>::ShutdownDone]
            } else {
                seq![RelayEventView::<E>::ReadEof]
            };
            let whole = run(
                policy,
                RelayState::<E>::AwaitingRead,
                transfer_events::<E>(chunks) + ending,
            );
            &&& whole.0 == RelayState::<E>::Finished
            &&& whole.1.last() == RelayActionView::<E>::Finish(Ok(()))
            &&& written(whole.1) == joined(chunks)
        }),
{
    let reading = RelayState::<E>::AwaitingRead;
    let eof = seq![RelayEventView::<E>::ReadEof];
    let none = Seq::<RelayEventView<E>>::empty();
    let ending = if policy.shutdown_on_exit {
        seq![RelayEventView::<E>::ReadEof, RelayEventView::<E>::ShutdownDone]
    } else {
        eof
    };
    law_relay_is_byte_exact::<E>(policy, chunks);
    lemma_run_append(policy, reading, transfer_events::<E>(chunks), ending);
    assert(eof.drop_last() =~= none);
    let silent = Seq::<RelayActionView<E>>::empty();
    let after_eof = run(policy, reading, eof);
    assert(run(policy, reading, eof.drop_last()) == (reading, silent));
    assert(after_eof.1 == silent.push(conclusion::<E>(policy, Ok(())).1));
    lemma_written_push(silent, conclusion::<E>(policy, Ok(())).1);
    let closing = run(policy, reading, ending);
    if policy.shutdown_on_exit {
        assert(ending.drop_last() =~= eof);
        lemma_written_push(after_eof.1, RelayActionView::<E>::Finish(Ok(())));
    }
    assert(written(closing.1) =~= Seq::<u8>::empty());
    lemma_written_append(run(policy, reading, transfer_events::<E>(chunks)).1, closing.1);
    assert(joined(chunks) + Seq::<u8>::empty() =~= joined(chunks));
}

/// A finished relay is silent: whatever is reported to it afterwards, it
/// stays finished and sends the destination nothing more.
pub proof fn law_finished_relay_is_silent<E>(policy: RelayPolicy, events: Seq<RelayEventView<E>>)
    ensures
        run(policy, RelayState::<E>::Finished, events).0 == RelayState::<E>::Finished,
        written(run(policy, RelayState::<E>::Finished, events).1) == Seq::<u8>::empty(),
    decreases events.len(),
{
    if events.len() > 0 {
        law_finished_relay_is_silent(policy, events.drop_last());
        let earlier = run(policy, RelayState::<E>::Finished, events.drop_last());
        lemma_written_push(earlier.1, RelayActionView::<E>::Nothing);
        assert(written(earlier.1) + Seq::<u8>::empty() =~= Seq::<u8>::empty());
    }
}

/// Idle timeout. Every read that the tunnel client's relay asks for is
/// bounded by the idle window, and a read that stays silent for that long
/// ends the relay with a timeout error.
pub proof fn law_idle_read_times_out<E>(policy: RelayPolicy)
    requires
        policy.idle_timeout_secs == Some(IDLE_TIMEOUT_SECS),
        !policy.shutdown_on_exit,
    ensures
        read_request::<E>(policy) matches RelayActionView::Read { idle_timeout_secs, .. }
            && idle_timeout_secs == Some(5u64),
        relay_step(policy, RelayState::<E>::AwaitingRead, RelayEventView::ReadTimedOut) == (
            RelayState::<E>::Finished,
            RelayActionView::<E>::Finish(Err(RelayError::IdleTimeout)),
        ),
{
}

} // verus!
