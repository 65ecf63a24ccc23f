//! The broker's pairing behaviour over whole sequences of arrivals.
//!
//! Accepting a tunnel connection and serving an external connection both
//! happen under the slot's lock, so the broker sees them one after another.
//! This module describes such a sequence and states what holds of every one.

use crate::server::pairer::{notice_text, pairing_for, Pairing};
use vstd::prelude::*;

verus! {

/// One thing that happens to the slot.
pub enum BrokerEvent<T> {
    /// The tunnel listener accepted this connection.
    InternalAccepted(T),
    /// An external connection arrived. `alive` is what the probe says of the
    /// held tunnel connection, if there is one to probe.
    ExternalArrived { alive: bool },
}

/// What the slot holds after `event`: an accepted connection replaces the
/// occupant, and an external arrival empties the slot whether it is paired
/// or not.
pub open spec fn slot_step<T>(held: Option<T>, event: BrokerEvent<T>) -> Option<T> {
    match event {
        BrokerEvent::InternalAccepted(conn) => Some(conn),
        BrokerEvent::ExternalArrived { .. } => None,
    }
}

/// What the slot holds after all of `events`, in order.
pub open spec fn slot_after<T>(held: Option<T>, events: Seq<BrokerEvent<T>>) -> Option<T>
    decreases events.len(),
{
    if events.len() == 0 {
        held
    } else {
        slot_step(slot_after(held, events.drop_last()), events.last())
    }
}

/// How the external connection that arrives as event `at` fares.
pub open spec fn pairing_at<T>(held: Option<T>, events: Seq<BrokerEvent<T>>, at: int) -> Pairing<T>
    recommends
        0 <= at < events.len(),
        events[at] is ExternalArrived,
{
    pairing_for(slot_after(held, events.take(at)), events[at]->alive)
}

/// External arrivals with these probe answers, and no tunnel connection
/// accepted between them.
pub open spec fn arrivals<T>(probes: Seq<bool>) -> Seq<BrokerEvent<T>> {
    Seq::new(probes.len(), |i: int| BrokerEvent::ExternalArrived { alive: probes[i] })
}

/// Pairing exclusivity. Of any number of external connections that find one
/// tunnel connection held, only the first can be paired with it, and it is
/// if that connection is alive; every other one is turned away.
pub proof fn law_pairing_is_exclusive<T>(conn: T, probes: Seq<bool>)
    ensures
        probes.len() > 0 ==> pairing_at(Some(conn), arrivals(probes), 0) == (if probes[0] {
            Pairing::Paired(conn)
        } else {
            Pairing::Unavailable
        }),
        forall|i: int|
            0 < i < probes.len() ==> #[trigger] pairing_at(Some(conn), arrivals(probes), i)
                == Pairing::<T>::Unavailable,
{
    let events = arrivals::<T>(probes);
    if probes.len() > 0 {
        assert(events.take(0) =~= Seq::<BrokerEvent<T>>::empty());
    }
    assert forall|i: int| 0 < i < probes.len() implies #[trigger] pairing_at(
        Some(conn),
        events,
        i,
    ) == Pairing::<T>::Unavailable by {
        assert(events.take(i).last() == events[i - 1]);
    }
}

/// A tunnel connection is assigned at most once: between two external
/// connections that were both paired, a tunnel connection was accepted.
pub proof fn law_paired_at_most_once<T>(
    held: Option<T>,
    events: Seq<BrokerEvent<T>>,
    first: int,
    second: int,
)
    requires
        0 <= first < second < events.len(),
        events[first] is ExternalArrived,
        events[second] is ExternalArrived,
        pairing_at(held, events, second) is Paired,
    ensures
        first < second - 1,
        events[second - 1] is InternalAccepted,
        pairing_at(held, events, second) == Pairing::Paired(events[second - 1]->InternalAccepted_0),
{
    assert(events.take(second).last() == events[second - 1]);
}

/// Slot replacement. The connection accepted last is the one held, whatever
/// was held or happened before; so after two are accepted in a row, an
/// external connection is paired with the second and never with the first.
pub proof fn law_latest_internal_wins<T>(
    held: Option<T>,
    earlier: Seq<BrokerEvent<T>>,
    first: T,
    second: T,
    alive: bool,
)
    ensures
        slot_after(held, earlier.push(BrokerEvent::InternalAccepted(first))) == Some(first),
        slot_after(
            held,
            earlier.push(BrokerEvent::InternalAccepted(first)).push(
                BrokerEvent::InternalAccepted(second),
            ),
        ) == Some(second),
        pairing_at(
            held,
            earlier.push(BrokerEvent::InternalAccepted(first)).push(
                BrokerEvent::InternalAccepted(second),
            ).push(BrokerEvent::ExternalArrived { alive }),
            earlier.len() + 2 as int,
        ) == pairing_for(Some(second), alive),
{
    let accepted = earlier.push(BrokerEvent::InternalAccepted(first)).push(
        BrokerEvent::InternalAccepted(second),
    );
    let all = accepted.push(BrokerEvent::ExternalArrived { alive });
    assert(all.take(earlier.len() + 2 as int) =~= accepted);
}

/// Liveness eviction. An external connection that finds a dead tunnel
/// connection held is turned away with the notice that no internal client is
/// available, the dead connection is gone from the slot, and so is every
/// later external connection until a tunnel connection is accepted.
pub proof fn law_dead_internal_is_evicted<T>(conn: T, later: Seq<bool>)
    ensures
        pairing_for(Some(conn), false) == Pairing::<T>::Unavailable,
        notice_text(pairing_for(Some(conn), false)) == "No internal clients available"@,
        slot_step(Some(conn), BrokerEvent::ExternalArrived { alive: false }) == None::<T>,
        forall|i: int|
            0 <= i < later.len() ==> #[trigger] pairing_at(
                slot_step(Some(conn), BrokerEvent::ExternalArrived { alive: false }),
                arrivals(later),
                i,
            ) == Pairing::<T>::Unavailable,
{
    let events = arrivals::<T>(later);
    assert forall|i: int| 0 <= i < later.len() implies #[trigger] pairing_at(
        None::<T>,
        events,
        i,
    ) == Pairing::<T>::Unavailable by {
        if i == 0 {
            assert(events.take(0) =~= Seq::<BrokerEvent<T>>::empty());
        } else {
            assert(events.take(i).last() == events[i - 1]);
        }
    }
}

} // verus!
