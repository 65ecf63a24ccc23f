use tcp_repeater::server::config::{
    Config, DEFAULT_CLIENT_LISTENER_ADDR, DEFAULT_EXTERNAL_LISTENER_ADDR,
};
use tcp_repeater::server::pairer::{
    begin_claim, conclude_claim, ClaimStep, Pairing, PROBE_SENTINEL,
};
use tcp_repeater::server::slot::InternalSlot;

/// Serves one external arrival the way a driver does: look in the slot,
/// probe what is found, settle.
fn arrive(slot: &mut InternalSlot<u32>, alive: bool) -> Pairing<u32> {
    match begin_claim(slot) {
        ClaimStep::Probe(candidate) => conclude_claim(candidate, alive),
        ClaimStep::Unavailable => Pairing::Unavailable,
    }
}

#[test]
fn server_defaults() {
    let config = Config::default();
    assert_eq!(config.client_listener_addr, "0.0.0.0:9000");
    assert_eq!(config.external_listener_addr, "0.0.0.0:8000");
    assert_eq!(DEFAULT_CLIENT_LISTENER_ADDR, "0.0.0.0:9000");
    assert_eq!(DEFAULT_EXTERNAL_LISTENER_ADDR, "0.0.0.0:8000");
}

#[test]
fn probe_sentinel_is_a_zero_byte() {
    assert_eq!(PROBE_SENTINEL, 0);
}

#[test]
fn new_slot_is_vacant() {
    let slot: InternalSlot<u32> = InternalSlot::new();
    assert!(slot.is_vacant());
}

#[test]
fn accept_fills_the_slot() {
    let mut slot: InternalSlot<u32> = InternalSlot::new();
    assert_eq!(slot.accept(7), None);
    assert!(!slot.is_vacant());
}

#[test]
fn accept_replaces_and_hands_back_the_occupant() {
    let mut slot: InternalSlot<u32> = InternalSlot::new();
    assert_eq!(slot.accept(1), None);
    assert_eq!(slot.accept(2), Some(1));
    assert_eq!(slot.accept(3), Some(2));
    assert_eq!(slot.take_candidate(), Some(3));
}

#[test]
fn take_candidate_empties_the_slot() {
    let mut slot: InternalSlot<u32> = InternalSlot::new();
    slot.accept(5);
    assert_eq!(slot.take_candidate(), Some(5));
    assert!(slot.is_vacant());
    assert_eq!(slot.take_candidate(), None);
    assert!(slot.is_vacant());
}

#[test]
fn claim_on_an_empty_slot_has_nothing_to_probe() {
    let mut slot: InternalSlot<u32> = InternalSlot::new();
    assert_eq!(begin_claim(&mut slot), ClaimStep::Unavailable);
    assert!(slot.is_vacant());
}

#[test]
fn claim_hands_out_the_held_connection_for_probing() {
    let mut slot: InternalSlot<u32> = InternalSlot::new();
    slot.accept(9);
    assert_eq!(begin_claim(&mut slot), ClaimStep::Probe(9));
    assert!(slot.is_vacant());
}

#[test]
fn live_candidate_is_paired() {
    assert_eq!(conclude_claim(4u32, true), Pairing::Paired(4));
}

#[test]
fn dead_candidate_is_discarded() {
    assert_eq!(conclude_claim(4u32, false), Pairing::Unavailable);
}

#[test]
fn only_one_external_is_paired_with_one_internal() {
    let mut slot: InternalSlot<u32> = InternalSlot::new();
    slot.accept(11);
    let outcomes: Vec<Pairing<u32>> = (0..5).map(|_| arrive(&mut slot, true)).collect();
    assert_eq!(outcomes[0], Pairing::Paired(11));
    for later in &outcomes[1..] {
        assert_eq!(*later, Pairing::Unavailable);
    }
    assert_eq!(outcomes.iter().filter(|p| matches!(p, Pairing::Paired(_))).count(), 1);
}

#[test]
fn latest_internal_wins() {
    let mut slot: InternalSlot<u32> = InternalSlot::new();
    slot.accept(1);
    slot.accept(2);
    assert_eq!(arrive(&mut slot, true), Pairing::Paired(2));
    assert_eq!(arrive(&mut slot, true), Pairing::Unavailable);
}

#[test]
fn dead_internal_is_evicted() {
    let mut slot: InternalSlot<u32> = InternalSlot::new();
    slot.accept(1);
    let pairing = arrive(&mut slot, false);
    assert_eq!(pairing, Pairing::Unavailable);
    assert_eq!(pairing.notice(), "No internal clients available");
    assert!(slot.is_vacant());
    assert_eq!(arrive(&mut slot, true), Pairing::Unavailable);
    slot.accept(2);
    assert_eq!(arrive(&mut slot, true), Pairing::Paired(2));
}

#[test]
fn notices_name_the_outcome() {
    assert_eq!(Pairing::Paired(1u32).notice(), "Internal client assigned to external client");
    assert_eq!(Pairing::<u32>::Unavailable.notice(), "No internal clients available");
}
