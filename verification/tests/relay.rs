use tcp_repeater::relay::{
    start, step, RelayAction, RelayError, RelayEvent, RelayPolicy, RelayState, BUFFER_SIZE,
    IDLE_TIMEOUT_SECS,
};

/// Drives one relay over an in-memory source until it finishes. Returns what
/// reached the destination, how many writes carried it, whether the
/// destination was shut down, and the outcome.
fn pump(policy: RelayPolicy, source: &[u8]) -> (Vec<u8>, usize, bool, Result<(), RelayError<String>>) {
    let mut delivered: Vec<u8> = Vec::new();
    let mut writes: usize = 0;
    let mut shut_down = false;
    let mut offset: usize = 0;
    let (mut state, mut action) = start::<String>(&policy);
    loop {
        let event = match action {
            RelayAction::Read { capacity, .. } => {
                if offset == source.len() {
                    RelayEvent::ReadEof
                } else {
                    let end: usize = usize::min(source.len(), offset + capacity);
                    let chunk = source[offset..end].to_vec();
                    offset = end;
                    RelayEvent::ReadData(chunk)
                }
            }
            RelayAction::Write(bytes) => {
                writes += 1;
                delivered.extend_from_slice(&bytes);
                RelayEvent::WriteDone
            }
            RelayAction::ShutdownDestination => {
                shut_down = true;
                RelayEvent::ShutdownDone
            }
            RelayAction::Finish(outcome) => {
                assert_eq!(state, RelayState::Finished);
                return (delivered, writes, shut_down, outcome);
            }
            RelayAction::Nothing => panic!("the relay ignored the answer to its own request"),
        };
        let next = step(&policy, state, event);
        state = next.0;
        action = next.1;
    }
}

fn payload(len: usize) -> Vec<u8> {
    (0..len).map(|i| (i % 251) as u8).collect()
}

#[test]
fn constants_are_as_documented() {
    assert_eq!(BUFFER_SIZE, 4096);
    assert_eq!(IDLE_TIMEOUT_SECS, 5);
}

#[test]
fn policies_differ_in_timeout_and_shutdown() {
    let broker = RelayPolicy::broker();
    assert_eq!(broker.idle_timeout_secs, None);
    assert!(broker.shutdown_on_exit);
    let client = RelayPolicy::tunnel_client();
    assert_eq!(client.idle_timeout_secs, Some(5));
    assert!(!client.shutdown_on_exit);
}

#[test]
fn start_asks_for_a_bounded_read() {
    let (state, action) = start::<String>(&RelayPolicy::tunnel_client());
    assert_eq!(state, RelayState::AwaitingRead);
    assert_eq!(action, RelayAction::Read { capacity: 4096, idle_timeout_secs: Some(5) });
    let (state, action) = start::<String>(&RelayPolicy::broker());
    assert_eq!(state, RelayState::AwaitingRead);
    assert_eq!(action, RelayAction::Read { capacity: 4096, idle_timeout_secs: None });
}

#[test]
fn relays_ten_bytes_exactly() {
    let source = payload(10);
    let (delivered, writes, shut_down, outcome) = pump(RelayPolicy::tunnel_client(), &source);
    assert_eq!(delivered, source);
    assert_eq!(writes, 1);
    assert!(!shut_down);
    assert_eq!(outcome, Ok(()));
}

#[test]
fn relays_one_full_buffer_exactly() {
    let source = payload(4096);
    let (delivered, writes, _, outcome) = pump(RelayPolicy::broker(), &source);
    assert_eq!(delivered, source);
    assert_eq!(writes, 1);
    assert_eq!(outcome, Ok(()));
}

#[test]
fn relays_more_than_one_buffer_exactly() {
    let source = payload(10000);
    let (delivered, writes, shut_down, outcome) = pump(RelayPolicy::broker(), &source);
    assert_eq!(delivered.len(), 10000);
    assert_eq!(delivered, source);
    assert_eq!(writes, 3);
    assert!(shut_down);
    assert_eq!(outcome, Ok(()));
}

#[test]
fn relays_nothing_from_an_empty_source() {
    let (delivered, writes, shut_down, outcome) = pump(RelayPolicy::broker(), &[]);
    assert!(delivered.is_empty());
    assert_eq!(writes, 0);
    assert!(shut_down);
    assert_eq!(outcome, Ok(()));
}

#[test]
fn data_is_written_as_read() {
    let policy = RelayPolicy::broker();
    let (state, action) =
        step::<String>(&policy, RelayState::AwaitingRead, RelayEvent::ReadData(vec![104, 105]));
    assert_eq!(state, RelayState::AwaitingWrite);
    assert_eq!(action, RelayAction::Write(vec![104, 105]));
    let (state, action) = step(&policy, state, RelayEvent::WriteDone);
    assert_eq!(state, RelayState::AwaitingRead);
    assert_eq!(action, RelayAction::Read { capacity: 4096, idle_timeout_secs: None });
}

#[test]
fn empty_chunk_is_not_end_of_stream() {
    let policy = RelayPolicy::tunnel_client();
    let (state, action) =
        step::<String>(&policy, RelayState::AwaitingRead, RelayEvent::ReadData(Vec::new()));
    assert_eq!(state, RelayState::AwaitingRead);
    assert_eq!(action, RelayAction::Read { capacity: 4096, idle_timeout_secs: Some(5) });
}

#[test]
fn end_of_stream_finishes_client_relay_at_once() {
    let policy = RelayPolicy::tunnel_client();
    let (state, action) = step::<String>(&policy, RelayState::AwaitingRead, RelayEvent::ReadEof);
    assert_eq!(state, RelayState::Finished);
    assert_eq!(action, RelayAction::Finish(Ok(())));
}

#[test]
fn end_of_stream_shuts_broker_destination_down_first() {
    let policy = RelayPolicy::broker();
    let (state, action) = step::<String>(&policy, RelayState::AwaitingRead, RelayEvent::ReadEof);
    assert_eq!(state, RelayState::AwaitingShutdown(Ok(())));
    assert_eq!(action, RelayAction::ShutdownDestination);
    let (state, action) = step(&policy, state, RelayEvent::ShutdownDone);
    assert_eq!(state, RelayState::Finished);
    assert_eq!(action, RelayAction::Finish(Ok(())));
}

#[test]
fn idle_read_times_out_on_the_client() {
    let policy = RelayPolicy::tunnel_client();
    let (state, action) =
        step::<String>(&policy, RelayState::AwaitingRead, RelayEvent::ReadTimedOut);
    assert_eq!(state, RelayState::Finished);
    assert_eq!(action, RelayAction::Finish(Err(RelayError::IdleTimeout)));
}

#[test]
fn read_failure_returns_the_underlying_error() {
    let policy = RelayPolicy::tunnel_client();
    let (state, action) = step(
        &policy,
        RelayState::AwaitingRead,
        RelayEvent::ReadFailed(String::from("connection reset")),
    );
    assert_eq!(state, RelayState::Finished);
    assert_eq!(
        action,
        RelayAction::Finish(Err(RelayError::Read(String::from("connection reset"))))
    );
}

#[test]
fn write_failure_returns_the_underlying_error() {
    let policy = RelayPolicy::broker();
    let (state, action) = step(
        &policy,
        RelayState::AwaitingWrite,
        RelayEvent::WriteFailed(String::from("broken pipe")),
    );
    assert_eq!(
        state,
        RelayState::AwaitingShutdown(Err(RelayError::Write(String::from("broken pipe"))))
    );
    assert_eq!(action, RelayAction::ShutdownDestination);
    let (state, action) = step(&policy, state, RelayEvent::ShutdownDone);
    assert_eq!(state, RelayState::Finished);
    assert_eq!(
        action,
        RelayAction::Finish(Err(RelayError::Write(String::from("broken pipe"))))
    );
}

#[test]
fn events_out_of_turn_change_nothing() {
    let policy = RelayPolicy::broker();
    let (state, action) = step::<String>(&policy, RelayState::AwaitingRead, RelayEvent::WriteDone);
    assert_eq!(state, RelayState::AwaitingRead);
    assert_eq!(action, RelayAction::Nothing);
    let (state, action) =
        step::<String>(&policy, RelayState::AwaitingWrite, RelayEvent::ReadData(vec![1]));
    assert_eq!(state, RelayState::AwaitingWrite);
    assert_eq!(action, RelayAction::Nothing);
    let (state, action) = step::<String>(
        &policy,
        RelayState::AwaitingShutdown(Err(RelayError::IdleTimeout)),
        RelayEvent::ReadEof,
    );
    assert_eq!(state, RelayState::AwaitingShutdown(Err(RelayError::IdleTimeout)));
    assert_eq!(action, RelayAction::Nothing);
}

#[test]
fn finished_relay_stays_finished() {
    let policy = RelayPolicy::tunnel_client();
    let (state, action) =
        step::<String>(&policy, RelayState::Finished, RelayEvent::ReadData(vec![1, 2, 3]));
    assert_eq!(state, RelayState::Finished);
    assert_eq!(action, RelayAction::Nothing);
}
