use audio_relay::body::{BodyAction, BodySink, BodyPhase};
use audio_relay::error::AudioStreamError;
use audio_relay::relay::{ProducerAction, ProducerEvent, Relay, RelayPhase, StreamChunk, RELAY_CAPACITY, READ_BLOCK_SIZE};

/// Feeds the relay's queue messages straight to the body, as a queue would.
fn pass_to_body(sink: &mut BodySink, action: ProducerAction, body: &mut Vec<u8>) -> Option<BodyAction> {
    match action {
        ProducerAction::Send(chunk) => {
            let a = sink.on_message(Some(chunk));
            if let BodyAction::Write(b) = &a {
                body.extend_from_slice(b);
            }
            Some(a)
        }
        _ => None,
    }
}

#[test]
fn constants_match_the_reference_behaviour() {
    assert_eq!(RELAY_CAPACITY, 32);
    assert_eq!(READ_BLOCK_SIZE, 8192);
}

#[test]
fn bytes_arrive_whole_and_in_order() {
    let reads: Vec<Vec<u8>> = vec![vec![1, 2, 3], vec![4], vec![5, 6, 7, 8, 9]];
    let mut relay = Relay::new();
    let mut sink = BodySink::new();
    let mut body = Vec::new();
    assert!(matches!(relay.on_event(ProducerEvent::Spawned), ProducerAction::Read));
    for r in reads {
        let a = relay.on_event(ProducerEvent::ReadDone(r));
        assert!(matches!(pass_to_body(&mut sink, a, &mut body), Some(BodyAction::Write(_))));
        assert_eq!(relay.phase, RelayPhase::Sending);
        assert!(matches!(relay.on_event(ProducerEvent::Delivered), ProducerAction::Read));
    }
    assert!(matches!(relay.on_event(ProducerEvent::ReadDone(vec![])), ProducerAction::AwaitExit));
    assert!(matches!(relay.on_event(ProducerEvent::Exited(true)), ProducerAction::Finish));
    assert_eq!(relay.phase, RelayPhase::Completed);
    assert!(matches!(sink.on_message(None), BodyAction::End));
    assert_eq!(sink.phase, BodyPhase::Ended);
    assert_eq!(body, vec![1, 2, 3, 4, 5, 6, 7, 8, 9]);
}

#[test]
fn spawn_failure_gives_server_error_status() {
    let mut relay = Relay::new();
    let mut sink = BodySink::new();
    let mut body = Vec::new();
    let a = relay.on_event(ProducerEvent::SpawnFailed("not found".to_string()));
    match pass_to_body(&mut sink, a, &mut body) {
        Some(BodyAction::Reject(e)) => {
            assert_eq!(e, AudioStreamError::ProcessError("not found".to_string()));
            assert_eq!(e.status_code(), 500);
        }
        other => panic!("unexpected {:?}", other),
    }
    assert_eq!(sink.phase, BodyPhase::Rejected(500));
    assert!(matches!(relay.on_event(ProducerEvent::Delivered), ProducerAction::Finish));
    assert_eq!(relay.phase, RelayPhase::Failed);
    assert!(body.is_empty());
}

#[test]
fn non_zero_exit_without_output_gives_server_error_status() {
    let mut relay = Relay::new();
    let mut sink = BodySink::new();
    let mut body = Vec::new();
    relay.on_event(ProducerEvent::Spawned);
    relay.on_event(ProducerEvent::ReadDone(vec![]));
    let a = relay.on_event(ProducerEvent::Exited(false));
    match pass_to_body(&mut sink, a, &mut body) {
        Some(BodyAction::Reject(e)) => assert_eq!(e, AudioStreamError::InternalError),
        other => panic!("unexpected {:?}", other),
    }
    assert_eq!(sink.phase, BodyPhase::Rejected(500));
}

#[test]
fn failure_after_output_truncates_the_body() {
    let mut relay = Relay::new();
    let mut sink = BodySink::new();
    let mut body = Vec::new();
    relay.on_event(ProducerEvent::Spawned);
    let a = relay.on_event(ProducerEvent::ReadDone(vec![10, 20]));
    pass_to_body(&mut sink, a, &mut body);
    relay.on_event(ProducerEvent::Delivered);
    let a = relay.on_event(ProducerEvent::ReadFailed("broken pipe".to_string()));
    assert_eq!(relay.phase, RelayPhase::Closing);
    assert!(matches!(pass_to_body(&mut sink, a, &mut body), Some(BodyAction::Abort)));
    assert_eq!(sink.phase, BodyPhase::Aborted);
    assert_eq!(body, vec![10, 20]);
    assert!(matches!(sink.on_message(None), BodyAction::Ignore));
}

#[test]
fn departed_consumer_abandons_the_relay() {
    let mut relay = Relay::new();
    relay.on_event(ProducerEvent::Spawned);
    relay.on_event(ProducerEvent::ReadDone(vec![1]));
    assert!(matches!(relay.on_event(ProducerEvent::ConsumerGone), ProducerAction::Finish));
    assert_eq!(relay.phase, RelayPhase::Abandoned);
}

#[test]
fn pending_chunk_holds_back_the_next_read() {
    let mut relay = Relay::new();
    relay.on_event(ProducerEvent::Spawned);
    match relay.on_event(ProducerEvent::ReadDone(vec![7; 100])) {
        ProducerAction::Send(StreamChunk::Data(b)) => assert_eq!(b, vec![7; 100]),
        other => panic!("unexpected {:?}", other),
    }
    assert_eq!(relay.phase, RelayPhase::Sending);
    assert!(matches!(relay.on_event(ProducerEvent::Delivered), ProducerAction::Read));
    assert_eq!(relay.phase, RelayPhase::Reading);
}

#[test]
fn unexpected_event_stops_the_relay() {
    let mut relay = Relay::new();
    relay.on_event(ProducerEvent::Spawned);
    relay.on_event(ProducerEvent::ReadDone(vec![7; 10]));
    assert!(matches!(relay.on_event(ProducerEvent::ReadDone(vec![8])), ProducerAction::Finish));
    assert_eq!(relay.phase, RelayPhase::Abandoned);
    assert!(matches!(relay.on_event(ProducerEvent::Delivered), ProducerAction::Finish));
    assert_eq!(relay.phase, RelayPhase::Abandoned);
}

#[test]
fn full_block_reads_are_relayed() {
    let mut relay = Relay::new();
    relay.on_event(ProducerEvent::Spawned);
    match relay.on_event(ProducerEvent::ReadDone(vec![1; READ_BLOCK_SIZE])) {
        ProducerAction::Send(StreamChunk::Data(b)) => assert_eq!(b.len(), READ_BLOCK_SIZE),
        other => panic!("unexpected {:?}", other),
    }
}

#[test]
fn empty_output_with_success_is_an_empty_body() {
    let mut relay = Relay::new();
    let mut sink = BodySink::new();
    relay.on_event(ProducerEvent::Spawned);
    relay.on_event(ProducerEvent::ReadDone(vec![]));
    relay.on_event(ProducerEvent::Exited(true));
    assert_eq!(relay.phase, RelayPhase::Completed);
    assert!(matches!(sink.on_message(None), BodyAction::End));
}
