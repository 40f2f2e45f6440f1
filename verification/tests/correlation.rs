//! Correlation-engine behaviour: destructive scans, ordering over sequential
//! calls, and the failure modes.

use event_harness::client::{EventClient, Topology};
use event_harness::correlate::CorrelationError;
use event_harness::event::{CommandEvent, CommandStartedEvent, CommandSucceededEvent};
use event_harness::handler::EventHandler;

fn started(name: &str, id: i32) -> CommandStartedEvent {
    CommandStartedEvent {
        command_name: name.to_string(),
        request_id: id,
    }
}

fn succeeded(name: &str, id: i32) -> CommandSucceededEvent {
    CommandSucceededEvent {
        command_name: name.to_string(),
        request_id: id,
    }
}

fn client_over(handler: &EventHandler) -> EventClient {
    EventClient::new(handler, Topology::Single)
}

#[test]
fn interleaved_invocation_is_skipped() {
    let handler = EventHandler::new();
    let client = client_over(&handler);
    handler.handle_command_started_event(started("insert", 1));
    handler.handle_command_started_event(started("insert", 2));
    handler.handle_command_succeeded_event(succeeded("insert", 1));

    let (st, suc) = client.get_successful_command_execution("insert").unwrap();
    assert_eq!(st.request_id, 1);
    assert_eq!(st.command_name, "insert");
    assert_eq!(suc.request_id, 1);
    assert_eq!(suc.command_name, "insert");

    // The interleaved invocation's started event was popped while the
    // correlation was pending, so it is gone with everything else the scan
    // consumed.
    assert_eq!(client.command_events.len(), 0);
}

#[test]
fn events_after_the_matched_pair_are_kept() {
    let handler = EventHandler::new();
    let client = client_over(&handler);
    handler.handle_command_started_event(started("insert", 1));
    handler.handle_command_succeeded_event(succeeded("insert", 1));
    handler.handle_command_started_event(started("insert", 2));

    let (st, suc) = client.get_successful_command_execution("insert").unwrap();
    assert_eq!(st.request_id, 1);
    assert_eq!(suc.request_id, 1);

    let left = client.command_events.snapshot();
    assert_eq!(left.len(), 1);
    assert!(left[0].is_command_started());
    assert_eq!(left[0].request_id(), 2);
    assert_eq!(left[0].command_name(), "insert");
}

#[test]
fn unmatched_started_fails_once_queue_empties() {
    let handler = EventHandler::new();
    let client = client_over(&handler);
    handler.handle_command_started_event(started("insert", 1));

    let err = client.get_successful_command_execution("insert").unwrap_err();
    assert!(matches!(err, CorrelationError::CorrelationNotFound));
    assert_eq!(client.command_events.len(), 0);
}

#[test]
fn empty_queue_fails() {
    let handler = EventHandler::new();
    let client = client_over(&handler);
    let err = client.get_successful_command_execution("find").unwrap_err();
    assert!(matches!(err, CorrelationError::CorrelationNotFound));
}

#[test]
fn first_matching_event_must_be_started() {
    let handler = EventHandler::new();
    let client = client_over(&handler);
    handler.handle_command_succeeded_event(succeeded("insert", 7));

    let err = client.get_successful_command_execution("insert").unwrap_err();
    match err {
        CorrelationError::UnexpectedEventVariant(e) => {
            assert!(matches!(e, CommandEvent::CommandSucceededEvent(_)));
            assert_eq!(e.request_id(), 7);
        }
        other => panic!("expected an unexpected-variant failure, got {:?}", other),
    }
}

#[test]
fn matching_key_event_must_be_succeeded() {
    let handler = EventHandler::new();
    let client = client_over(&handler);
    handler.handle_command_started_event(started("insert", 3));
    handler.handle_command_failed_event(event_harness::event::CommandFailedEvent {
        command_name: "insert".to_string(),
        request_id: 3,
    });

    let err = client.get_successful_command_execution("insert").unwrap_err();
    match err {
        CorrelationError::UnexpectedEventVariant(e) => {
            assert!(matches!(e, CommandEvent::CommandFailedEvent(_)));
        }
        other => panic!("expected an unexpected-variant failure, got {:?}", other),
    }
}

#[test]
fn sequential_calls_return_pairs_in_stream_order() {
    let handler = EventHandler::new();
    let client = client_over(&handler);
    for id in 1i32..=3i32 {
        handler.handle_command_started_event(started("find", id));
        handler.handle_command_succeeded_event(succeeded("find", id));
    }
    assert_eq!(client.command_events.len(), 6);

    for id in 1i32..=3i32 {
        let before = client.command_events.len();
        let (st, suc) = client.get_successful_command_execution("find").unwrap();
        assert_eq!(st.request_id, id);
        assert_eq!(suc.request_id, id);
        let after = client.command_events.len();
        assert_eq!(before - after, 2);
    }
    assert_eq!(client.command_events.len(), 0);
}

#[test]
fn events_of_other_commands_are_discarded_by_the_scan() {
    let handler = EventHandler::new();
    let client = client_over(&handler);
    handler.handle_command_started_event(started("ping", 10));
    handler.handle_command_started_event(started("insert", 11));
    handler.handle_command_succeeded_event(succeeded("ping", 10));
    handler.handle_command_succeeded_event(succeeded("insert", 11));

    let (st, suc) = client.get_successful_command_execution("insert").unwrap();
    assert_eq!(st.request_id, 11);
    assert_eq!(suc.request_id, 11);
    // The interleaved ping events were popped and discarded along the way.
    assert_eq!(client.command_events.len(), 0);
}
