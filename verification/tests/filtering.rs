//! Non-destructive queries: idempotence, observability of appended events, the
//! reserved diagnostic command, and the started-event count.

use event_harness::client::{EventClient, Topology};
use event_harness::event::{
    CommandEvent, CommandFailedEvent, CommandStartedEvent, CommandSucceededEvent,
};
use event_harness::handler::EventHandler;

fn started(name: &str, id: i32) -> CommandStartedEvent {
    CommandStartedEvent {
        command_name: name.to_string(),
        request_id: id,
    }
}

fn succeeded(name: &str, id: i32) -> CommandSucceededEvent {
    CommandSucceededEvent {
        command_name: name.to_string(),
        request_id: id,
    }
}

fn failed(name: &str, id: i32) -> CommandFailedEvent {
    CommandFailedEvent {
        command_name: name.to_string(),
        request_id: id,
    }
}

fn client_over(handler: &EventHandler) -> EventClient {
    EventClient::new(handler, Topology::Single)
}

fn names(entries: &[&str]) -> Option<Vec<String>> {
    Some(entries.iter().map(|s| s.to_string()).collect())
}

#[test]
fn command_started_event_count() {
    let handler = EventHandler::new();
    let client = client_over(&handler);

    for i in 0i32..10i32 {
        handler.handle_command_started_event(started("insert", i));
        handler.handle_command_succeeded_event(succeeded("insert", i));
    }

    let started_events = client.get_command_started_events("insert");
    assert_eq!(started_events.len(), 10);
    for (i, e) in started_events.iter().enumerate() {
        assert_eq!(e.command_name, "insert");
        assert_eq!(e.request_id, i as i32);
    }
}

#[test]
fn started_query_is_idempotent() {
    let handler = EventHandler::new();
    let client = client_over(&handler);
    handler.handle_command_started_event(started("find", 1));
    handler.handle_command_started_event(started("insert", 2));
    handler.handle_command_succeeded_event(succeeded("find", 1));

    let first = client.get_command_started_events("find");
    let second = client.get_command_started_events("find");
    assert_eq!(first.len(), second.len());
    for (a, b) in first.iter().zip(second.iter()) {
        assert_eq!(a.command_name, b.command_name);
        assert_eq!(a.request_id, b.request_id);
    }
    // The traversal removed nothing.
    assert_eq!(client.command_events.len(), 3);
}

#[test]
fn appended_event_is_observable() {
    let handler = EventHandler::new();
    let client = client_over(&handler);
    handler.handle_command_started_event(started("find", 4));

    let all = client.get_filtered_events(&None, &None);
    assert_eq!(all.len(), 1);
    assert_eq!(all[0].command_name(), "find");
    assert_eq!(all[0].request_id(), 4);
}

#[test]
fn observe_set_keeps_only_named_kinds() {
    let handler = EventHandler::new();
    let client = client_over(&handler);
    handler.handle_command_started_event(started("find", 1));
    handler.handle_command_succeeded_event(succeeded("find", 1));
    handler.handle_command_failed_event(failed("find", 2));

    let only_started = client.get_filtered_events(&names(&["commandStartedEvent"]), &None);
    assert_eq!(only_started.len(), 1);
    assert!(only_started[0].is_command_started());

    let terminal = client.get_filtered_events(
        &names(&["commandSucceededEvent", "commandFailedEvent"]),
        &None,
    );
    assert_eq!(terminal.len(), 2);
    assert!(matches!(terminal[0], CommandEvent::CommandSucceededEvent(_)));
    assert!(matches!(terminal[1], CommandEvent::CommandFailedEvent(_)));
}

#[test]
fn ignore_list_drops_named_commands() {
    let handler = EventHandler::new();
    let client = client_over(&handler);
    handler.handle_command_started_event(started("find", 1));
    handler.handle_command_started_event(started("insert", 2));

    let kept = client.get_filtered_events(&None, &names(&["find"]));
    assert_eq!(kept.len(), 1);
    assert_eq!(kept[0].command_name(), "insert");
}

#[test]
fn reserved_command_never_appears() {
    let handler = EventHandler::new();
    let client = client_over(&handler);
    handler.handle_command_started_event(started("configureFailPoint", 1));
    handler.handle_command_succeeded_event(succeeded("configureFailPoint", 1));
    handler.handle_command_started_event(started("find", 2));

    // No filter arguments at all.
    let all = client.get_filtered_events(&None, &None);
    assert_eq!(all.len(), 1);
    assert_eq!(all[0].command_name(), "find");

    // An observe set that names the reserved command's kinds.
    let observed = client.get_filtered_events(
        &names(&["commandStartedEvent", "commandSucceededEvent"]),
        &None,
    );
    assert!(observed
        .iter()
        .all(|e| e.command_name() != "configureFailPoint"));

    // An ignore list that does not mention it.
    let ignored = client.get_filtered_events(&None, &names(&["insert"]));
    assert!(ignored
        .iter()
        .all(|e| e.command_name() != "configureFailPoint"));
}

#[test]
fn filtered_events_keep_original_order() {
    let handler = EventHandler::new();
    let client = client_over(&handler);
    handler.handle_command_started_event(started("find", 1));
    handler.handle_command_started_event(started("insert", 2));
    handler.handle_command_succeeded_event(succeeded("find", 1));

    let all = client.get_filtered_events(&None, &None);
    assert_eq!(all.len(), 3);
    assert_eq!(all[0].request_id(), 1);
    assert!(all[0].is_command_started());
    assert_eq!(all[1].request_id(), 2);
    assert_eq!(all[2].request_id(), 1);
    assert!(matches!(all[2], CommandEvent::CommandSucceededEvent(_)));
}
