//! Queue and handler plumbing: arrival order, routing, clearing on
//! construction, and the topology classification.

use event_harness::client::{EventClient, Topology};
use event_harness::event::{CommandEvent, CommandStartedEvent, PoolClearedEvent};
use event_harness::handler::EventHandler;
use event_harness::queue::EventQueue;

fn started(name: &str, id: i32) -> CommandStartedEvent {
    CommandStartedEvent {
        command_name: name.to_string(),
        request_id: id,
    }
}

#[test]
fn queue_is_first_in_first_out() {
    let queue: EventQueue<i32> = EventQueue::new();
    assert_eq!(queue.len(), 0);
    queue.push_back(1);
    queue.push_back(2);
    queue.push_back(3);
    assert_eq!(queue.len(), 3);
    assert_eq!(queue.pop_front(), Some(1));
    assert_eq!(queue.pop_front(), Some(2));
    assert_eq!(queue.pop_front(), Some(3));
    assert_eq!(queue.pop_front(), None);
}

#[test]
fn snapshot_copies_without_removal() {
    let queue: EventQueue<i32> = EventQueue::new();
    queue.push_back(10);
    queue.push_back(20);
    let copy = queue.snapshot();
    assert_eq!(copy, vec![10, 20]);
    assert_eq!(queue.len(), 2);
}

#[test]
fn clear_discards_everything() {
    let queue: EventQueue<i32> = EventQueue::new();
    queue.push_back(5);
    queue.push_back(6);
    queue.clear();
    assert_eq!(queue.len(), 0);
    assert_eq!(queue.pop_front(), None);
}

#[test]
fn cloned_queue_shares_the_buffer() {
    let queue: EventQueue<i32> = EventQueue::new();
    let other = queue.clone();
    queue.push_back(42);
    assert_eq!(other.len(), 1);
    assert_eq!(other.pop_front(), Some(42));
    assert_eq!(queue.len(), 0);
}

#[test]
fn handler_routes_events_to_their_queues() {
    let handler = EventHandler::new();
    handler.handle_command_started_event(started("find", 1));
    handler.handle_pool_cleared_event(PoolClearedEvent {});
    assert_eq!(handler.command_events.len(), 1);
    assert_eq!(handler.pool_cleared_events.len(), 1);

    let events = handler.command_events.snapshot();
    assert!(matches!(events[0], CommandEvent::CommandStartedEvent(_)));
}

#[test]
fn construction_discards_setup_events() {
    let handler = EventHandler::new();
    // Events produced by the client's own setup handshake.
    handler.handle_command_started_event(started("hello", 0));
    handler.handle_pool_cleared_event(PoolClearedEvent {});

    let client = EventClient::new(&handler, Topology::ReplicaSet);
    // Command events are cleared; pool-cleared events are not.
    assert_eq!(client.command_events.len(), 0);
    assert_eq!(client.pool_cleared_events.len(), 1);

    // The client and the handler still share the queues.
    handler.handle_command_started_event(started("find", 1));
    assert_eq!(client.command_events.len(), 1);
}

#[test]
fn topology_classification_strings() {
    let handler = EventHandler::new();
    assert_eq!(
        EventClient::new(&handler, Topology::Sharded).topology(),
        "sharded"
    );
    assert_eq!(
        EventClient::new(&handler, Topology::ReplicaSet).topology(),
        "replicaset"
    );
    assert_eq!(
        EventClient::new(&handler, Topology::Single).topology(),
        "single"
    );
}

#[test]
fn accessors_narrow_by_variant() {
    let e = CommandEvent::CommandStartedEvent(started("insert", 9));
    assert!(e.is_command_started());
    assert_eq!(e.command_name(), "insert");
    assert_eq!(e.request_id(), 9);
    assert!(e.as_command_started().is_some());
    assert!(e.as_command_succeeded().is_none());

    let s = CommandEvent::CommandSucceededEvent(event_harness::event::CommandSucceededEvent {
        command_name: "insert".to_string(),
        request_id: 9,
    });
    assert!(!s.is_command_started());
    assert!(s.as_command_started().is_none());
    assert_eq!(s.as_command_succeeded().unwrap().request_id, 9);
}
