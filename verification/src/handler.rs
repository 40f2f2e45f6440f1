//! The subscription sink attached to one client instance: each emitted event
//! is appended, under exclusive access, to the queue of its kind.

use vstd::prelude::*;

verus! {

use crate::event::{
    CommandEvent,
    CommandFailedEvent,
    CommandStartedEvent,
    CommandSucceededEvent,
    PoolClearedEvent,
};
use crate::queue::EventQueue;

/// Receives the events a client emits, in whatever order and from whatever
/// execution context they arrive, and appends each to the matching queue. The
/// queues are shared by reference with any number of readers and are never
/// cleared except explicitly by their owner.
pub struct EventHandler {
    /// Command lifecycle events, in arrival order.
    pub command_events: EventQueue<CommandEvent>,
    /// Pool-cleared events, in arrival order.
    pub pool_cleared_events: EventQueue<PoolClearedEvent>,
}

impl EventHandler {
    /// A handler over two fresh, empty queues.
    pub fn new() -> Self {
        EventHandler { command_events: EventQueue::new(), pool_cleared_events: EventQueue::new() }
    }

    /// Appends a started notification to the command-event queue.
    pub fn handle_command_started_event(&self, event: CommandStartedEvent) {
        self.command_events.push_back(CommandEvent::CommandStartedEvent(event));
    }

    /// Appends a succeeded notification to the command-event queue.
    pub fn handle_command_succeeded_event(&self, event: CommandSucceededEvent) {
        self.command_events.push_back(CommandEvent::CommandSucceededEvent(event));
    }

    /// Appends a failed notification to the command-event queue.
    pub fn handle_command_failed_event(&self, event: CommandFailedEvent) {
        self.command_events.push_back(CommandEvent::CommandFailedEvent(event));
    }

    /// Appends a pool-cleared notification to its own queue.
    pub fn handle_pool_cleared_event(&self, event: PoolClearedEvent) {
        self.pool_cleared_events.push_back(event);
    }
}

impl Default for EventHandler {
    fn default() -> Self {
        EventHandler::new()
    }
}

} // verus!
