//! The query side of the harness: a client view that shares the handler's
//! queues and exposes the correlation and filtering operations that test
//! assertions consume.

use vstd::prelude::*;

verus! {

use crate::correlate::{correlate_successful_execution, lemma_scan_pair_matches, CorrelationError};
use crate::event::{CommandEvent, CommandStartedEvent, CommandSucceededEvent, PoolClearedEvent};
use crate::filter::{
    command_started_events_in,
    filtered_events_in,
    filtered_events_spec,
    keeps_event,
    lemma_filtered_events_sound,
    lemma_started_events_sound,
    names_view,
    started_events_spec,
};
use crate::handler::EventHandler;
use crate::queue::EventQueue;

/// The shape of the deployment behind the attached client instance, as the
/// client sees it.
#[derive(Clone, Copy, Debug, PartialEq, Eq, Structural)]
pub enum Topology {
    /// A sharded cluster with one or more routing endpoints.
    Sharded,
    /// A replica set.
    ReplicaSet,
    /// A single node.
    Single,
}

/// The literal classification of a topology.
pub open spec fn topology_name(t: Topology) -> Seq<char> {
    match t {
        Topology::Sharded => "sharded"@,
        Topology::ReplicaSet => "replicaset"@,
        Topology::Single => "single"@,
    }
}

/// A client view over the handler's queues: it shares them (reference-counted,
/// non-owning) and may be queried independently of the handler; the queues go
/// away only when both sides are gone.
pub struct EventClient {
    /// The deployment shape of the attached client instance.
    pub deployment: Topology,
    /// The command-event queue, shared with the handler.
    pub command_events: EventQueue<CommandEvent>,
    /// The pool-cleared-event queue, shared with the handler.
    pub pool_cleared_events: EventQueue<PoolClearedEvent>,
}

impl EventClient {
    /// Attaches a client view to the handler's queues, discarding the command
    /// events the client's own setup handshake produced, so observers only see
    /// events caused by what runs afterwards.
    pub fn new(handler: &EventHandler, deployment: Topology) -> (c: Self)
        ensures
            c.deployment == deployment,
            c.command_events == handler.command_events,
            c.pool_cleared_events == handler.pool_cleared_events,
    {
        let command_events = handler.command_events.clone();
        let pool_cleared_events = handler.pool_cleared_events.clone();
        command_events.clear();
        EventClient { deployment, command_events, pool_cleared_events }
    }

    /// Gets the first started/succeeded pair of events for the given command
    /// name, popping off all events before and between them — the popped events
    /// are permanently removed, matching or not. The result and the state the
    /// queue is left in are those of [`correlate_successful_execution`] on the
    /// contents held under the exclusive lock; whatever those contents were, a
    /// returned pair is a started and a succeeded event that both carry the
    /// requested name and share one correlation key.
    pub fn get_successful_command_execution(&self, command_name: &str) -> (r: Result<
        (CommandStartedEvent, CommandSucceededEvent),
        CorrelationError,
    >)
        ensures
            r matches Ok(p) ==> p.0.command_name@ == command_name@ && p.1.command_name@
                == command_name@ && p.0.request_id == p.1.request_id,
    {
        let (mut events, handle) = self.command_events.inner.acquire_write();
        proof {
            lemma_scan_pair_matches(events@, command_name@);
        }
        let r = correlate_successful_execution(&mut events, command_name);
        handle.release_write(events);
        r
    }

    /// The classification of the deployment the client is attached to.
    pub fn topology(&self) -> (r: String)
        ensures
            r@ == topology_name(self.deployment),
    {
        match self.deployment {
            Topology::Sharded => "sharded".to_owned(),
            Topology::ReplicaSet => "replicaset".to_owned(),
            Topology::Single => "single".to_owned(),
        }
    }

    /// All started events for the given command name, in original order, as
    /// independent copies; nothing is removed. The result is that of
    /// [`command_started_events_in`] on the contents held under the shared
    /// lock; whatever those contents were, every returned event carries the
    /// queried name.
    pub fn get_command_started_events(&self, command_name: &str) -> (r: Vec<CommandStartedEvent>)
        ensures
            forall|i: int|
                0 <= i < r@.len() ==> (#[trigger] r@[i]).command_name@ == command_name@,
    {
        let read_handle = self.command_events.inner.acquire_read();
        let events = read_handle.borrow();
        let r = command_started_events_in(events, command_name);
        proof {
            lemma_started_events_sound(events@, command_name@);
            assert forall|i: int| 0 <= i < r@.len() implies (#[trigger] r@[i]).command_name@
                == command_name@ by {
                assert(r@[i] == started_events_spec(events@, command_name@)[i]);
            }
        }
        read_handle.release_read();
        r
    }

    /// All events of the requested kinds, skipping events whose command name is
    /// in the ignore list and, always, events of the reserved diagnostic
    /// command; nothing is removed. The result is that of
    /// [`filtered_events_in`] on the contents held under the shared lock;
    /// whatever those contents were, every returned event passes the filter.
    pub fn get_filtered_events(
        &self,
        observe_events: &Option<Vec<String>>,
        ignore_command_names: &Option<Vec<String>>,
    ) -> (r: Vec<CommandEvent>)
        ensures
            forall|i: int|
                0 <= i < r@.len() ==> keeps_event(
                    #[trigger] r@[i],
                    names_view(*observe_events),
                    names_view(*ignore_command_names),
                ),
    {
        let read_handle = self.command_events.inner.acquire_read();
        let events = read_handle.borrow();
        let r = filtered_events_in(events, observe_events, ignore_command_names);
        proof {
            let observe = names_view(*observe_events);
            let ignore = names_view(*ignore_command_names);
            lemma_filtered_events_sound(events@, observe, ignore);
            assert forall|i: int| 0 <= i < r@.len() implies keeps_event(
                #[trigger] r@[i],
                observe,
                ignore,
            ) by {
                assert(r@[i] == filtered_events_spec(events@, observe, ignore)[i]);
            }
        }
        read_handle.release_read();
        r
    }
}

} // verus!
