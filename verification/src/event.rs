//! The event model: one tagged union per observed occurrence, carrying the
//! correlation key (`request_id`) and the command name that the correlation
//! and filtering queries read.

use vstd::prelude::*;

verus! {

/// A notification that a command began executing.
#[derive(Debug)]
pub struct CommandStartedEvent {
    /// Name of the command that started.
    pub command_name: String,
    /// Correlation key, unique per in-flight invocation.
    pub request_id: i32,
}

/// A notification that a command finished successfully.
#[derive(Debug)]
pub struct CommandSucceededEvent {
    /// Name of the command that succeeded.
    pub command_name: String,
    /// Correlation key shared with the matching started event.
    pub request_id: i32,
}

/// A notification that a command finished with an error.
#[derive(Debug)]
pub struct CommandFailedEvent {
    /// Name of the command that failed.
    pub command_name: String,
    /// Correlation key shared with the matching started event.
    pub request_id: i32,
}

/// A notification that a connection pool was invalidated and its connections
/// discarded.
#[derive(Debug)]
pub struct PoolClearedEvent {}

impl Clone for CommandStartedEvent {
    fn clone(&self) -> (res: Self)
        ensures
            res == *self,
    {
        CommandStartedEvent { command_name: self.command_name.clone(), request_id: self.request_id }
    }
}

impl Clone for CommandSucceededEvent {
    fn clone(&self) -> (res: Self)
        ensures
            res == *self,
    {
        CommandSucceededEvent {
            command_name: self.command_name.clone(),
            request_id: self.request_id,
        }
    }
}

impl Clone for CommandFailedEvent {
    fn clone(&self) -> (res: Self)
        ensures
            res == *self,
    {
        CommandFailedEvent { command_name: self.command_name.clone(), request_id: self.request_id }
    }
}

impl Clone for PoolClearedEvent {
    fn clone(&self) -> (res: Self)
        ensures
            res == *self,
    {
        PoolClearedEvent {}
    }
}

/// One observed command occurrence: exactly one of started, succeeded or
/// failed.
#[derive(Debug)]
pub enum CommandEvent {
    /// A command began executing.
    CommandStartedEvent(CommandStartedEvent),
    /// A command finished successfully.
    CommandSucceededEvent(CommandSucceededEvent),
    /// A command finished with an error.
    CommandFailedEvent(CommandFailedEvent),
}

impl Clone for CommandEvent {
    fn clone(&self) -> (res: Self)
        ensures
            res == *self,
    {
        match self {
            CommandEvent::CommandStartedEvent(e) => CommandEvent::CommandStartedEvent(e.clone()),
            CommandEvent::CommandSucceededEvent(e) => CommandEvent::CommandSucceededEvent(
                e.clone(),
            ),
            CommandEvent::CommandFailedEvent(e) => CommandEvent::CommandFailedEvent(e.clone()),
        }
    }
}

impl CommandEvent {
    /// The command name carried by the event, as a sequence of characters.
    pub open spec fn spec_command_name(self) -> Seq<char> {
        match self {
            CommandEvent::CommandStartedEvent(e) => e.command_name@,
            CommandEvent::CommandSucceededEvent(e) => e.command_name@,
            CommandEvent::CommandFailedEvent(e) => e.command_name@,
        }
    }

    /// The correlation key carried by the event.
    pub open spec fn spec_request_id(self) -> i32 {
        match self {
            CommandEvent::CommandStartedEvent(e) => e.request_id,
            CommandEvent::CommandSucceededEvent(e) => e.request_id,
            CommandEvent::CommandFailedEvent(e) => e.request_id,
        }
    }

    /// Whether the event is a started notification.
    pub open spec fn spec_is_started(self) -> bool {
        self matches CommandEvent::CommandStartedEvent(_)
    }

    /// Whether the event is a succeeded notification.
    pub open spec fn spec_is_succeeded(self) -> bool {
        self matches CommandEvent::CommandSucceededEvent(_)
    }

    /// Whether the event is a failed notification.
    pub open spec fn spec_is_failed(self) -> bool {
        self matches CommandEvent::CommandFailedEvent(_)
    }

    /// The symbolic name of the event's kind, as used in observe sets.
    pub open spec fn spec_kind_name(self) -> Seq<char> {
        match self {
            CommandEvent::CommandStartedEvent(_) => "commandStartedEvent"@,
            CommandEvent::CommandSucceededEvent(_) => "commandSucceededEvent"@,
            CommandEvent::CommandFailedEvent(_) => "commandFailedEvent"@,
        }
    }

    /// The name of the command this event belongs to.
    pub fn command_name(&self) -> (r: &str)
        ensures
            r@ == self.spec_command_name(),
    {
        match self {
            CommandEvent::CommandStartedEvent(e) => e.command_name.as_str(),
            CommandEvent::CommandFailedEvent(e) => e.command_name.as_str(),
            CommandEvent::CommandSucceededEvent(e) => e.command_name.as_str(),
        }
    }

    /// Whether the event is a started notification.
    pub fn is_command_started(&self) -> (r: bool)
        ensures
            r == self.spec_is_started(),
    {
        matches!(self, CommandEvent::CommandStartedEvent(_))
    }

    /// The correlation key linking a started notification to its terminal
    /// notification.
    pub fn request_id(&self) -> (r: i32)
        ensures
            r == self.spec_request_id(),
    {
        match self {
            CommandEvent::CommandStartedEvent(e) => e.request_id,
            CommandEvent::CommandFailedEvent(e) => e.request_id,
            CommandEvent::CommandSucceededEvent(e) => e.request_id,
        }
    }

    /// Narrows to the started payload; empty when the event is of another
    /// kind.
    pub fn as_command_started(&self) -> (r: Option<&CommandStartedEvent>)
        ensures
            r is Some <==> self.spec_is_started(),
            r matches Some(e) ==> *self == CommandEvent::CommandStartedEvent(*e),
    {
        match self {
            CommandEvent::CommandStartedEvent(e) => Some(e),
            _ => None,
        }
    }

    /// Narrows to the succeeded payload; empty when the event is of another
    /// kind.
    pub fn as_command_succeeded(&self) -> (r: Option<&CommandSucceededEvent>)
        ensures
            r is Some <==> self.spec_is_succeeded(),
            r matches Some(e) ==> *self == CommandEvent::CommandSucceededEvent(*e),
    {
        match self {
            CommandEvent::CommandSucceededEvent(e) => Some(e),
            _ => None,
        }
    }

    /// Whether the event's command name equals `name`.
    pub fn has_command_name(&self, name: &String) -> (r: bool)
        ensures
            r == (self.spec_command_name() == name@),
    {
        match self {
            CommandEvent::CommandStartedEvent(e) => e.command_name == *name,
            CommandEvent::CommandFailedEvent(e) => e.command_name == *name,
            CommandEvent::CommandSucceededEvent(e) => e.command_name == *name,
        }
    }

    /// The symbolic name of the event's kind, as used in observe sets.
    pub fn kind_name(&self) -> (r: String)
        ensures
            r@ == self.spec_kind_name(),
    {
        match self {
            CommandEvent::CommandStartedEvent(_) => "commandStartedEvent".to_owned(),
            CommandEvent::CommandSucceededEvent(_) => "commandSucceededEvent".to_owned(),
            CommandEvent::CommandFailedEvent(_) => "commandFailedEvent".to_owned(),
        }
    }
}

} // verus!
