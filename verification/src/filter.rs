//! The non-destructive queries: full traversals of the queue that return
//! matching events as independent copies, in original order, removing nothing.

use std::collections::VecDeque;
use vstd::prelude::*;

verus! {

use crate::event::{CommandEvent, CommandStartedEvent};

/// The reserved internal diagnostic command, whose events are unconditionally
/// excluded from filtered result sets.
pub open spec fn reserved_command_name() -> Seq<char> {
    "configureFailPoint"@
}

/// The started events carrying `name`, in queue order.
pub open spec fn started_events_spec(s: Seq<CommandEvent>, name: Seq<char>) -> Seq<
    CommandStartedEvent,
>
    decreases s.len(),
{
    if s.len() == 0 {
        Seq::empty()
    } else {
        let prefix = started_events_spec(s.drop_last(), name);
        match s.last() {
            CommandEvent::CommandStartedEvent(e) => if e.command_name@ == name {
                prefix.push(e)
            } else {
                prefix
            },
            _ => prefix,
        }
    }
}

/// Whether an event survives filtering: events of the reserved diagnostic
/// command never do; when an observe set is given, the event's kind must be
/// named in it; when an ignore list is given, the event's command name must
/// not appear in it.
pub open spec fn keeps_event(
    e: CommandEvent,
    observe: Option<Seq<Seq<char>>>,
    ignore: Option<Seq<Seq<char>>>,
) -> bool {
    &&& e.spec_command_name() != reserved_command_name()
    &&& (observe matches Some(kinds) ==> kinds.contains(e.spec_kind_name()))
    &&& (ignore matches Some(names) ==> !names.contains(e.spec_command_name()))
}

/// The events that survive filtering, in queue order.
pub open spec fn filtered_events_spec(
    s: Seq<CommandEvent>,
    observe: Option<Seq<Seq<char>>>,
    ignore: Option<Seq<Seq<char>>>,
) -> Seq<CommandEvent>
    decreases s.len(),
{
    if s.len() == 0 {
        Seq::empty()
    } else {
        let prefix = filtered_events_spec(s.drop_last(), observe, ignore);
        if keeps_event(s.last(), observe, ignore) {
            prefix.push(s.last())
        } else {
            prefix
        }
    }
}

/// The names a filter argument stands for: the view of each entry, when a list
/// is given at all.
pub open spec fn names_view(o: Option<Vec<String>>) -> Option<Seq<Seq<char>>> {
    match o {
        Some(v) => Some(v.deep_view()),
        None => None,
    }
}

/// Law: non-destructive queries are idempotent. The queries traverse the queue
/// through a shared reference and remove nothing, so two consecutive calls
/// with no intervening emissions inspect the same queue contents — and equal
/// contents give identical results.
pub proof fn lemma_nondestructive_query_idempotent(
    first: Seq<CommandEvent>,
    second: Seq<CommandEvent>,
    name: Seq<char>,
    observe: Option<Seq<Seq<char>>>,
    ignore: Option<Seq<Seq<char>>>,
)
    requires
        second == first,
    ensures
        started_events_spec(second, name) == started_events_spec(first, name),
        filtered_events_spec(second, observe, ignore) == filtered_events_spec(
            first,
            observe,
            ignore,
        ),
{
}

/// Law: an event appended at the tail of the queue is observable through the
/// filtered query — it becomes the last element of the result — unless the
/// reserved-command rule, the observe set or the ignore list excludes it, in
/// which case the result is exactly what it was without the event.
pub proof fn lemma_appended_event_observable(
    s: Seq<CommandEvent>,
    e: CommandEvent,
    observe: Option<Seq<Seq<char>>>,
    ignore: Option<Seq<Seq<char>>>,
)
    ensures
        keeps_event(e, observe, ignore) ==> filtered_events_spec(s.push(e), observe, ignore)
            == filtered_events_spec(s, observe, ignore).push(e),
        !keeps_event(e, observe, ignore) ==> filtered_events_spec(s.push(e), observe, ignore)
            == filtered_events_spec(s, observe, ignore),
{
    assert(s.push(e).drop_last() =~= s);
    assert(s.push(e).last() == e);
}

/// Law: the started-event query is sound. Every event it returns is a started
/// event carrying the queried command name.
pub proof fn lemma_started_events_sound(s: Seq<CommandEvent>, name: Seq<char>)
    ensures
        forall|i: int|
            0 <= i < started_events_spec(s, name).len() ==> (#[trigger] started_events_spec(
                s,
                name,
            )[i]).command_name@ == name,
    decreases s.len(),
{
    if s.len() == 0 {
    } else {
        lemma_started_events_sound(s.drop_last(), name);
        let prefix = started_events_spec(s.drop_last(), name);
        let whole = started_events_spec(s, name);
        assert forall|i: int| 0 <= i < whole.len() implies (#[trigger] whole[i]).command_name@
            == name by {
            if i < prefix.len() {
                assert(whole[i] == prefix[i]);
            } else {
                assert(whole[i] == s.last()->CommandStartedEvent_0);
            }
        }
    }
}

/// Law: filtering is sound. Every event in a filtered result set was in the
/// queue and passes the filter — the reserved-command rule, the observe set
/// and the ignore list.
pub proof fn lemma_filtered_events_sound(
    s: Seq<CommandEvent>,
    observe: Option<Seq<Seq<char>>>,
    ignore: Option<Seq<Seq<char>>>,
)
    ensures
        forall|i: int|
            0 <= i < filtered_events_spec(s, observe, ignore).len() ==> keeps_event(
                #[trigger] filtered_events_spec(s, observe, ignore)[i],
                observe,
                ignore,
            ) && s.contains(filtered_events_spec(s, observe, ignore)[i]),
    decreases s.len(),
{
    if s.len() == 0 {
    } else {
        lemma_filtered_events_sound(s.drop_last(), observe, ignore);
        let prefix = filtered_events_spec(s.drop_last(), observe, ignore);
        let whole = filtered_events_spec(s, observe, ignore);
        assert forall|i: int| 0 <= i < whole.len() implies keeps_event(
            #[trigger] whole[i],
            observe,
            ignore,
        ) && s.contains(whole[i]) by {
            if i < prefix.len() {
                assert(whole[i] == prefix[i]);
                let j = choose|j: int|
                    0 <= j < s.drop_last().len() && s.drop_last()[j] == prefix[i];
                assert(s[j] == prefix[i]);
            } else {
                assert(whole[i] == s.last());
                assert(s[s.len() - 1] == s.last());
            }
        }
    }
}

/// Law: the reserved diagnostic command's events never appear in a filtered
/// result set, whatever the observe set and the ignore list are.
pub proof fn lemma_reserved_command_never_observed(
    s: Seq<CommandEvent>,
    observe: Option<Seq<Seq<char>>>,
    ignore: Option<Seq<Seq<char>>>,
)
    ensures
        forall|i: int|
            0 <= i < filtered_events_spec(s, observe, ignore).len()
                ==> (#[trigger] filtered_events_spec(s, observe, ignore)[i]).spec_command_name()
                != reserved_command_name(),
{
    lemma_filtered_events_sound(s, observe, ignore);
}

/// Law: appending a started event carrying the queried name grows the
/// started-event query result by exactly that event, and appending any other
/// event leaves it unchanged — so N appended invocations of a command produce
/// exactly N visible started events.
pub proof fn lemma_started_event_count(s: Seq<CommandEvent>, e: CommandEvent, name: Seq<char>)
    ensures
        (e matches CommandEvent::CommandStartedEvent(st) && st.command_name@ == name)
            ==> started_events_spec(s.push(e), name) == started_events_spec(s, name).push(
            e->CommandStartedEvent_0,
        ),
        !(e.spec_is_started() && e.spec_command_name() == name) ==> started_events_spec(
            s.push(e),
            name,
        ) == started_events_spec(s, name),
{
    assert(s.push(e).drop_last() =~= s);
    assert(s.push(e).last() == e);
}

/// Whether `target` appears in `names`.
fn contains_string(names: &Vec<String>, target: &String) -> (r: bool)
    ensures
        r == names.deep_view().contains(target@),
{
    let n = names.len();
    let mut i: usize = 0;
    while i < n
        invariant
            n == names@.len(),
            i <= n,
            forall|j: int| 0 <= j < i ==> names.deep_view()[j] != target@,
        decreases n - i,
    {
        if names[i] == *target {
            assert(names.deep_view()[i as int] == target@);
            return true;
        }
        i += 1;
    }
    assert(!names.deep_view().contains(target@));
    false
}

/// Whether `e` survives filtering under the given observe set and ignore list.
fn event_kept(
    e: &CommandEvent,
    observe_events: &Option<Vec<String>>,
    ignore_command_names: &Option<Vec<String>>,
) -> (r: bool)
    ensures
        r == keeps_event(*e, names_view(*observe_events), names_view(*ignore_command_names)),
{
    let reserved: String = "configureFailPoint".to_owned();
    if e.has_command_name(&reserved) {
        return false;
    }
    match observe_events {
        Some(kinds) => {
            let kind = e.kind_name();
            if !contains_string(kinds, &kind) {
                return false;
            }
        },
        None => {},
    }
    match ignore_command_names {
        Some(names) => {
            let own_name: String = e.command_name().to_owned();
            if contains_string(names, &own_name) {
                return false;
            }
        },
        None => {},
    }
    true
}

/// All started events for `command_name`, in original order, as independent
/// copies; the queue is traversed without removal.
pub fn command_started_events_in(events: &VecDeque<CommandEvent>, command_name: &str) -> (r: Vec<
    CommandStartedEvent,
>)
    ensures
        r@ == started_events_spec(events@, command_name@),
{
    let target: String = command_name.to_owned();
    let mut out: Vec<CommandStartedEvent> = Vec::new();
    let n = events.len();
    let mut i: usize = 0;
    while i < n
        invariant
            target@ == command_name@,
            n == events@.len(),
            i <= n,
            out@ == started_events_spec(events@.take(i as int), command_name@),
        decreases n - i,
    {
        match &events[i] {
            CommandEvent::CommandStartedEvent(e) => {
                if e.command_name == target {
                    out.push(e.clone());
                }
            },
            _ => {},
        }
        proof {
            assert(events@.take(i + 1).drop_last() =~= events@.take(i as int));
            assert(events@.take(i + 1).last() == events@[i as int]);
        }
        i += 1;
    }
    proof {
        assert(events@.take(n as int) =~= events@);
    }
    out
}

/// All events that survive the observe set, the ignore list and the
/// reserved-command rule, in original order, as independent copies; the queue
/// is traversed without removal.
pub fn filtered_events_in(
    events: &VecDeque<CommandEvent>,
    observe_events: &Option<Vec<String>>,
    ignore_command_names: &Option<Vec<String>>,
) -> (r: Vec<CommandEvent>)
    ensures
        r@ == filtered_events_spec(
            events@,
            names_view(*observe_events),
            names_view(*ignore_command_names),
        ),
{
    let mut out: Vec<CommandEvent> = Vec::new();
    let n = events.len();
    let mut i: usize = 0;
    while i < n
        invariant
            n == events@.len(),
            i <= n,
            out@ == filtered_events_spec(
                events@.take(i as int),
                names_view(*observe_events),
                names_view(*ignore_command_names),
            ),
        decreases n - i,
    {
        let e = &events[i];
        if event_kept(e, observe_events, ignore_command_names) {
            out.push(e.clone());
        }
        proof {
            assert(events@.take(i + 1).drop_last() =~= events@.take(i as int));
            assert(events@.take(i + 1).last() == events@[i as int]);
        }
        i += 1;
    }
    proof {
        assert(events@.take(n as int) =~= events@);
    }
    out
}

} // verus!
