//! The correlation engine: a destructive front-to-back scan that pops events
//! until it completes the first started/succeeded pair for a command name,
//! discarding everything it pops on the way.

use std::collections::VecDeque;
use vstd::prelude::*;

verus! {

use crate::event::{CommandEvent, CommandStartedEvent, CommandSucceededEvent};

/// Why a correlation attempt failed. Neither failure is recoverable: a caller
/// is expected to abort the test path that asked for the correlation.
#[derive(Debug)]
pub enum CorrelationError {
    /// The queue was exhausted before a started/succeeded pair for the
    /// requested command was completed.
    CorrelationNotFound,
    /// The event found for the current correlation step is not of the kind the
    /// protocol requires (a first matching event that is not started, or a
    /// matching-key event that is not succeeded); carries the offending event.
    UnexpectedEventVariant(CommandEvent),
}

/// One scan step outcome while a started event is pending: the scan pops the
/// front event, discards it when its name or correlation key differs, returns
/// the pair when it is the matching succeeded event, and fails on any other
/// matching-key event. The second component is what the scan leaves of the
/// queue.
pub open spec fn scan_pending(
    s: Seq<CommandEvent>,
    name: Seq<char>,
    started: CommandStartedEvent,
) -> (Result<(CommandStartedEvent, CommandSucceededEvent), CorrelationError>, Seq<CommandEvent>)
    decreases s.len(),
{
    if s.len() == 0 {
        (Err(CorrelationError::CorrelationNotFound), s)
    } else {
        let e = s[0];
        let rest = s.subrange(1, s.len() as int);
        if e.spec_command_name() != name {
            scan_pending(rest, name, started)
        } else if e.spec_request_id() != started.request_id {
            scan_pending(rest, name, started)
        } else {
            match e {
                CommandEvent::CommandSucceededEvent(suc) => (Ok((started, suc)), rest),
                _ => (Err(CorrelationError::UnexpectedEventVariant(e)), rest),
            }
        }
    }
}

/// The whole scan: the first event carrying the requested name must be a
/// started event; from there the scan looks for the matching succeeded event.
/// The second component is what the scan leaves of the queue.
pub open spec fn scan_for_pair(s: Seq<CommandEvent>, name: Seq<char>) -> (Result<
    (CommandStartedEvent, CommandSucceededEvent),
    CorrelationError,
>, Seq<CommandEvent>)
    decreases s.len(),
{
    if s.len() == 0 {
        (Err(CorrelationError::CorrelationNotFound), s)
    } else {
        let e = s[0];
        let rest = s.subrange(1, s.len() as int);
        if e.spec_command_name() != name {
            scan_for_pair(rest, name)
        } else {
            match e {
                CommandEvent::CommandStartedEvent(st) => scan_pending(rest, name, st),
                _ => (Err(CorrelationError::UnexpectedEventVariant(e)), rest),
            }
        }
    }
}

/// Whether positions `2k` and `2k + 1` of `s` hold a started/succeeded pair
/// for `name` sharing one correlation key.
pub open spec fn is_correlated_pair_at(s: Seq<CommandEvent>, name: Seq<char>, k: int) -> bool {
    &&& s[2 * k].spec_is_started()
    &&& s[2 * k].spec_command_name() == name
    &&& s[2 * k + 1].spec_is_succeeded()
    &&& s[2 * k + 1].spec_command_name() == name
    &&& s[2 * k].spec_request_id() == s[2 * k + 1].spec_request_id()
}

/// A stream of `n` adjacent started/succeeded pairs sharing one command name,
/// distinguished solely by pairwise distinct correlation keys.
pub open spec fn is_pair_stream(s: Seq<CommandEvent>, name: Seq<char>, n: int) -> bool {
    &&& n >= 0
    &&& s.len() == 2 * n
    &&& forall|k: int| 0 <= k < n ==> is_correlated_pair_at(s, name, k)
    &&& forall|j: int, k: int|
        0 <= j < k < n ==> (#[trigger] s[2 * j].spec_request_id()) != (#[trigger] s[2
            * k].spec_request_id())
}

/// What the scan leaves of `s` once `i` sequential correlation calls for
/// `name` have run, each starting from what the one before left.
pub open spec fn queue_after_calls(s: Seq<CommandEvent>, name: Seq<char>, i: int) -> Seq<
    CommandEvent,
>
    decreases i,
{
    if i <= 0 {
        s
    } else {
        scan_for_pair(queue_after_calls(s, name, i - 1), name).1
    }
}

/// Whatever the stream holds, a pending scan removes events only from the
/// front: it leaves a suffix of the queue it started from, shorter by exactly
/// the number of events it popped.
pub proof fn lemma_scan_pending_leaves_suffix(
    s: Seq<CommandEvent>,
    name: Seq<char>,
    started: CommandStartedEvent,
)
    ensures
        exists|consumed: int|
            0 <= consumed <= s.len() && scan_pending(s, name, started).1 == #[trigger] s.skip(
                consumed,
            ),
    decreases s.len(),
{
    if s.len() == 0 {
        assert(s.skip(0) =~= s);
    } else {
        let e = s[0];
        let rest = s.subrange(1, s.len() as int);
        if e.spec_command_name() != name || e.spec_request_id() != started.request_id {
            lemma_scan_pending_leaves_suffix(rest, name, started);
            let c = choose|c: int|
                0 <= c <= rest.len() && scan_pending(rest, name, started).1 == #[trigger] rest.skip(
                    c,
                );
            assert(rest.skip(c) =~= s.skip(c + 1));
        } else {
            assert(rest =~= s.skip(1));
        }
    }
}

/// Whatever the stream holds, a correlation call removes events only from the
/// front: the queue it leaves is a suffix of the queue it started from, shorter
/// by exactly the number of events the scan consumed.
pub proof fn lemma_scan_leaves_suffix(s: Seq<CommandEvent>, name: Seq<char>)
    ensures
        exists|consumed: int|
            0 <= consumed <= s.len() && scan_for_pair(s, name).1 == #[trigger] s.skip(consumed),
    decreases s.len(),
{
    if s.len() == 0 {
        assert(s.skip(0) =~= s);
    } else {
        let e = s[0];
        let rest = s.subrange(1, s.len() as int);
        if e.spec_command_name() != name {
            lemma_scan_leaves_suffix(rest, name);
            let c = choose|c: int|
                0 <= c <= rest.len() && scan_for_pair(rest, name).1 == #[trigger] rest.skip(c);
            assert(rest.skip(c) =~= s.skip(c + 1));
        } else if e.spec_is_started() {
            lemma_scan_pending_leaves_suffix(rest, name, e->CommandStartedEvent_0);
            let c = choose|c: int|
                0 <= c <= rest.len() && scan_pending(rest, name, e->CommandStartedEvent_0).1 == (
                #[trigger] rest.skip(c));
            assert(rest.skip(c) =~= s.skip(c + 1));
        } else {
            assert(rest =~= s.skip(1));
        }
    }
}

/// A pending scan over a stream with no succeeded event for the command can
/// only fail.
pub proof fn lemma_scan_pending_no_success(
    s: Seq<CommandEvent>,
    name: Seq<char>,
    started: CommandStartedEvent,
)
    requires
        forall|i: int|
            0 <= i < s.len() ==> !((#[trigger] s[i]).spec_is_succeeded()
                && s[i].spec_command_name() == name),
    ensures
        scan_pending(s, name, started).0 is Err,
    decreases s.len(),
{
    if s.len() == 0 {
    } else {
        let rest = s.subrange(1, s.len() as int);
        assert(forall|i: int| 0 <= i < rest.len() ==> #[trigger] rest[i] == s[i + 1]);
        lemma_scan_pending_no_success(rest, name, started);
    }
}

/// Law: when the queue holds no succeeded event for the command — a started
/// event whose terminal event is never appended — a correlation call for that
/// command fails once the scan exhausts the queue.
pub proof fn lemma_no_success_means_failure(s: Seq<CommandEvent>, name: Seq<char>)
    requires
        forall|i: int|
            0 <= i < s.len() ==> !((#[trigger] s[i]).spec_is_succeeded()
                && s[i].spec_command_name() == name),
    ensures
        scan_for_pair(s, name).0 is Err,
    decreases s.len(),
{
    if s.len() == 0 {
    } else {
        let rest = s.subrange(1, s.len() as int);
        assert(forall|i: int| 0 <= i < rest.len() ==> #[trigger] rest[i] == s[i + 1]);
        if s[0].spec_command_name() != name {
            lemma_no_success_means_failure(rest, name);
        } else if s[0].spec_is_started() {
            lemma_scan_pending_no_success(rest, name, s[0]->CommandStartedEvent_0);
        }
    }
}

/// A pending scan only ever completes with the pending started event and a
/// succeeded event that carries the command name and the same correlation key.
pub proof fn lemma_scan_pending_pair_matches(
    s: Seq<CommandEvent>,
    name: Seq<char>,
    started: CommandStartedEvent,
)
    ensures
        scan_pending(s, name, started).0 matches Ok(p) ==> p.0 == started && p.1.command_name@
            == name && p.1.request_id == started.request_id,
    decreases s.len(),
{
    if s.len() == 0 {
    } else {
        let rest = s.subrange(1, s.len() as int);
        lemma_scan_pending_pair_matches(rest, name, started);
    }
}

/// Law: a correlation call only ever returns a pair of the requested command —
/// a started and a succeeded event that both carry the name and share one
/// correlation key.
pub proof fn lemma_scan_pair_matches(s: Seq<CommandEvent>, name: Seq<char>)
    ensures
        scan_for_pair(s, name).0 matches Ok(p) ==> p.0.command_name@ == name && p.1.command_name@
            == name && p.0.request_id == p.1.request_id,
    decreases s.len(),
{
    if s.len() == 0 {
    } else {
        let rest = s.subrange(1, s.len() as int);
        if s[0].spec_command_name() != name {
            lemma_scan_pair_matches(rest, name);
        } else if s[0].spec_is_started() {
            lemma_scan_pending_pair_matches(rest, name, s[0]->CommandStartedEvent_0);
        }
    }
}

/// On a pair stream the scan returns the first pair, consumes exactly its two
/// events, and leaves the remaining pairs as a pair stream.
pub proof fn lemma_pair_stream_first_correlation(s: Seq<CommandEvent>, name: Seq<char>, n: int)
    requires
        is_pair_stream(s, name, n),
        n >= 1,
    ensures
        ({
            let (res, rest) = scan_for_pair(s, name);
            &&& res matches Ok(p) && CommandEvent::CommandStartedEvent(p.0) == s[0]
                && CommandEvent::CommandSucceededEvent(p.1) == s[1]
            &&& rest == s.skip(2)
            &&& is_pair_stream(rest, name, n - 1)
        }),
{
    assert(is_correlated_pair_at(s, name, 0));
    let e0 = s[0];
    let e1 = s[1];
    let rest1 = s.subrange(1, s.len() as int);
    assert(rest1[0] == e1);
    assert(rest1.subrange(1, rest1.len() as int) =~= s.skip(2));
    assert forall|k: int| 0 <= k < n - 1 implies is_correlated_pair_at(s.skip(2), name, k) by {
        assert(is_correlated_pair_at(s, name, k + 1));
        assert(s.skip(2)[2 * k] == s[2 * k + 2]);
        assert(s.skip(2)[2 * k + 1] == s[2 * k + 3]);
    }
    assert forall|j: int, k: int| 0 <= j < k < n - 1 implies (#[trigger] s.skip(2)[2
        * j].spec_request_id()) != (#[trigger] s.skip(2)[2 * k].spec_request_id()) by {
        assert(s.skip(2)[2 * j] == s[2 * (j + 1)]);
        assert(s.skip(2)[2 * k] == s[2 * (k + 1)]);
        assert(s[2 * (j + 1)].spec_request_id() != s[2 * (k + 1)].spec_request_id());
    }
}

/// Law: on a stream of adjacent started/succeeded pairs sharing one command
/// name but with distinct correlation keys, sequential correlation calls
/// return the pairs ordered by their position in the original stream, and each
/// call shortens the queue by exactly the two events it consumed.
pub proof fn lemma_sequential_pair_correlation(
    s: Seq<CommandEvent>,
    name: Seq<char>,
    n: int,
    i: int,
)
    requires
        is_pair_stream(s, name, n),
        0 <= i < n,
    ensures
        ({
            let before = queue_after_calls(s, name, i);
            let (res, rest) = scan_for_pair(before, name);
            &&& before == s.skip(2 * i)
            &&& is_pair_stream(before, name, n - i)
            &&& res matches Ok(p) && CommandEvent::CommandStartedEvent(p.0) == s[2 * i]
                && CommandEvent::CommandSucceededEvent(p.1) == s[2 * i + 1]
            &&& rest == s.skip(2 * i + 2)
            &&& before.len() - rest.len() == 2
        }),
    decreases i,
{
    if i == 0 {
        assert(s.skip(0) =~= s);
        lemma_pair_stream_first_correlation(s, name, n);
        assert(s.skip(2) =~= s.skip(2 * i + 2));
    } else {
        lemma_sequential_pair_correlation(s, name, n, i - 1);
        lemma_pair_stream_first_correlation(s.skip(2 * (i - 1)), name, n - (i - 1));
        let before = queue_after_calls(s, name, i);
        assert(s.skip(2 * (i - 1)).skip(2) =~= s.skip(2 * i));
        assert(before == s.skip(2 * i));
        lemma_pair_stream_first_correlation(before, name, n - i);
        assert(before[0] == s[2 * i]);
        assert(before[1] == s[2 * i + 1]);
        assert(before.skip(2) =~= s.skip(2 * i + 2));
    }
}

/// Pops events off the front of `events` until the first started/succeeded
/// pair for `command_name` is completed, and returns that pair. Every popped
/// event — matching or not — is permanently removed; events whose name matches
/// but whose correlation key belongs to another in-flight invocation are
/// silently discarded. Fails when a matching event breaks the
/// started-then-succeeded protocol, or when the queue runs out first.
pub fn correlate_successful_execution(events: &mut VecDeque<CommandEvent>, command_name: &str) -> (r:
    Result<(CommandStartedEvent, CommandSucceededEvent), CorrelationError>)
    ensures
        r == scan_for_pair(old(events)@, command_name@).0,
        final(events)@ == scan_for_pair(old(events)@, command_name@).1,
{
    let target: String = command_name.to_owned();
    let mut started: Option<CommandStartedEvent> = None;
    loop
        invariant
            target@ == command_name@,
            (match started {
                None => scan_for_pair(events@, command_name@) == scan_for_pair(
                    old(events)@,
                    command_name@,
                ),
                Some(st) => scan_pending(events@, command_name@, st) == scan_for_pair(
                    old(events)@,
                    command_name@,
                ),
            }),
        decreases events@.len(),
    {
        match events.pop_front() {
            None => {
                return Err(CorrelationError::CorrelationNotFound);
            },
            Some(event) => {
                if event.has_command_name(&target) {
                    if started.is_none() {
                        match event {
                            CommandEvent::CommandStartedEvent(st) => {
                                started = Some(st);
                            },
                            other => {
                                return Err(CorrelationError::UnexpectedEventVariant(other));
                            },
                        }
                    } else {
                        if event.request_id() == started.as_ref().unwrap().request_id {
                            match event {
                                CommandEvent::CommandSucceededEvent(suc) => {
                                    return Ok((started.unwrap(), suc));
                                },
                                other => {
                                    return Err(CorrelationError::UnexpectedEventVariant(other));
                                },
                            }
                        }
                        // Same name, other in-flight invocation: discard and
                        // keep the pending correlation.
                    }
                }
                // Name differs: discard and continue.
            },
        }
    }
}

} // verus!
