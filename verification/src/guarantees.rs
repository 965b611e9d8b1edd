//! What holds of every run, whatever the driver reports.
//!
//! Each statement is about [`trace`]: the steps a run goes through for a
//! given sequence of events. Position `k` of a trace is the step that was due
//! when event `k` was reported, and position `k + 1` is the step that
//! followed from it.

use vstd::prelude::*;

use crate::run::{first_step, next_step, step_in_range, trace, Event, Outcome, Step};

verus! {

/// How far a run of `len` commands has come at `step`: finding the monitor
/// comes first, then each command with its wait, in queue order, then the end.
pub open spec fn progress(step: Step, len: usize) -> int {
    match step {
        Step::Enumerate => 0,
        Step::Open { .. } => 1,
        Step::Transfer { command } => 2 + 2 * command,
        Step::Settle { after } => 3 + 2 * after,
        Step::Done(_) => 2 + 2 * len,
    }
}

/// How many commands have gone through when a run of `len` commands is at
/// `step`.
pub open spec fn transferred(step: Step, len: usize) -> int {
    match step {
        Step::Enumerate => 0,
        Step::Open { .. } => 0,
        Step::Transfer { command } => command as int,
        Step::Settle { after } => after + 1,
        Step::Done(Outcome::Completed) => len as int,
        Step::Done(Outcome::TransferFailure { index }) => index as int,
        Step::Done(_) => 0,
    }
}

/// A trace holds one step more than there are events.
pub proof fn lemma_trace_len(len: usize, events: Seq<Event>)
    ensures
        trace(len, events).len() == events.len() + 1,
    decreases events.len(),
{
    if events.len() > 0 {
        lemma_trace_len(len, events.drop_last());
    }
}

/// A trace begins with the first step, and each later step is the one that
/// follows from the step before it and the event reported for it.
pub proof fn lemma_trace_consecutive(len: usize, events: Seq<Event>)
    ensures
        trace(len, events).len() == events.len() + 1,
        trace(len, events)[0] == first_step(len),
        forall|k: int|
            0 <= k < events.len() ==> #[trigger] trace(len, events)[k + 1] == next_step(
                trace(len, events)[k],
                len,
                events[k],
            ),
    decreases events.len(),
{
    lemma_trace_len(len, events);
    if events.len() > 0 {
        lemma_trace_consecutive(len, events.drop_last());
    }
}

/// One step on: a run never goes back, and a step that names a command names
/// one that the queue holds.
pub proof fn lemma_next_step_advances(step: Step, len: usize, event: Event)
    requires
        step_in_range(step, len),
    ensures
        step_in_range(next_step(step, len, event), len),
        next_step(step, len, event) == step || progress(step, len) < progress(
            next_step(step, len, event),
            len,
        ),
        step is Done ==> next_step(step, len, event) == step,
{
}

/// Every step of a trace that names a command names one that the queue
/// holds.
pub proof fn lemma_steps_in_range(len: usize, events: Seq<Event>)
    ensures
        forall|k: int|
            0 <= k <= events.len() ==> step_in_range(#[trigger] trace(len, events)[k], len),
    decreases events.len(),
{
    lemma_trace_len(len, events);
    if events.len() > 0 {
        let earlier = events.drop_last();
        lemma_trace_len(len, earlier);
        lemma_steps_in_range(len, earlier);
        lemma_next_step_advances(trace(len, earlier).last(), len, events.last());
    }
}

/// A run never goes back: of two steps of a trace, the later one is at least
/// as far as the earlier one.
pub proof fn lemma_progress_never_goes_back(len: usize, events: Seq<Event>)
    ensures
        forall|k: int, m: int|
            0 <= k <= m <= events.len() ==> progress(#[trigger] trace(len, events)[k], len)
                <= progress(#[trigger] trace(len, events)[m], len),
    decreases events.len(),
{
    lemma_trace_len(len, events);
    if events.len() > 0 {
        let earlier = events.drop_last();
        lemma_trace_len(len, earlier);
        lemma_progress_never_goes_back(len, earlier);
        lemma_steps_in_range(len, earlier);
        lemma_next_step_advances(trace(len, earlier).last(), len, events.last());
    }
}

/// Once a run is over it stays over, with the same outcome.
pub proof fn lemma_done_is_final(len: usize, events: Seq<Event>)
    ensures
        forall|k: int, m: int|
            0 <= k <= m <= events.len() && #[trigger] trace(len, events)[k] is Done
                ==> #[trigger] trace(len, events)[m] == trace(len, events)[k],
    decreases events.len(),
{
    lemma_trace_len(len, events);
    if events.len() > 0 {
        let earlier = events.drop_last();
        lemma_trace_len(len, earlier);
        lemma_done_is_final(len, earlier);
    }
}

/// With an empty queue a run is over from the start: no step asks the driver
/// to list, open or write to any device.
pub proof fn lemma_empty_queue_touches_no_device(events: Seq<Event>)
    ensures
        forall|k: int|
            0 <= k <= events.len() ==> #[trigger] trace(0, events)[k] == Step::Done(
                Outcome::Completed,
            ),
{
    lemma_trace_consecutive(0, events);
    lemma_done_is_final(0, events);
}

/// Where a run ends because the monitor was not found, nothing but the
/// listing of devices was ever due: no device was opened and no command was
/// sent.
pub proof fn lemma_not_found_sends_nothing(len: usize, events: Seq<Event>, end: int)
    requires
        0 <= end <= events.len(),
        trace(len, events)[end] == Step::Done(Outcome::DeviceNotFound),
    ensures
        forall|k: int|
            0 <= k <= events.len() ==> {
                let step = #[trigger] trace(len, events)[k];
                step == Step::Enumerate || step == Step::Done(Outcome::DeviceNotFound)
            },
{
    lemma_trace_consecutive(len, events);
    lemma_done_is_final(len, events);
    lemma_only_enumerate_before_not_found(len, events);
}

/// While the listing of devices is due, nothing else has been due; and where
/// the monitor was not found, only the listing has.
proof fn lemma_only_enumerate_before_not_found(len: usize, events: Seq<Event>)
    ensures
        trace(len, events).last() == Step::Enumerate ==> forall|k: int|
            0 <= k <= events.len() ==> #[trigger] trace(len, events)[k] == Step::Enumerate,
        trace(len, events).last() == Step::Done(Outcome::DeviceNotFound) ==> forall|k: int|
            0 <= k <= events.len() ==> {
                let step = #[trigger] trace(len, events)[k];
                step == Step::Enumerate || step == Step::Done(Outcome::DeviceNotFound)
            },
    decreases events.len(),
{
    lemma_trace_len(len, events);
    if events.len() > 0 {
        let earlier = events.drop_last();
        lemma_trace_len(len, earlier);
        lemma_only_enumerate_before_not_found(len, earlier);
        let t = trace(len, events);
        let before = trace(len, earlier);
        if t.last() == Step::Done(Outcome::DeviceNotFound) {
            assert(before.last() == Step::Enumerate || before.last() == Step::Done(
                Outcome::DeviceNotFound,
            ));
        }
    }
}

/// Where a transfer fails, the run is over at once with the position of the
/// command that failed, and no command after that one is ever due.
pub proof fn lemma_failed_transfer_ends_run(len: usize, events: Seq<Event>, k: int)
    requires
        0 <= k < events.len(),
        trace(len, events)[k] is Transfer,
        events[k] is TransferFailed,
    ensures
        forall|m: int|
            k < m <= events.len() ==> #[trigger] trace(len, events)[m] == Step::Done(
                Outcome::TransferFailure { index: trace(len, events)[k]->command },
            ),
        forall|m: int|
            0 <= m <= events.len() && #[trigger] trace(len, events)[m] is Transfer ==> trace(
                len,
                events,
            )[m]->command <= trace(len, events)[k]->command,
{
    lemma_trace_consecutive(len, events);
    lemma_done_is_final(len, events);
    lemma_progress_never_goes_back(len, events);
    let t = trace(len, events);
    let failed = t[k]->command;
    assert forall|m: int| k < m <= events.len() implies #[trigger] t[m] == Step::Done(
        Outcome::TransferFailure { index: failed },
    ) by {
        assert(t[m] == t[k + 1]);
    }
}

/// Commands are sent in queue order: of two transfers of a trace, the later
/// one is of the same command or of one further down the queue.
pub proof fn lemma_commands_in_order(len: usize, events: Seq<Event>, k: int, m: int)
    requires
        0 <= k <= m <= events.len(),
        trace(len, events)[k] is Transfer,
        trace(len, events)[m] is Transfer,
    ensures
        trace(len, events)[k]->command <= trace(len, events)[m]->command,
{
    lemma_progress_never_goes_back(len, events);
}

/// A transfer is tried once: after a transfer was answered, whether it went
/// through or failed, the same command is never due again, nor any command
/// before it.
pub proof fn lemma_no_command_sent_twice(len: usize, events: Seq<Event>, k: int, m: int)
    requires
        0 <= k < m <= events.len(),
        trace(len, events)[k] is Transfer,
        events[k] is Transferred || events[k] is TransferFailed,
        trace(len, events)[m] is Transfer,
    ensures
        trace(len, events)[k]->command < trace(len, events)[m]->command,
{
    lemma_trace_consecutive(len, events);
    lemma_steps_in_range(len, events);
    lemma_progress_never_goes_back(len, events);
    let t = trace(len, events);
    assert(progress(t[k + 1], len) <= progress(t[m], len));
}

/// Before a command other than the first is sent, the command before it went
/// through and the wait after it is over.
pub proof fn lemma_settled_before_next_command(len: usize, events: Seq<Event>, m: int)
    requires
        0 <= m <= events.len(),
        trace(len, events)[m] is Transfer,
        trace(len, events)[m]->command > 0,
    ensures
        exists|j: int, k: int|
            {
                &&& 0 <= j < k < m
                &&& #[trigger] trace(len, events)[j] == Step::Transfer {
                    command: (trace(len, events)[m]->command - 1) as usize,
                }
                &&& events[j] is Transferred
                &&& #[trigger] trace(len, events)[k] == Step::Settle {
                    after: (trace(len, events)[m]->command - 1) as usize,
                }
                &&& events[k] is Settled
            },
    decreases m,
{
    lemma_trace_consecutive(len, events);
    let t = trace(len, events);
    let previous = (t[m]->command - 1) as usize;
    assert(t[(m - 1) + 1] == next_step(t[m - 1], len, events[m - 1]));
    if t[m - 1] == t[m] {
        lemma_settled_before_next_command(len, events, m - 1);
    } else {
        let k = m - 1;
        let j = choose_transfer_before_settle(len, events, k);
        assert(0 <= j < k < m && t[j] == Step::Transfer { command: previous } && events[j] is Transferred
            && t[k] == Step::Settle { after: previous } && events[k] is Settled);
    }
}

/// The position at which the command went through whose wait is due at `k`.
proof fn choose_transfer_before_settle(len: usize, events: Seq<Event>, k: int) -> (j: int)
    requires
        0 <= k <= events.len(),
        trace(len, events)[k] is Settle,
    ensures
        0 <= j < k,
        trace(len, events)[j] == (Step::Transfer { command: trace(len, events)[k]->after }),
        events[j] is Transferred,
    decreases k,
{
    lemma_trace_consecutive(len, events);
    let t = trace(len, events);
    assert(t[(k - 1) + 1] == next_step(t[k - 1], len, events[k - 1]));
    if t[k - 1] == t[k] {
        choose_transfer_before_settle(len, events, k - 1)
    } else {
        k - 1
    }
}

/// At every step of a run, the commands that count as transferred at that
/// step did go through, each in a transfer of its own. So a run that
/// completes has sent the whole queue, and a run that fails at a command has
/// sent every command before it.
pub proof fn lemma_earlier_commands_went_through(len: usize, events: Seq<Event>, m: int, command: int)
    requires
        0 <= m <= events.len(),
        0 <= command < transferred(trace(len, events)[m], len),
    ensures
        exists|j: int|
            {
                &&& 0 <= j < m
                &&& #[trigger] trace(len, events)[j] == Step::Transfer { command: command as usize }
                &&& events[j] is Transferred
            },
    decreases m,
{
    lemma_trace_consecutive(len, events);
    lemma_steps_in_range(len, events);
    let t = trace(len, events);
    let j = m - 1;
    assert(t[j + 1] == next_step(t[j], len, events[j]));
    if command < transferred(t[j], len) {
        lemma_earlier_commands_went_through(len, events, j, command);
    }
}

} // verus!
