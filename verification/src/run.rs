//! One run against the monitor, told as a sequence of steps.
//!
//! A run finds the monitor, opens it, and sends the queued commands one after
//! the other, waiting a moment after each. None of that is done here: a
//! [`Run`] says which [`Step`] is due, the driver performs it and reports the
//! [`Event`] that came of it, and the run says what is due next. What a run
//! may ask for, whatever the driver reports, is stated and proved in
//! [`crate::guarantees`].

use vstd::prelude::*;

use crate::command::{queue_view, Command, CommandView};
use crate::locate::{find_device, first_match, DeviceId, M27Q_PID, M27Q_VID};

verus! {

/// How long a single control transfer may take, in milliseconds. A transfer
/// is tried once.
pub const TRANSFER_TIMEOUT_MS: u64 = 1000;

/// How long to wait after a transfer that went through, in milliseconds. The
/// monitor drops commands that follow each other faster.
pub const SETTLE_DELAY_MS: u64 = 50;

/// How a run ended.
#[derive(Copy, Clone, Debug, PartialEq, Eq, Structural)]
pub enum Outcome {
    /// Every queued command went through.
    Completed,
    /// The host could not list its devices, or none of them is the monitor.
    DeviceNotFound,
    /// The monitor is attached but could not be opened.
    DeviceOpenFailure,
    /// The transfer of the command at `index` failed. The commands before it
    /// went through and stay applied; those after it were not sent.
    TransferFailure { index: usize },
}

impl Outcome {
    /// Whether the run failed. A monitor that is not attached ends the run
    /// cleanly; a monitor that cannot be opened and a transfer that does not
    /// go through are failures.
    pub open spec fn spec_is_fatal(self) -> bool {
        self is DeviceOpenFailure || self is TransferFailure
    }

    /// Whether the run failed.
    #[verifier::when_used_as_spec(spec_is_fatal)]
    pub fn is_fatal(self) -> (fatal: bool)
        ensures
            fatal == self.spec_is_fatal(),
    {
        match self {
            Outcome::Completed => false,
            Outcome::DeviceNotFound => false,
            Outcome::DeviceOpenFailure => true,
            Outcome::TransferFailure { .. } => true,
        }
    }
}

/// What a run is waiting for the driver to do.
#[derive(Copy, Clone, Debug, PartialEq, Eq, Structural)]
pub enum Step {
    /// List the attached devices and read the ids of each.
    Enumerate,
    /// Open the device at position `device` of the list that was reported.
    Open { device: usize },
    /// Send the command at position `command` of the queue, with a timeout of
    /// [`TRANSFER_TIMEOUT_MS`].
    Transfer { command: usize },
    /// Wait [`SETTLE_DELAY_MS`]: the command at `after` went through.
    Settle { after: usize },
    /// Nothing: the run is over.
    Done(Outcome),
}

/// What came of a step.
#[derive(Debug)]
pub enum Event {
    /// The host could not list its devices.
    EnumerationFailed,
    /// The attached devices in the order of the host, each with its ids or
    /// with `None` where its descriptor could not be read.
    Enumerated(Vec<Option<DeviceId>>),
    /// The device could not be opened.
    OpenFailed,
    /// The device is open.
    Opened,
    /// The transfer timed out or was rejected.
    TransferFailed,
    /// The transfer went through.
    Transferred,
    /// The wait is over.
    Settled,
}

/// The step a run of `len` commands begins with. With nothing to send, the
/// run is over before it touches any device.
pub open spec fn first_step(len: usize) -> Step {
    if len == 0 {
        Step::Done(Outcome::Completed)
    } else {
        Step::Enumerate
    }
}

/// The step that sends the command at `command`, or the end of the run where
/// the queue has no such command.
pub open spec fn transfer_or_done(command: int, len: usize) -> Step {
    if 0 <= command < len {
        Step::Transfer { command: command as usize }
    } else {
        Step::Done(Outcome::Completed)
    }
}

/// The step that is due after `event` was reported for `step`, in a run of
/// `len` commands. An event that does not answer `step` changes nothing.
pub open spec fn next_step(step: Step, len: usize, event: Event) -> Step {
    match (step, event) {
        (Step::Enumerate, Event::EnumerationFailed) => Step::Done(Outcome::DeviceNotFound),
        (Step::Enumerate, Event::Enumerated(devices)) => match first_match(
            devices@,
            M27Q_VID,
            M27Q_PID,
        ) {
            Some(device) => Step::Open { device: device as usize },
            None => Step::Done(Outcome::DeviceNotFound),
        },
        (Step::Open { .. }, Event::OpenFailed) => Step::Done(Outcome::DeviceOpenFailure),
        (Step::Open { .. }, Event::Opened) => transfer_or_done(0, len),
        (Step::Transfer { command }, Event::TransferFailed) => Step::Done(
            Outcome::TransferFailure { index: command },
        ),
        (Step::Transfer { command }, Event::Transferred) => Step::Settle { after: command },
        (Step::Settle { after }, Event::Settled) => transfer_or_done(after + 1, len),
        _ => step,
    }
}

/// The steps a run of `len` commands goes through while the driver reports
/// `events`: the first step, and then one step after each event.
pub open spec fn trace(len: usize, events: Seq<Event>) -> Seq<Step>
    decreases events.len(),
{
    if events.len() == 0 {
        seq![first_step(len)]
    } else {
        let before = trace(len, events.drop_last());
        before.push(next_step(before.last(), len, events.last()))
    }
}

/// Whether `step` names a command that a queue of `len` commands holds.
pub open spec fn step_in_range(step: Step, len: usize) -> bool {
    match step {
        Step::Transfer { command } => command < len,
        Step::Settle { after } => after < len,
        _ => true,
    }
}

/// A run: the queue of commands to send and the step that is due.
pub struct Run {
    queue: Vec<Command>,
    step: Step,
    history: Ghost<Seq<Event>>,
}

impl Run {
    #[verifier::type_invariant]
    spec fn well_formed(&self) -> bool {
        &&& self.step == trace(self.queue.len(), self.history@).last()
        &&& step_in_range(self.step, self.queue.len())
    }

    /// What each queued command puts on the bus.
    pub closed spec fn queue(&self) -> Seq<CommandView> {
        queue_view(self.queue@)
    }

    /// The events reported so far, oldest first.
    pub closed spec fn history(&self) -> Seq<Event> {
        self.history@
    }

    /// The number of queued commands.
    pub open spec fn spec_len(&self) -> usize {
        self.queue().len() as usize
    }

    /// The steps this run has gone through, the one that is due last.
    pub open spec fn steps(&self) -> Seq<Step> {
        trace(self.spec_len(), self.history())
    }

    /// The step that is due.
    pub open spec fn spec_pending(&self) -> Step {
        self.steps().last()
    }

    /// Begins a run that sends `queue`.
    pub fn new(queue: Vec<Command>) -> (run: Run)
        ensures
            run.queue() == queue_view(queue@),
            run.history() == Seq::<Event>::empty(),
            run.spec_pending() == first_step(queue.len()),
    {
        let step = if queue.len() == 0 {
            Step::Done(Outcome::Completed)
        } else {
            Step::Enumerate
        };
        Run { queue, step, history: Ghost(Seq::empty()) }
    }

    /// The number of queued commands.
    #[verifier::when_used_as_spec(spec_len)]
    pub fn len(&self) -> (len: usize)
        ensures
            len == self.spec_len(),
    {
        self.queue.len()
    }

    /// The step that is due.
    #[verifier::when_used_as_spec(spec_pending)]
    pub fn pending(&self) -> (step: Step)
        ensures
            step == self.spec_pending(),
            step_in_range(step, self.spec_len()),
    {
        proof {
            use_type_invariant(self);
        }
        self.step
    }

    /// The command to send now, where a transfer is due.
    pub fn command(&self) -> (command: Option<&Command>)
        ensures
            match command {
                Some(c) => {
                    &&& self.spec_pending() matches Step::Transfer { command: i }
                    &&& i < self.queue().len()
                    &&& c@ == self.queue()[i as int]
                },
                None => !(self.spec_pending() is Transfer),
            },
    {
        proof {
            use_type_invariant(self);
        }
        match self.step {
            Step::Transfer { command } => Some(&self.queue[command]),
            _ => None,
        }
    }

    /// Takes in what came of the step that was due and moves on to the next.
    /// An event that does not answer that step is ignored.
    pub fn advance(self, event: Event) -> (next: Run)
        ensures
            next.queue() == self.queue(),
            next.history() == self.history().push(event),
            next.spec_pending() == next_step(self.spec_pending(), self.spec_len(), event),
    {
        proof {
            use_type_invariant(&self);
        }
        let ghost history = self.history@.push(event);
        let len: usize = self.queue.len();
        let step = match self.step {
            Step::Enumerate => match event {
                Event::EnumerationFailed => Step::Done(Outcome::DeviceNotFound),
                Event::Enumerated(devices) => match find_device(&devices, M27Q_VID, M27Q_PID) {
                    Some(device) => Step::Open { device },
                    None => Step::Done(Outcome::DeviceNotFound),
                },
                _ => Step::Enumerate,
            },
            Step::Open { device } => match event {
                Event::OpenFailed => Step::Done(Outcome::DeviceOpenFailure),
                Event::Opened => if len > 0 {
                    Step::Transfer { command: 0 }
                } else {
                    Step::Done(Outcome::Completed)
                },
                _ => Step::Open { device },
            },
            Step::Transfer { command } => match event {
                Event::TransferFailed => Step::Done(Outcome::TransferFailure { index: command }),
                Event::Transferred => Step::Settle { after: command },
                _ => Step::Transfer { command },
            },
            Step::Settle { after } => match event {
                Event::Settled => if after + 1 < len {
                    Step::Transfer { command: after + 1 }
                } else {
                    Step::Done(Outcome::Completed)
                },
                _ => Step::Settle { after },
            },
            Step::Done(outcome) => Step::Done(outcome),
        };
        proof {
            assert(history.drop_last() =~= self.history@);
        }
        Run { queue: self.queue, step, history: Ghost(history) }
    }
}

} // verus!
