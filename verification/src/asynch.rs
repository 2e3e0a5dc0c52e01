//! The async listener: a widget whose hooks hand their writes to a task
//! scheduler, and whose trigger state lives in atomic cells that the spawned
//! tasks and the polling consumer share across threads.

use crate::base::BaseListener;
use crate::base::Trigger;
use crate::events::Event;
use crate::events::NO_EVENT;
use std::sync::atomic::AtomicBool;
use std::sync::atomic::AtomicI32;
use std::sync::atomic::Ordering;
use std::sync::Arc;
use vstd::prelude::*;

verus! {

/// A unit of work that a hook hands to the task scheduler instead of doing
/// it itself: the hook runs on the toolkit's thread and has to return at
/// once.
#[derive(Clone, Copy, PartialEq, Eq, Structural, Debug)]
pub enum Job {
    /// Raise the trigger flag.
    Trigger,
    /// Store the event in the event cell.
    Record(Event),
}

/// What the event-handler hook of an async listener does with an event: the
/// job it hands to the scheduler, and what it reports to the toolkit.
#[derive(Clone, Copy, PartialEq, Eq, Structural, Debug)]
pub struct Deferral {
    /// The job to spawn.
    pub job: Job,
    /// Whether the hook reports the event as consumed.
    pub consumed: bool,
}

/// The trigger state of an async listener. A clone is another handle to the
/// same two cells. The cells are atomic and shared between threads, so the
/// contracts here speak of what the hooks decide, not of what a cell holds.
#[derive(Debug, Clone)]
pub struct Trig {
    triggered: Arc<AtomicBool>,
    event: Arc<AtomicI32>,
}

impl Trig {
    /// A trigger state with the flag down and the event cell holding the
    /// sentinel.
    pub fn new() -> Self {
        Trig {
            triggered: Arc::new(AtomicBool::new(false)),
            event: Arc::new(AtomicI32::new(NO_EVENT)),
        }
    }

    /// The callback hook: the widget's primary action fired. The hook spawns
    /// the job that raises the flag.
    pub fn fire(&self) -> (job: Job)
        ensures
            job == Job::Trigger,
    {
        Job::Trigger
    }

    /// The event-handler hook: the widget received `ev`. The hook spawns the
    /// job that stores `ev`, and reports the event as not consumed.
    pub fn handle(&self, ev: Event) -> (deferral: Deferral)
        ensures
            deferral.job == Job::Record(ev),
            !deferral.consumed,
    {
        Deferral { job: Job::Record(ev), consumed: false }
    }

    /// Runs a spawned job: one atomic write, a release, to the cell that the
    /// job names. The task that runs the job wakes the toolkit's blocking
    /// wait after this returns, never before, so that a consumer woken by it
    /// finds the write.
    pub fn run(&self, job: Job) {
        match job {
            Job::Trigger => {
                self.triggered.store(true, Ordering::Release);
            },
            Job::Record(ev) => {
                self.event.store(ev.bits(), Ordering::Release);
            },
        }
    }

    /// Reads and clears the trigger flag in one atomic swap, an acquire of
    /// the write that it reads.
    pub fn triggered(&self) -> bool {
        self.triggered.swap(false, Ordering::AcqRel)
    }

    /// Reads and clears the event cell in one atomic swap, an acquire of the
    /// write that it reads.
    pub fn event(&self) -> Event {
        let code = self.event.swap(NO_EVENT, Ordering::AcqRel);
        Event::from_i32(code)
    }
}

impl Trigger for Trig {
    /// Nothing can be said of cells that other threads write to.
    open spec fn idle(&self) -> bool {
        true
    }

    fn armed() -> (trig: Self) {
        Trig::new()
    }
}

/// The async listener on a widget.
pub type AsyncListener = BaseListener<Trig>;

impl BaseListener<Trig> {
    /// A handle to the listener's trigger state, for the hooks and the tasks
    /// that they spawn: it holds the very cells that the listener holds, so
    /// what a job writes through it is what the listener's queries read.
    pub fn share(&self) -> (shared: Trig)
        ensures
            shared == self.trigger(),
    {
        Trig { triggered: same_cell(&self.trig.triggered), event: same_cell(&self.trig.event) }
    }

    /// Checks whether the widget was triggered: true if a spawned job raised
    /// the flag and no call has seen it yet. Reading clears the flag.
    pub fn triggered(&self) -> bool {
        self.trig.triggered()
    }

    /// The latest event that a spawned job stored and no call has seen yet,
    /// or the sentinel. Reading clears the cell.
    pub fn event(&self) -> Event {
        self.trig.event()
    }
}

/// `Arc::clone`: the result is another pointer to the allocation that `cell`
/// points to, so what it points to is what `cell` points to. This is taken
/// from the documentation of `Arc`, not proved.
#[verifier::external_body]
fn same_cell<T>(cell: &Arc<T>) -> (other: Arc<T>)
    ensures
        other == *cell,
{
    Arc::clone(cell)
}

} // verus!
