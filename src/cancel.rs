use vstd::prelude::*;

verus! {

/// Where a work item stands, as its cancellation handle records it.
#[derive(Clone, Copy, Debug, PartialEq, Eq, Structural)]
pub enum TaskPhase {
    /// Queued, not picked up yet; an abort is remembered until a worker starts it.
    Queued { abort_requested: bool },
    /// A worker thread, named by its identity, is running the target.
    Running { thread: u64 },
    /// The outcome has been written; the handle is inert.
    Finished,
}

/// What an abort does in each phase: it is remembered before the start, and
/// otherwise leaves the phase as it is.
pub open spec fn after_abort(p: TaskPhase) -> TaskPhase {
    match p {
        TaskPhase::Queued { .. } => TaskPhase::Queued { abort_requested: true },
        _ => p,
    }
}

/// The thread to interrupt on abort: only the one running the target.
pub open spec fn interrupt_of(p: TaskPhase) -> Option<u64> {
    match p {
        TaskPhase::Running { thread } => Some(thread),
        _ => None,
    }
}

/// Whether a worker starting the item runs its target, rather than report
/// cancellation at once.
pub open spec fn runs_target(p: TaskPhase) -> bool {
    match p {
        TaskPhase::Queued { abort_requested } => !abort_requested,
        _ => false,
    }
}

pub open spec fn after_begin(p: TaskPhase, thread: u64) -> TaskPhase {
    if runs_target(p) {
        TaskPhase::Running { thread }
    } else {
        TaskPhase::Finished
    }
}

/// Shared cancellation token of one work item.
pub struct BlockingTaskCtl {
    phase: TaskPhase,
}

impl BlockingTaskCtl {
    pub closed spec fn phase(&self) -> TaskPhase {
        self.phase
    }

    pub fn new() -> (r: Self)
        ensures
            r.phase() == (TaskPhase::Queued { abort_requested: false }),
    {
        BlockingTaskCtl { phase: TaskPhase::Queued { abort_requested: false } }
    }

    pub fn current(&self) -> (r: TaskPhase)
        ensures
            r == self.phase(),
    {
        self.phase
    }

    /// Requests cancellation. Returns the thread to interrupt when the target
    /// is running; before the start the request is remembered, after the end
    /// it does nothing. Safe to repeat.
    pub fn abort(&mut self) -> (r: Option<u64>)
        ensures
            final(self).phase() == after_abort(old(self).phase()),
            r == interrupt_of(old(self).phase()),
    {
        match self.phase {
            TaskPhase::Queued { .. } => {
                self.phase = TaskPhase::Queued { abort_requested: true };
                None
            },
            TaskPhase::Running { thread } => Some(thread),
            TaskPhase::Finished => None,
        }
    }

    /// A worker thread picks the item up. Returns whether it is to run the
    /// target; `false` means an abort came first and the item is to be
    /// reported as cancelled.
    pub fn begin(&mut self, thread: u64) -> (r: bool)
        requires
            old(self).phase() is Queued,
        ensures
            r == runs_target(old(self).phase()),
            final(self).phase() == after_begin(old(self).phase(), thread),
    {
        match self.phase {
            TaskPhase::Queued { abort_requested: false } => {
                self.phase = TaskPhase::Running { thread };
                true
            },
            _ => {
                self.phase = TaskPhase::Finished;
                false
            },
        }
    }

    /// The outcome has been written: later aborts do nothing.
    pub fn finish(&mut self)
        ensures
            final(self).phase() == TaskPhase::Finished,
    {
        self.phase = TaskPhase::Finished;
    }
}

/// An event on a cancellation handle.
pub enum CtlEvent {
    Abort,
    Begin(u64),
    Finish,
}

/// The handle's phase after an event; a start is only possible while queued.
pub open spec fn ctl_step(p: TaskPhase, e: CtlEvent) -> TaskPhase {
    match e {
        CtlEvent::Abort => after_abort(p),
        CtlEvent::Begin(t) => if p is Queued {
            after_begin(p, t)
        } else {
            p
        },
        CtlEvent::Finish => TaskPhase::Finished,
    }
}

/// How many times the target is started over a run of events.
pub open spec fn target_starts(p: TaskPhase, events: Seq<CtlEvent>) -> nat
    decreases events.len(),
{
    if events.len() == 0 {
        0
    } else {
        let here: nat = match events[0] {
            CtlEvent::Begin(_) => if p is Queued && runs_target(p) {
                1
            } else {
                0
            },
            _ => 0,
        };
        here + target_starts(ctl_step(p, events[0]), events.drop_first())
    }
}

proof fn lemma_no_start_once_left_queue(p: TaskPhase, events: Seq<CtlEvent>)
    requires
        !(p is Queued),
    ensures
        target_starts(p, events) == 0,
    decreases events.len(),
{
    if events.len() > 0 {
        lemma_no_start_once_left_queue(ctl_step(p, events[0]), events.drop_first());
    }
}

/// At most one execution: over any run of aborts, starts and completions, the
/// target of one work item is started at most once.
pub proof fn lemma_target_starts_at_most_once(p: TaskPhase, events: Seq<CtlEvent>)
    ensures
        target_starts(p, events) <= 1,
    decreases events.len(),
{
    if events.len() > 0 {
        let next = ctl_step(p, events[0]);
        if next is Queued {
            lemma_target_starts_at_most_once(next, events.drop_first());
        } else {
            lemma_no_start_once_left_queue(next, events.drop_first());
        }
    }
}

/// Cancellation before the start: an abort on a queued item, whatever else
/// was requested, makes the worker skip the target and report cancellation;
/// no thread is interrupted for it.
pub proof fn lemma_abort_before_start_cancels(p: TaskPhase, thread: u64)
    requires
        p is Queued,
    ensures
        interrupt_of(p) is None,
        !runs_target(after_abort(p)),
        after_begin(after_abort(p), thread) == TaskPhase::Finished,
{
}

/// Cancellation after completion: an abort on a finished item interrupts no
/// thread and leaves the handle finished, however often it is repeated.
pub proof fn lemma_abort_after_finish_is_noop(p: TaskPhase)
    requires
        p == TaskPhase::Finished,
    ensures
        interrupt_of(p) is None,
        after_abort(p) == p,
        after_abort(after_abort(p)) == p,
{
}

} // verus!
