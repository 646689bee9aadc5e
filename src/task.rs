use vstd::prelude::*;

use crate::cancel::{after_abort, after_begin, interrupt_of, runs_target, BlockingTaskCtl, TaskPhase};

verus! {

/// The two result slots written for an outcome: the error flag, then the
/// returned value or the raised error.
pub open spec fn outcome_slots<V>(outcome: Result<V, V>) -> (bool, V) {
    match outcome {
        Ok(v) => (false, v),
        Err(e) => (true, e),
    }
}

pub fn result_slots<V>(outcome: Result<V, V>) -> (r: (bool, V))
    ensures
        r == outcome_slots(outcome),
{
    match outcome {
        Ok(v) => (false, v),
        Err(e) => (true, e),
    }
}

/// One-shot completion sink of a work item: a two-slot result, written once,
/// and the completion signal, raised only after the result is in place.
pub struct Completion<V> {
    result: Option<(bool, V)>,
    signaled: bool,
}

impl<V> Completion<V> {
    /// The sink is signaled exactly when its result is written.
    pub closed spec fn wf(&self) -> bool {
        self.signaled == self.result is Some
    }

    pub closed spec fn is_signaled(&self) -> bool {
        self.signaled
    }

    pub closed spec fn slots(&self) -> Option<(bool, V)> {
        self.result
    }

    pub fn new() -> (r: Self)
        ensures
            r.wf(),
            !r.is_signaled(),
            r.slots() is None,
    {
        Completion { result: None, signaled: false }
    }

    /// Writes the outcome into the slots, then raises the signal.
    pub fn complete(&mut self, outcome: Result<V, V>)
        requires
            old(self).wf(),
            !old(self).is_signaled(),
        ensures
            final(self).wf(),
            final(self).is_signaled(),
            final(self).slots() == Some(outcome_slots(outcome)),
    {
        self.result = Some(result_slots(outcome));
        self.signaled = true;
    }

    pub fn signaled(&self) -> (r: bool)
        ensures
            r == self.is_signaled(),
    {
        self.signaled
    }

    /// The written slots, once the signal is up.
    pub fn get(&self) -> (r: Option<&(bool, V)>)
        requires
            self.wf(),
        ensures
            r is Some == self.is_signaled(),
            r matches Some(pair) ==> self.slots() == Some(*pair),
    {
        match &self.result {
            Some(pair) => Some(pair),
            None => None,
        }
    }

    /// Takes the written slots out of a signaled sink.
    pub fn into_slots(self) -> (r: Option<(bool, V)>)
        ensures
            r == self.slots(),
    {
        self.result
    }
}

/// Completion visibility: a signaled sink always holds its result; `complete`
/// writes the error flag and the value of one outcome as a matching pair.
pub proof fn lemma_signaled_result_is_complete<V>(c: Completion<V>)
    requires
        c.wf(),
        c.is_signaled(),
    ensures
        c.slots() is Some,
{
}

/// Shared state of one work item: its cancellation handle and its completion
/// sink. The worker stamps its identity, runs the target (or not, when an
/// abort came first), then settles the outcome.
pub struct TaskState<V> {
    ctl: BlockingTaskCtl,
    sink: Completion<V>,
}

impl<V> TaskState<V> {
    /// The sink is well formed, and once it is signaled the handle is inert.
    pub closed spec fn wf(&self) -> bool {
        &&& self.sink.wf()
        &&& self.sink.is_signaled() ==> self.ctl.phase() == TaskPhase::Finished
        &&& self.ctl.phase() is Queued ==> !self.sink.is_signaled()
    }

    pub closed spec fn phase(&self) -> TaskPhase {
        self.ctl.phase()
    }

    pub closed spec fn is_done(&self) -> bool {
        self.sink.is_signaled()
    }

    pub closed spec fn slots(&self) -> Option<(bool, V)> {
        self.sink.slots()
    }

    pub fn new() -> (r: Self)
        ensures
            r.wf(),
            r.phase() == (TaskPhase::Queued { abort_requested: false }),
            !r.is_done(),
            r.slots() is None,
    {
        TaskState { ctl: BlockingTaskCtl::new(), sink: Completion::new() }
    }

    /// Requests cancellation; returns the thread to interrupt, if the target
    /// is running. The written result, if any, is left alone.
    pub fn abort(&mut self) -> (r: Option<u64>)
        requires
            old(self).wf(),
        ensures
            final(self).wf(),
            final(self).phase() == after_abort(old(self).phase()),
            r == interrupt_of(old(self).phase()),
            final(self).is_done() == old(self).is_done(),
            final(self).slots() == old(self).slots(),
    {
        self.ctl.abort()
    }

    /// The worker on `thread` picks the item up: `true` to run the target.
    /// On `false` the item is settled at once with `cancelled` as its error.
    pub fn begin(&mut self, thread: u64, cancelled: V) -> (r: bool)
        requires
            old(self).wf(),
            old(self).phase() is Queued,
        ensures
            final(self).wf(),
            r == runs_target(old(self).phase()),
            final(self).phase() == after_begin(old(self).phase(), thread),
            r ==> !final(self).is_done(),
            !r ==> final(self).is_done() && final(self).slots() == Some((true, cancelled)),
    {
        if self.ctl.begin(thread) {
            true
        } else {
            self.sink.complete(Err(cancelled));
            false
        }
    }

    /// The target returned or raised: the handle goes inert, then the result
    /// is written and signaled.
    pub fn settle(&mut self, outcome: Result<V, V>)
        requires
            old(self).wf(),
            old(self).phase() is Running,
        ensures
            final(self).wf(),
            final(self).phase() == TaskPhase::Finished,
            final(self).is_done(),
            final(self).slots() == Some(outcome_slots(outcome)),
    {
        self.ctl.finish();
        self.sink.complete(outcome);
    }

    pub fn current(&self) -> (r: TaskPhase)
        ensures
            r == self.phase(),
    {
        self.ctl.current()
    }

    pub fn done(&self) -> (r: bool)
        ensures
            r == self.is_done(),
    {
        self.sink.signaled()
    }

    /// The written slots, once the item is done.
    pub fn get(&self) -> (r: Option<&(bool, V)>)
        requires
            self.wf(),
        ensures
            r is Some == self.is_done(),
            r matches Some(pair) ==> self.slots() == Some(*pair),
    {
        self.sink.get()
    }
}

/// A work item observed as done holds its whole result, and its cancellation
/// handle is inert: no later abort interrupts any thread.
pub proof fn lemma_done_item_is_settled<V>(t: TaskState<V>)
    requires
        t.wf(),
        t.is_done(),
    ensures
        t.slots() is Some,
        t.phase() == TaskPhase::Finished,
        interrupt_of(t.phase()) is None,
        after_abort(t.phase()) == t.phase(),
{
}

} // verus!
