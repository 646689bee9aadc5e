use vstd::prelude::*;

use crossbeam_channel::{Receiver, Sender};
use std::sync::atomic::{AtomicIsize, AtomicUsize, Ordering};
use std::sync::Arc;

verus! {

#[verifier::external_type_specification]
#[verifier::external_body]
#[verifier::reject_recursive_types(T)]
pub struct ExReceiver<T>(Receiver<T>);

/// Both ends of one unbounded crossbeam channel. Only `unbounded_queue` makes
/// one, so the receiver held here always belongs to the same channel as the
/// sender: as long as the queue lives, the channel has a receiver.
#[verifier::external_body]
#[verifier::reject_recursive_types(T)]
pub struct TaskQueue<T> {
    tx: Sender<T>,
    rx: Receiver<T>,
}

/// Relies on crossbeam_channel::unbounded: a fresh unbounded FIFO channel,
/// kept with both of its ends.
#[verifier::external_body]
fn unbounded_queue<T>() -> TaskQueue<T> {
    let (tx, rx) = crossbeam_channel::unbounded();
    TaskQueue { tx, rx }
}

/// Relies on crossbeam_channel::Receiver::clone: another consuming end of the
/// queue's channel.
#[verifier::external_body]
fn share_receiver<T>(q: &TaskQueue<T>) -> Receiver<T> {
    q.rx.clone()
}

/// Relies on crossbeam_channel::Sender::send: on an unbounded channel it
/// fails only once every receiver is gone, which cannot happen while the
/// queue holds its own receiver.
#[verifier::external_body]
fn send_item<T>(q: &TaskQueue<T>, msg: T) -> (r: Result<(), T>)
    ensures
        r is Ok,
{
    q.tx.send(msg).map_err(|e| e.0)
}

/// Relies on crossbeam_channel::Receiver::recv_timeout: the next message, or
/// nothing when none came within `secs` seconds or every sender is gone.
#[verifier::external_body]
fn recv_item<T>(q: &Receiver<T>, secs: u64) -> Option<T> {
    q.recv_timeout(std::time::Duration::from_secs(secs)).ok()
}

/// Error of a submission to a pool whose queue was closed; it hands the work
/// item back.
pub struct QueueClosed<T>(pub T);

/// Whether a submission asks for one more worker: the load before it was not
/// negative (no idle worker is waiting for it) and the live count it saw was
/// under the bound.
pub fn wants_worker(load_before: isize, live_seen: usize, max_threads: usize) -> (r: bool)
    ensures
        r == (load_before >= 0 && live_seen < max_threads),
{
    load_before >= 0 && live_seen < max_threads
}

/// Whether a slot reservation is kept: the count before the increment was
/// under the bound. A reservation that is not kept is rolled back.
pub fn slot_granted(count_before: usize, max_threads: usize) -> (r: bool)
    ensures
        r == (count_before < max_threads),
{
    count_before < max_threads
}

/// Elastic pool of blocking workers fed by an unbounded queue.
#[verifier::reject_recursive_types(T)]
pub struct BlockingRunnerPool<T> {
    queue: Option<TaskQueue<T>>,
    threads: Arc<AtomicUsize>,
    tmax: usize,
    idle_timeout: u64,
    load: Arc<AtomicIsize>,
}

/// The consuming side of one worker thread.
#[verifier::reject_recursive_types(T)]
pub struct Worker<T> {
    queue: Receiver<T>,
    timeout: u64,
    load: Arc<AtomicIsize>,
    tcount: Arc<AtomicUsize>,
    retired: bool,
}

impl<T> BlockingRunnerPool<T> {
    pub closed spec fn max_threads(&self) -> usize {
        self.tmax
    }

    pub closed spec fn idle_timeout(&self) -> u64 {
        self.idle_timeout
    }

    pub closed spec fn is_closed(&self) -> bool {
        self.queue is None
    }

    /// A pool of at most `max_threads` workers, each retiring after
    /// `idle_timeout` seconds without work.
    pub fn new(max_threads: usize, idle_timeout: u64) -> (r: Self)
        requires
            max_threads >= 1,
        ensures
            r.max_threads() == max_threads,
            r.idle_timeout() == idle_timeout,
            !r.is_closed(),
    {
        BlockingRunnerPool {
            queue: Some(unbounded_queue()),
            threads: Arc::new(AtomicUsize::new(0)),
            tmax: max_threads,
            idle_timeout,
            load: Arc::new(AtomicIsize::new(0)),
        }
    }

    pub fn max_threads_of(&self) -> (r: usize)
        ensures
            r == self.max_threads(),
    {
        self.tmax
    }

    pub fn idle_timeout_of(&self) -> (r: u64)
        ensures
            r == self.idle_timeout(),
    {
        self.idle_timeout
    }

    pub fn closed(&self) -> (r: bool)
        ensures
            r == self.is_closed(),
    {
        self.queue.is_none()
    }

    /// Shuts the queue down: later submissions fail, and workers retire once
    /// they have drained what is already queued.
    pub fn close(&mut self)
        ensures
            final(self).is_closed(),
            final(self).max_threads() == old(self).max_threads(),
            final(self).idle_timeout() == old(self).idle_timeout(),
    {
        self.queue = None;
    }

    /// Reserves one worker slot: increment first, then roll back if the bound
    /// was already reached, so racing callers never keep more than the bound.
    fn reserve_slot(&self, queue: &TaskQueue<T>) -> (r: Option<Worker<T>>)
        ensures
            r matches Some(w) ==> !w.is_retired() && w.timeout_secs() == self.idle_timeout(),
    {
        let before = self.threads.fetch_add(1, Ordering::Release);
        if !slot_granted(before, self.tmax) {
            self.threads.fetch_sub(1, Ordering::Release);
            return None;
        }
        Some(Worker {
            queue: share_receiver(queue),
            timeout: self.idle_timeout,
            load: self.load.clone(),
            tcount: self.threads.clone(),
            retired: false,
        })
    }

    /// Submits a work item. On a closed queue the item comes back in
    /// `QueueClosed`; on an open one it is always queued, and where the load
    /// calls for one more worker and a slot could be reserved, the worker to
    /// start is returned.
    pub fn run(&self, task: T) -> (r: Result<Option<Worker<T>>, QueueClosed<T>>)
        ensures
            self.is_closed() ==> (r matches Err(QueueClosed(t)) && t == task),
            !self.is_closed() ==> r is Ok,
            r matches Ok(Some(w)) ==> !w.is_retired() && w.timeout_secs() == self.idle_timeout(),
    {
        let threads = self.threads.load(Ordering::Acquire);
        match &self.queue {
            None => Err(QueueClosed(task)),
            Some(q) => match send_item(q, task) {
                Err(t) => Err(QueueClosed(t)),
                Ok(()) => {
                    let load_before = self.load.fetch_add(1, Ordering::Release);
                    if wants_worker(load_before, threads, self.tmax) {
                        Ok(self.reserve_slot(q))
                    } else {
                        Ok(None)
                    }
                },
            },
        }
    }
}

impl<T> Worker<T> {
    pub closed spec fn is_retired(&self) -> bool {
        self.retired
    }

    pub closed spec fn timeout_secs(&self) -> u64 {
        self.timeout
    }

    pub fn retired(&self) -> (r: bool)
        ensures
            r == self.is_retired(),
    {
        self.retired
    }

    /// Waits up to the idle timeout for the next work item. When none comes
    /// (timeout, or the queue was closed and drained) the worker retires and
    /// gives its slot back, exactly once.
    pub fn next_task(&mut self) -> (r: Option<T>)
        requires
            !old(self).is_retired(),
        ensures
            final(self).is_retired() == (r is None),
            final(self).timeout_secs() == old(self).timeout_secs(),
    {
        self.load.fetch_sub(1, Ordering::Release);
        let res = recv_item(&self.queue, self.timeout);
        self.load.fetch_add(1, Ordering::Release);
        if res.is_none() {
            self.tcount.fetch_sub(1, Ordering::Release);
            self.retired = true;
        }
        res
    }
}

/// The worker-slot counter as the atomic steps see it: `counter` is the shared
/// count, `live` the slots held by running workers, `pending` the reservations
/// that overshot the bound and are yet to be rolled back.
pub struct SlotCount {
    pub counter: int,
    pub live: int,
    pub pending: int,
}

/// One atomic step on the slot counter.
pub enum SlotStep {
    /// Increment, keeping the slot when the count before was under the bound.
    Reserve,
    /// Take back an overshooting reservation.
    Rollback,
    /// A worker gives its slot back.
    Retire,
}

pub open spec fn slots_consistent(s: SlotCount) -> bool {
    s.live >= 0 && s.pending >= 0 && s.counter == s.live + s.pending
}

pub open spec fn step_enabled(s: SlotCount, step: SlotStep) -> bool {
    match step {
        SlotStep::Reserve => true,
        SlotStep::Rollback => s.pending > 0,
        SlotStep::Retire => s.live > 0,
    }
}

pub open spec fn slot_step(s: SlotCount, step: SlotStep, max_threads: int) -> SlotCount {
    match step {
        SlotStep::Reserve => if s.counter < max_threads {
            SlotCount { counter: s.counter + 1, live: s.live + 1, pending: s.pending }
        } else {
            SlotCount { counter: s.counter + 1, live: s.live, pending: s.pending + 1 }
        },
        SlotStep::Rollback => SlotCount { counter: s.counter - 1, live: s.live, pending: s.pending - 1 },
        SlotStep::Retire => SlotCount { counter: s.counter - 1, live: s.live - 1, pending: s.pending },
    }
}

pub open spec fn steps_enabled(s: SlotCount, steps: Seq<SlotStep>, max_threads: int) -> bool
    decreases steps.len(),
{
    steps.len() == 0 || (step_enabled(s, steps[0]) && steps_enabled(
        slot_step(s, steps[0], max_threads),
        steps.drop_first(),
        max_threads,
    ))
}

pub open spec fn run_slot_steps(s: SlotCount, steps: Seq<SlotStep>, max_threads: int) -> SlotCount
    decreases steps.len(),
{
    if steps.len() == 0 {
        s
    } else {
        run_slot_steps(slot_step(s, steps[0], max_threads), steps.drop_first(), max_threads)
    }
}

pub open spec fn no_slots() -> SlotCount {
    SlotCount { counter: 0, live: 0, pending: 0 }
}

pub open spec fn reserves(k: nat) -> Seq<SlotStep> {
    Seq::new(k, |i: int| SlotStep::Reserve)
}

proof fn lemma_steps_keep_bound(s: SlotCount, steps: Seq<SlotStep>, max_threads: int)
    requires
        slots_consistent(s),
        s.live <= max_threads,
        steps_enabled(s, steps, max_threads),
    ensures
        slots_consistent(run_slot_steps(s, steps, max_threads)),
        run_slot_steps(s, steps, max_threads).live <= max_threads,
    decreases steps.len(),
{
    if steps.len() > 0 {
        lemma_steps_keep_bound(slot_step(s, steps[0], max_threads), steps.drop_first(), max_threads);
    }
}

/// Pool bound: whatever interleaving of reservations, roll-backs and
/// retirements the submitters and workers perform on the shared counter,
/// the number of live workers never exceeds the bound.
pub proof fn lemma_live_workers_bounded(steps: Seq<SlotStep>, max_threads: int)
    requires
        max_threads >= 1,
        steps_enabled(no_slots(), steps, max_threads),
    ensures
        run_slot_steps(no_slots(), steps, max_threads).live <= max_threads,
        slots_consistent(run_slot_steps(no_slots(), steps, max_threads)),
{
    lemma_steps_keep_bound(no_slots(), steps, max_threads);
}

/// Idle retirement and regrowth: a retiring worker lowers the live count by
/// one, and once no reservation is pending, a burst of `k` reservations grows
/// the pool back to `min(live + k, max_threads)` workers.
pub proof fn lemma_retire_then_regrow(s: SlotCount, k: nat, max_threads: int)
    requires
        slots_consistent(s),
        s.pending == 0,
        s.live <= max_threads,
    ensures
        s.live > 0 ==> slot_step(s, SlotStep::Retire, max_threads).live == s.live - 1,
        run_slot_steps(s, reserves(k), max_threads).live == if s.live + k <= max_threads {
            s.live + k
        } else {
            max_threads
        },
    decreases k,
{
    if k > 0 {
        let next = slot_step(s, SlotStep::Reserve, max_threads);
        assert(reserves(k).drop_first() =~= reserves((k - 1) as nat));
        if s.counter < max_threads {
            lemma_retire_then_regrow(next, (k - 1) as nat, max_threads);
        } else {
            lemma_burst_at_bound(next, (k - 1) as nat, max_threads);
        }
    }
}

proof fn lemma_burst_at_bound(s: SlotCount, k: nat, max_threads: int)
    requires
        slots_consistent(s),
        s.live == max_threads,
    ensures
        run_slot_steps(s, reserves(k), max_threads).live == max_threads,
    decreases k,
{
    if k > 0 {
        assert(reserves(k).drop_first() =~= reserves((k - 1) as nat));
        lemma_burst_at_bound(slot_step(s, SlotStep::Reserve, max_threads), (k - 1) as nat, max_threads);
    }
}

} // verus!
