//! The round-robin scheduler.
//!
//! The scheduler owns one ready queue. Contracts speak of it as a sequence
//! of handles, head first; the spec functions below say what each operation
//! does to such a sequence.

use crate::task::SimpleTask;
use std::collections::VecDeque;
use std::sync::Arc;
use vstd::prelude::*;

verus! {

/// The queue once `task` has joined at its tail.
pub open spec fn enqueued<H>(queue: Seq<H>, task: H) -> Seq<H> {
    queue.push(task)
}

/// The task that runs next: the one that has waited longest.
pub open spec fn head<H>(queue: Seq<H>) -> Option<H> {
    if queue.len() == 0 {
        None
    } else {
        Some(queue[0])
    }
}

/// The queue once its head has left.
pub open spec fn without_head<H>(queue: Seq<H>) -> Seq<H> {
    if queue.len() == 0 {
        queue
    } else {
        queue.drop_first()
    }
}

/// Whether a task that stops running goes back to the head of the queue: it
/// does when it was forced off the processor with ticks still left.
pub open spec fn keeps_its_turn(slice: int, preempt: bool) -> bool {
    slice > 0 && preempt
}

/// The queue once a task that stopped running with `slice` ticks left has
/// come back: at the head if it keeps its turn, at the tail if not.
pub open spec fn requeued<H>(queue: Seq<H>, task: H, slice: int, preempt: bool) -> Seq<H> {
    if keeps_its_turn(slice, preempt) {
        seq![task] + queue
    } else {
        queue.push(task)
    }
}

/// Whether the tick that found `before` ticks on the counter used up the
/// slice.
pub open spec fn slice_spent(before: int) -> bool {
    before <= 1
}

/// What a search for `task` may do to the queue. Either it comes back with
/// the task, and one entry equal to it has left the queue; or it comes back
/// with nothing, and the queue is as it was. A task that the queue does not
/// hold is never found.
pub open spec fn removal<H>(before: Seq<H>, task: H, after: Seq<H>, found: Option<H>) -> bool {
    &&& match found {
        Some(t) => t == task && exists|i: int|
            0 <= i < before.len() && #[trigger] before[i] == task && after == before.remove(i),
        None => after == before,
    }
    &&& !before.contains(task) ==> found is None
}

/// `Arc::ptr_eq`: whether two handles point to one allocation. Two handles
/// that do are handles to one task, so they are equal; of two that do not,
/// nothing is claimed.
#[verifier::external_body]
fn same_task<T>(a: &Arc<SimpleTask<T>>, b: &Arc<SimpleTask<T>>) -> (same: bool)
    ensures
        same ==> a == b,
{
    Arc::ptr_eq(a, b)
}

/// A round-robin scheduler with time slices.
///
/// A task that is added joins the tail of the ready queue; the task that
/// runs next is taken from its head. Each timer tick takes one tick off the
/// running task's slice. A task that was forced off the processor with ticks
/// left goes back to the head; any other goes to the tail with a fresh slice.
///
/// The scheduler does not lock: one context at a time may call it.
pub struct SimpleScheduler<T> {
    ready_queue: VecDeque<Arc<SimpleTask<T>>>,
}

impl<T> View for SimpleScheduler<T> {
    type V = Seq<Arc<SimpleTask<T>>>;

    /// The ready queue, head first.
    closed spec fn view(&self) -> Seq<Arc<SimpleTask<T>>> {
        self.ready_queue@
    }
}

impl<T> SimpleScheduler<T> {
    /// An empty scheduler.
    pub fn new() -> (scheduler: Self)
        ensures
            scheduler@ == Seq::<Arc<SimpleTask<T>>>::empty(),
    {
        Self { ready_queue: VecDeque::new() }
    }

    /// The name of this scheduler.
    pub fn scheduler_name() -> (name: &'static str)
        ensures
            name@ == "Simple"@,
    {
        "Simple"
    }

    /// Nothing is left to prepare once the scheduler is built: the queue
    /// stays as it is, however often this is called.
    pub fn init(&mut self)
        ensures
            final(self)@ == old(self)@,
    {
    }

    /// Puts `task` at the tail of the queue. The entries before it keep
    /// their places.
    pub fn add_task(&mut self, task: Arc<SimpleTask<T>>)
        ensures
            final(self)@ == enqueued(old(self)@, task),
    {
        self.ready_queue.push_back(task);
    }

    /// The place of the first entry that is the very handle `task`, if there
    /// is one. Pointers are compared, and what that comparison says of two
    /// handles is known only one way: handles to one allocation are equal.
    /// So a place that comes back holds an entry equal to `task`, and none
    /// comes back where no entry is equal to it.
    fn position(&self, task: &Arc<SimpleTask<T>>) -> (found: Option<usize>)
        ensures
            found matches Some(i) ==> i < self@.len() && self@[i as int] == *task,
            !self@.contains(*task) ==> found is None,
    {
        let mut idx: usize = 0;
        while idx < self.ready_queue.len()
            invariant
                idx <= self@.len(),
                self@ == self.ready_queue@,
            decreases self@.len() - idx,
        {
            if same_task(&self.ready_queue[idx], task) {
                return Some(idx);
            }
            idx += 1;
        }
        None
    }

    /// Takes the entry at place `found` out of the queue. With no place, or
    /// one past the end, nothing is taken and the queue stays as it is.
    pub fn take_at(&mut self, found: Option<usize>) -> (taken: Option<Arc<SimpleTask<T>>>)
        ensures
            match found {
                Some(i) if i < old(self)@.len() => {
                    &&& taken == Some(old(self)@[i as int])
                    &&& final(self)@ == old(self)@.remove(i as int)
                },
                _ => taken is None && final(self)@ == old(self)@,
            },
    {
        match found {
            Some(idx) => self.ready_queue.remove(idx),
            None => None,
        }
    }

    /// Looks for the very handle `task` in the queue, by identity and not by
    /// payload, and takes the first such entry out.
    ///
    /// Which entries are that handle is settled by comparing pointers, which
    /// no contract can foretell. What holds in every case: a handle that
    /// comes back is `task`, and one entry equal to it has left the queue;
    /// when nothing comes back the queue is untouched; and a task that the
    /// queue does not hold is never found.
    pub fn remove_task(&mut self, task: &Arc<SimpleTask<T>>) -> (found: Option<Arc<SimpleTask<T>>>)
        ensures
            removal(old(self)@, *task, final(self)@, found),
    {
        let place = self.position(task);
        self.take_at(place)
    }

    /// Takes the head of the queue: the task that has waited longest. An
    /// empty queue gives nothing, and stays empty.
    pub fn pick_next_task(&mut self) -> (next: Option<Arc<SimpleTask<T>>>)
        ensures
            next == head(old(self)@),
            final(self)@ == without_head(old(self)@),
    {
        self.ready_queue.pop_front()
    }

    /// Brings back a task that stopped running with `slice` ticks left on
    /// its counter. If it was forced off (`preempt`) with ticks left it goes
    /// to the head of the queue and keeps them; otherwise its counter is set
    /// back to the full slice and it goes to the tail.
    pub fn requeue(&mut self, prev: Arc<SimpleTask<T>>, slice: isize, preempt: bool)
        ensures
            final(self)@ == requeued(old(self)@, prev, slice as int, preempt),
    {
        if slice > 0 && preempt {
            self.ready_queue.push_front(prev)
        } else {
            prev.reset_time_slice();
            self.ready_queue.push_back(prev)
        }
    }

    /// Brings back the task that has just stopped running: reads its
    /// counter and requeues it by what was read.
    ///
    /// The counter is read from an atomic cell, so the contract holds for
    /// whatever value was there: the task is back in the queue, at the head
    /// or at the tail, and at the head only if it was forced off.
    pub fn put_prev_task(&mut self, prev: Arc<SimpleTask<T>>, preempt: bool)
        ensures
            exists|slice: isize|
                final(self)@ == #[trigger] requeued(old(self)@, prev, slice as int, preempt),
            !preempt ==> final(self)@ == old(self)@.push(prev),
    {
        let slice = prev.times_slice();
        self.requeue(prev, slice, preempt)
    }

    /// Whether a tick that found `before` ticks on the counter used up the
    /// slice, so that the task has to give way.
    pub fn tick_spends(before: isize) -> (spent: bool)
        ensures
            spent == slice_spent(before as int),
    {
        before <= 1
    }

    /// One timer tick for the running task `current`: takes one tick off its
    /// counter and says whether the slice is used up, which [`Self::tick_spends`]
    /// settles from the number that the counter held. That number comes out
    /// of an atomic cell, so the contract says only what holds whatever it
    /// was: the queue is not touched.
    pub fn task_tick(&mut self, current: &Arc<SimpleTask<T>>) -> (spent: bool)
        ensures
            final(self)@ == old(self)@,
    {
        let before = current.take_tick();
        Self::tick_spends(before)
    }

    /// This scheduler knows no priorities: the answer is always `false`, and
    /// the queue stays as it is.
    pub fn set_priority(&mut self, task: &Arc<SimpleTask<T>>, prio: isize) -> (changed: bool)
        ensures
            !changed,
            final(self)@ == old(self)@,
    {
        false
    }
}

} // verus!
