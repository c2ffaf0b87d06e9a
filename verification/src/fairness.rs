//! What the scheduler's rules add up to: the order in which tasks run, how
//! long a slice lasts, and that no task is lost or doubled on the way.
//!
//! Each statement is over the spec functions that the scheduler's own
//! contracts use, so it holds of every run of the scheduler.

use crate::scheduler::{
    enqueued, head, keeps_its_turn, removal, requeued, slice_spent, without_head,
};
use crate::task::MAX_TIME_SLICE;
use vstd::prelude::*;

verus! {

/// Tasks run in the order in which they were added: three tasks added to an
/// empty queue are picked first, second, third, and then nothing is left.
pub proof fn lemma_first_in_first_out<H>(a: H, b: H, c: H)
    ensures
        ({
            let q3 = enqueued(enqueued(enqueued(Seq::<H>::empty(), a), b), c);
            let q2 = without_head(q3);
            let q1 = without_head(q2);
            let q0 = without_head(q1);
            &&& head(q3) == Some(a)
            &&& head(q2) == Some(b)
            &&& head(q1) == Some(c)
            &&& head(q0) == None::<H>
            &&& q0 == Seq::<H>::empty()
        }),
{
    let q3 = enqueued(enqueued(enqueued(Seq::<H>::empty(), a), b), c);
    let q2 = without_head(q3);
    let q1 = without_head(q2);
    let q0 = without_head(q1);
    assert(q2 =~= seq![b, c]);
    assert(q1 =~= seq![c]);
    assert(q0 =~= Seq::<H>::empty());
}

/// A task that joins a queue in which others wait does not get ahead of any
/// of them: the head stays the head, and what follows keeps its order, with
/// the newcomer last.
pub proof fn lemma_newcomer_waits<H>(queue: Seq<H>, task: H)
    requires
        queue.len() > 0,
    ensures
        head(enqueued(queue, task)) == head(queue),
        without_head(enqueued(queue, task)) == enqueued(without_head(queue), task),
{
    assert(without_head(enqueued(queue, task)) =~= enqueued(without_head(queue), task));
}

/// The queue after `n` picks.
pub open spec fn after_picks<H>(queue: Seq<H>, n: nat) -> Seq<H>
    decreases n,
{
    if n == 0 {
        queue
    } else {
        after_picks(without_head(queue), (n - 1) as nat)
    }
}

/// Picking again and again walks the queue from its head: after `n` picks
/// the next one gives the entry at place `n`, and nothing once the queue has
/// run out.
pub proof fn lemma_picks_follow_queue<H>(queue: Seq<H>, n: nat)
    ensures
        after_picks(queue, n) == if n <= queue.len() {
            queue.skip(n as int)
        } else {
            Seq::<H>::empty()
        },
        head(after_picks(queue, n)) == if n < queue.len() {
            Some(queue[n as int])
        } else {
            None::<H>
        },
    decreases n,
{
    if n == 0 {
        assert(queue.skip(0) =~= queue);
    } else {
        let rest = without_head(queue);
        lemma_picks_follow_queue(rest, (n - 1) as nat);
        if queue.len() == 0 {
            assert(after_picks(queue, n) =~= Seq::<H>::empty());
        } else if n <= queue.len() {
            assert(rest.skip(n - 1) =~= queue.skip(n as int));
        }
    }
}

/// The number that the `n`-th tick finds on a counter which was full before
/// the first tick, when each tick takes one off and nothing else writes to
/// the counter in between.
pub open spec fn found_by_tick(n: int) -> int {
    MAX_TIME_SLICE as int - (n - 1)
}

/// A full slice lasts exactly `MAX_TIME_SLICE` ticks: the tick with that
/// number is the first to report the slice as spent.
pub proof fn lemma_full_slice_lasts(n: int)
    requires
        1 <= n <= MAX_TIME_SLICE,
    ensures
        slice_spent(found_by_tick(n)) <==> n == MAX_TIME_SLICE,
{
}

/// Once a slice is spent it stays spent: every later tick reports it too,
/// until the counter is set back.
pub proof fn lemma_spent_stays_spent(before: int, later: int)
    requires
        slice_spent(before),
        later <= before,
    ensures
        slice_spent(later),
{
}

/// A task that was forced off the processor with ticks left runs next,
/// ahead of every task that waits, and displaces none of them: once it has
/// been picked again the queue is as it was.
pub proof fn lemma_preempted_runs_next<H>(queue: Seq<H>, task: H, slice: int)
    requires
        slice > 0,
    ensures
        head(requeued(queue, task, slice, true)) == Some(task),
        without_head(requeued(queue, task, slice, true)) == queue,
{
    assert(without_head(requeued(queue, task, slice, true)) =~= queue);
}

/// A task whose slice is spent goes to the tail, forced off or not: every
/// task that waited is picked before it, in the order it had, and then the
/// task itself.
pub proof fn lemma_spent_goes_last<H>(queue: Seq<H>, task: H, slice: int, preempt: bool)
    requires
        slice <= 0,
    ensures
        !keeps_its_turn(slice, preempt),
        requeued(queue, task, slice, preempt) == queue.push(task),
        forall|n: nat|
            n < queue.len() ==> head(
                #[trigger] after_picks(requeued(queue, task, slice, preempt), n),
            ) == Some(queue[n as int]),
        head(after_picks(requeued(queue, task, slice, preempt), queue.len())) == Some(task),
{
    let back = requeued(queue, task, slice, preempt);
    assert forall|n: nat| n < queue.len() implies head(#[trigger] after_picks(back, n)) == Some(
        queue[n as int],
    ) by {
        lemma_picks_follow_queue(back, n);
    }
    lemma_picks_follow_queue(back, queue.len());
}

/// A task that gives way of its own accord goes to the tail, whatever is
/// left of its slice.
pub proof fn lemma_yield_goes_last<H>(queue: Seq<H>, task: H, slice: int)
    ensures
        requeued(queue, task, slice, false) == queue.push(task),
{
}

/// Wherever a task goes when it comes back, the queue holds it once more
/// than before and every other task as often as before: none is lost, none
/// is doubled.
pub proof fn lemma_requeue_keeps_all<H>(queue: Seq<H>, task: H, slice: int, preempt: bool)
    ensures
        requeued(queue, task, slice, preempt).to_multiset() == queue.to_multiset().insert(task),
        requeued(queue, task, slice, preempt).len() == queue.len() + 1,
{
    broadcast use vstd::seq_lib::group_to_multiset_ensures;

    if keeps_its_turn(slice, preempt) {
        let one = seq![task];
        assert(one =~= Seq::<H>::empty().push(task));
        vstd::seq_lib::lemma_multiset_commutative(one, queue);
        assert(one.to_multiset() =~= vstd::multiset::Multiset::<H>::empty().insert(task));
        assert(requeued(queue, task, slice, preempt).to_multiset() =~= queue.to_multiset().insert(
            task,
        ));
    }
}

/// In a queue that holds no task twice, a task that comes in from outside
/// leaves it so, at the tail as at the head.
pub proof fn lemma_stays_single<H>(queue: Seq<H>, task: H, slice: int, preempt: bool)
    requires
        queue.no_duplicates(),
        !queue.contains(task),
    ensures
        enqueued(queue, task).no_duplicates(),
        requeued(queue, task, slice, preempt).no_duplicates(),
{
    let front = seq![task] + queue;
    assert forall|i: int, j: int|
        0 <= i < front.len() && 0 <= j < front.len() && i != j implies front[i] != front[j] by {
        if i > 0 {
            assert(queue.contains(queue[i - 1]));
        }
        if j > 0 {
            assert(queue.contains(queue[j - 1]));
        }
    }
    let back = queue.push(task);
    assert forall|i: int, j: int|
        0 <= i < back.len() && 0 <= j < back.len() && i != j implies back[i] != back[j] by {
        if i < queue.len() {
            assert(queue.contains(queue[i]));
        }
        if j < queue.len() {
            assert(queue.contains(queue[j]));
        }
    }
}

/// In a queue that holds no task twice, the task that is picked is gone
/// from the queue, and what is left still holds no task twice.
pub proof fn lemma_picked_has_left<H>(queue: Seq<H>)
    requires
        queue.no_duplicates(),
    ensures
        without_head(queue).no_duplicates(),
        head(queue) matches Some(task) ==> !without_head(queue).contains(task),
{
    if queue.len() > 0 {
        let rest = without_head(queue);
        assert forall|i: int| 0 <= i < rest.len() implies rest[i] != queue[0] by {
            assert(rest[i] == queue[i + 1]);
        }
    }
}

/// In a queue that holds no task twice, a task that was found and taken out
/// is gone: the queue is shorter by one, a second search for it finds
/// nothing, and leaves the queue, and so its length, as it is.
pub proof fn lemma_removed_is_gone<H>(
    before: Seq<H>,
    task: H,
    between: Seq<H>,
    first: Option<H>,
    after: Seq<H>,
    second: Option<H>,
)
    requires
        before.no_duplicates(),
        removal(before, task, between, first),
        first is Some,
        removal(between, task, after, second),
    ensures
        first == Some(task),
        between.len() == before.len() - 1,
        between.no_duplicates(),
        !between.contains(task),
        second is None,
        after == between,
        after.len() == between.len(),
{
    let i = choose|i: int|
        0 <= i < before.len() && #[trigger] before[i] == task && between == before.remove(i);
    assert forall|j: int| 0 <= j < between.len() implies between[j] != task by {
        if j < i {
            assert(between[j] == before[j]);
        } else {
            assert(between[j] == before[j + 1]);
        }
    }
    assert forall|j: int, k: int|
        0 <= j < between.len() && 0 <= k < between.len() && j != k implies between[j]
        != between[k] by {
        let jj = if j < i { j } else { j + 1 };
        let kk = if k < i { k } else { k + 1 };
        assert(between[j] == before[jj]);
        assert(between[k] == before[kk]);
    }
}

/// A search never harms the queue: whatever it finds, every task but the
/// one searched for stays, in its order, and the queue loses at most one
/// entry.
pub proof fn lemma_removal_spares_others<H>(
    before: Seq<H>,
    task: H,
    after: Seq<H>,
    found: Option<H>,
)
    requires
        removal(before, task, after, found),
    ensures
        after == before || after.len() == before.len() - 1,
        after.filter(|t: H| t != task) == before.filter(|t: H| t != task),
{
    if found is Some {
        let i = choose|i: int|
            0 <= i < before.len() && #[trigger] before[i] == task && after == before.remove(i);
        let keep = |t: H| t != task;
        let left = before.subrange(0, i);
        let right = before.subrange(i + 1, before.len() as int);
        let mid = seq![task];
        assert(before =~= left + mid + right);
        assert(after =~= left + right);
        Seq::filter_distributes_over_add(left, right, keep);
        Seq::filter_distributes_over_add(left + mid, right, keep);
        Seq::filter_distributes_over_add(left, mid, keep);
        reveal_with_fuel(Seq::filter, 2);
        assert(mid.drop_last() =~= Seq::<H>::empty());
        assert(mid.filter(keep) =~= Seq::<H>::empty());
        assert((left + mid + right).filter(keep) =~= (left + right).filter(keep));
    }
}

/// A queue that held one task is empty once that task has been found and
/// taken out: nothing is left to pick.
pub proof fn lemma_idle_again<H>(task: H, after: Seq<H>, found: Option<H>)
    requires
        removal(enqueued(Seq::<H>::empty(), task), task, after, found),
        found is Some,
    ensures
        after == Seq::<H>::empty(),
        head(after) == None::<H>,
{
    assert(after =~= Seq::<H>::empty());
}

} // verus!
