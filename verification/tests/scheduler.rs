use simple_scheduler::{NetFilter, SimpleScheduler, SimpleTask, MAX_TIME_SLICE};
use std::sync::Arc;

fn task(n: u32) -> Arc<SimpleTask<u32>> {
    Arc::new(SimpleTask::new(n))
}

/// Ticks `current` until the scheduler says the slice is spent, and gives
/// the number of ticks that took.
fn ticks_until_spent(s: &mut SimpleScheduler<u32>, current: &Arc<SimpleTask<u32>>) -> usize {
    let mut n = 0;
    loop {
        n += 1;
        if s.task_tick(current) {
            return n;
        }
        assert!(n < 100_000);
    }
}

#[test]
fn max_time_slice_is_512() {
    assert_eq!(MAX_TIME_SLICE, 512);
}

#[test]
fn scheduler_name_is_simple() {
    assert_eq!(SimpleScheduler::<u32>::scheduler_name(), "Simple");
}

#[test]
fn task_gives_its_payload() {
    let t = SimpleTask::new(String::from("idle"));
    assert_eq!(t.inner(), "idle");
    assert_eq!(t.inner().len(), 4);
}

#[test]
fn task_derefs_to_its_payload() {
    let t = SimpleTask::new(String::from("worker"));
    assert_eq!(t.len(), 6);
    assert_eq!(&*t, "worker");
    let shared = task(7);
    assert_eq!(**shared, 7);
}

#[test]
fn picks_in_the_order_added() {
    let mut s = SimpleScheduler::new();
    let (a, b, c) = (task(1), task(2), task(3));
    s.add_task(a.clone());
    s.add_task(b.clone());
    s.add_task(c.clone());
    assert!(Arc::ptr_eq(&s.pick_next_task().unwrap(), &a));
    assert!(Arc::ptr_eq(&s.pick_next_task().unwrap(), &b));
    assert!(Arc::ptr_eq(&s.pick_next_task().unwrap(), &c));
    assert!(s.pick_next_task().is_none());
}

#[test]
fn fresh_scheduler_is_idle() {
    let mut s = SimpleScheduler::<u32>::new();
    assert!(s.pick_next_task().is_none());
    s.init();
    s.init();
    assert!(s.pick_next_task().is_none());
}

#[test]
fn init_keeps_the_queue() {
    let mut s = SimpleScheduler::new();
    let a = task(1);
    s.add_task(a.clone());
    s.init();
    assert!(Arc::ptr_eq(&s.pick_next_task().unwrap(), &a));
    assert!(s.pick_next_task().is_none());
}

#[test]
fn idle_again_after_add_and_remove() {
    let mut s = SimpleScheduler::new();
    let a = task(1);
    s.add_task(a.clone());
    let removed = s.remove_task(&a).unwrap();
    assert!(Arc::ptr_eq(&removed, &a));
    assert!(s.pick_next_task().is_none());
}

#[test]
fn full_slice_lasts_512_ticks() {
    let mut s = SimpleScheduler::new();
    let a = task(1);
    s.add_task(a.clone());
    let running = s.pick_next_task().unwrap();
    for n in 1..512 {
        assert!(!s.task_tick(&running), "tick {} came back true", n);
    }
    assert!(s.task_tick(&running));
}

#[test]
fn ticks_after_the_slice_is_spent_stay_true() {
    let mut s = SimpleScheduler::new();
    let a = task(1);
    assert_eq!(ticks_until_spent(&mut s, &a), 512);
    assert!(s.task_tick(&a));
    assert!(s.task_tick(&a));
    assert!(s.task_tick(&a));
}

#[test]
fn tick_leaves_the_queue_alone() {
    let mut s = SimpleScheduler::new();
    let (a, b) = (task(1), task(2));
    s.add_task(a.clone());
    s.add_task(b.clone());
    let running = task(3);
    assert!(!s.task_tick(&running));
    assert!(!s.task_tick(&a));
    assert!(Arc::ptr_eq(&s.pick_next_task().unwrap(), &a));
    assert!(Arc::ptr_eq(&s.pick_next_task().unwrap(), &b));
    assert!(s.pick_next_task().is_none());
}

#[test]
fn tick_spends_at_one_and_below() {
    assert!(!SimpleScheduler::<u32>::tick_spends(512));
    assert!(!SimpleScheduler::<u32>::tick_spends(2));
    assert!(SimpleScheduler::<u32>::tick_spends(1));
    assert!(SimpleScheduler::<u32>::tick_spends(0));
    assert!(SimpleScheduler::<u32>::tick_spends(-1));
    assert!(SimpleScheduler::<u32>::tick_spends(isize::MIN));
    assert!(!SimpleScheduler::<u32>::tick_spends(isize::MAX));
}

#[test]
fn preempted_task_with_ticks_left_runs_next() {
    let mut s = SimpleScheduler::new();
    let (a, x) = (task(1), task(2));
    s.add_task(a.clone());
    let running = s.pick_next_task().unwrap();
    s.add_task(x.clone());
    for _ in 0..10 {
        assert!(!s.task_tick(&running));
    }
    s.put_prev_task(running, true);
    assert!(Arc::ptr_eq(&s.pick_next_task().unwrap(), &a));
    assert!(Arc::ptr_eq(&s.pick_next_task().unwrap(), &x));
    assert!(s.pick_next_task().is_none());
}

#[test]
fn preempted_task_keeps_what_is_left_of_its_slice() {
    let mut s = SimpleScheduler::new();
    let a = task(1);
    for _ in 0..500 {
        assert!(!s.task_tick(&a));
    }
    s.put_prev_task(a.clone(), true);
    let running = s.pick_next_task().unwrap();
    assert_eq!(ticks_until_spent(&mut s, &running), 12);
}

#[test]
fn preempted_task_with_one_tick_left_still_runs_next() {
    let mut s = SimpleScheduler::new();
    let (a, x) = (task(1), task(2));
    s.add_task(x.clone());
    for _ in 0..511 {
        assert!(!s.task_tick(&a));
    }
    s.put_prev_task(a.clone(), true);
    assert!(Arc::ptr_eq(&s.pick_next_task().unwrap(), &a));
    assert_eq!(ticks_until_spent(&mut s, &a), 1);
}

#[test]
fn spent_task_goes_to_the_tail_when_preempted() {
    let mut s = SimpleScheduler::new();
    let (a, x, y) = (task(1), task(2), task(3));
    s.add_task(x.clone());
    s.add_task(y.clone());
    assert_eq!(ticks_until_spent(&mut s, &a), 512);
    s.put_prev_task(a.clone(), true);
    assert!(Arc::ptr_eq(&s.pick_next_task().unwrap(), &x));
    assert!(Arc::ptr_eq(&s.pick_next_task().unwrap(), &y));
    let back = s.pick_next_task().unwrap();
    assert!(Arc::ptr_eq(&back, &a));
    assert!(s.pick_next_task().is_none());
    assert_eq!(ticks_until_spent(&mut s, &back), 512);
}

#[test]
fn spent_task_goes_to_the_tail_when_it_yields() {
    let mut s = SimpleScheduler::new();
    let (a, x) = (task(1), task(2));
    s.add_task(x.clone());
    assert_eq!(ticks_until_spent(&mut s, &a), 512);
    assert!(s.task_tick(&a));
    s.put_prev_task(a.clone(), false);
    assert!(Arc::ptr_eq(&s.pick_next_task().unwrap(), &x));
    let back = s.pick_next_task().unwrap();
    assert!(Arc::ptr_eq(&back, &a));
    assert_eq!(ticks_until_spent(&mut s, &back), 512);
}

#[test]
fn yielding_task_goes_to_the_tail_with_a_fresh_slice() {
    let mut s = SimpleScheduler::new();
    let (a, x) = (task(1), task(2));
    s.add_task(x.clone());
    for _ in 0..100 {
        assert!(!s.task_tick(&a));
    }
    s.put_prev_task(a.clone(), false);
    assert!(Arc::ptr_eq(&s.pick_next_task().unwrap(), &x));
    let back = s.pick_next_task().unwrap();
    assert!(Arc::ptr_eq(&back, &a));
    assert_eq!(ticks_until_spent(&mut s, &back), 512);
}

#[test]
fn requeue_goes_by_the_slice_it_is_given() {
    let mut s = SimpleScheduler::new();
    let (x, a, b, c, d) = (task(0), task(1), task(2), task(3), task(4));
    s.add_task(x.clone());
    s.requeue(a.clone(), 1, true);
    s.requeue(b.clone(), 0, true);
    s.requeue(c.clone(), 300, false);
    s.requeue(d.clone(), -7, true);
    assert!(Arc::ptr_eq(&s.pick_next_task().unwrap(), &a));
    assert!(Arc::ptr_eq(&s.pick_next_task().unwrap(), &x));
    assert!(Arc::ptr_eq(&s.pick_next_task().unwrap(), &b));
    assert!(Arc::ptr_eq(&s.pick_next_task().unwrap(), &c));
    assert!(Arc::ptr_eq(&s.pick_next_task().unwrap(), &d));
    assert!(s.pick_next_task().is_none());
}

#[test]
fn requeue_at_the_tail_renews_the_slice() {
    let mut s = SimpleScheduler::new();
    let a = task(1);
    for _ in 0..40 {
        assert!(!s.task_tick(&a));
    }
    s.requeue(a.clone(), 0, true);
    assert_eq!(ticks_until_spent(&mut s, &a), 512);
}

#[test]
fn requeue_at_the_head_leaves_the_slice() {
    let mut s = SimpleScheduler::new();
    let a = task(1);
    for _ in 0..40 {
        assert!(!s.task_tick(&a));
    }
    s.requeue(a.clone(), 472, true);
    assert_eq!(ticks_until_spent(&mut s, &a), 472);
}

#[test]
fn second_removal_finds_nothing() {
    let mut s = SimpleScheduler::new();
    let (a, b, c) = (task(1), task(2), task(3));
    s.add_task(a.clone());
    s.add_task(b.clone());
    s.add_task(c.clone());
    let first = s.remove_task(&b);
    assert!(Arc::ptr_eq(&first.unwrap(), &b));
    assert!(s.remove_task(&b).is_none());
    assert!(Arc::ptr_eq(&s.pick_next_task().unwrap(), &a));
    assert!(Arc::ptr_eq(&s.pick_next_task().unwrap(), &c));
    assert!(s.pick_next_task().is_none());
}

#[test]
fn removal_of_an_absent_task_changes_nothing() {
    let mut s = SimpleScheduler::new();
    let (a, b, stranger) = (task(1), task(2), task(1));
    assert!(s.remove_task(&stranger).is_none());
    s.add_task(a.clone());
    s.add_task(b.clone());
    assert!(s.remove_task(&stranger).is_none());
    assert!(Arc::ptr_eq(&s.pick_next_task().unwrap(), &a));
    assert!(Arc::ptr_eq(&s.pick_next_task().unwrap(), &b));
    assert!(s.pick_next_task().is_none());
}

#[test]
fn removal_goes_by_identity_not_by_payload() {
    let mut s = SimpleScheduler::new();
    let (first, twin, last) = (task(9), task(9), task(9));
    s.add_task(first.clone());
    s.add_task(twin.clone());
    s.add_task(last.clone());
    let removed = s.remove_task(&twin).unwrap();
    assert!(Arc::ptr_eq(&removed, &twin));
    assert!(!Arc::ptr_eq(&removed, &first));
    assert!(Arc::ptr_eq(&s.pick_next_task().unwrap(), &first));
    assert!(Arc::ptr_eq(&s.pick_next_task().unwrap(), &last));
    assert!(s.pick_next_task().is_none());
}

#[test]
fn removal_through_another_handle_to_the_same_task() {
    let mut s = SimpleScheduler::new();
    let a = task(1);
    let held_elsewhere = Arc::clone(&a);
    s.add_task(a);
    let removed = s.remove_task(&held_elsewhere).unwrap();
    assert!(Arc::ptr_eq(&removed, &held_elsewhere));
    assert!(s.pick_next_task().is_none());
}

#[test]
fn removed_task_can_be_added_again() {
    let mut s = SimpleScheduler::new();
    let (a, b) = (task(1), task(2));
    s.add_task(a.clone());
    s.add_task(b.clone());
    let blocked = s.remove_task(&a).unwrap();
    s.add_task(blocked);
    assert!(Arc::ptr_eq(&s.pick_next_task().unwrap(), &b));
    assert!(Arc::ptr_eq(&s.pick_next_task().unwrap(), &a));
    assert!(s.pick_next_task().is_none());
}

#[test]
fn take_at_takes_the_entry_at_that_place() {
    let mut s = SimpleScheduler::new();
    let (a, b, c) = (task(1), task(2), task(3));
    s.add_task(a.clone());
    s.add_task(b.clone());
    s.add_task(c.clone());
    assert!(s.take_at(None).is_none());
    assert!(s.take_at(Some(3)).is_none());
    assert!(s.take_at(Some(usize::MAX)).is_none());
    assert!(Arc::ptr_eq(&s.take_at(Some(2)).unwrap(), &c));
    assert!(Arc::ptr_eq(&s.take_at(Some(0)).unwrap(), &a));
    assert!(Arc::ptr_eq(&s.take_at(Some(0)).unwrap(), &b));
    assert!(s.take_at(Some(0)).is_none());
    assert!(s.pick_next_task().is_none());
}

#[test]
fn set_priority_fails_and_changes_no_order() {
    let mut s = SimpleScheduler::new();
    let (a, b, outsider) = (task(1), task(2), task(3));
    s.add_task(a.clone());
    s.add_task(b.clone());
    assert!(!s.set_priority(&b, 0));
    assert!(!s.set_priority(&b, isize::MAX));
    assert!(!s.set_priority(&a, isize::MIN));
    assert!(!s.set_priority(&outsider, -5));
    assert!(Arc::ptr_eq(&s.pick_next_task().unwrap(), &a));
    assert!(Arc::ptr_eq(&s.pick_next_task().unwrap(), &b));
    assert!(s.pick_next_task().is_none());
}

#[test]
fn set_priority_leaves_the_slice() {
    let mut s = SimpleScheduler::new();
    let a = task(1);
    assert!(!s.set_priority(&a, 3));
    assert_eq!(ticks_until_spent(&mut s, &a), 512);
}

#[test]
fn round_robin_over_two_tasks() {
    let mut s = SimpleScheduler::new();
    let (a, b) = (task(1), task(2));
    s.add_task(a.clone());
    s.add_task(b.clone());
    let mut order = Vec::new();
    for _ in 0..4 {
        let running = s.pick_next_task().unwrap();
        order.push(**running);
        assert_eq!(ticks_until_spent(&mut s, &running), 512);
        s.put_prev_task(running, true);
    }
    assert_eq!(order, vec![1, 2, 1, 2]);
}

#[test]
fn net_filter_holds_its_device() {
    let f = NetFilter { inner: 42u8 };
    assert_eq!(f.inner, 42);
}
