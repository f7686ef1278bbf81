use maker_firmware::scheduler::{Poll, Schedule, TaskQueue, IDLE_WAIT_NANOS};

#[test]
fn empty_queue_sleeps_ten_milliseconds() {
    let mut q: TaskQueue<&str> = TaskQueue::new();
    assert_eq!(q.len(), 0);
    assert!(matches!(q.poll(0), Poll::Sleep(d) if d == IDLE_WAIT_NANOS));
    assert_eq!(IDLE_WAIT_NANOS, 10_000_000);
}

#[test]
fn task_is_due_one_cadence_after_scheduling() {
    let mut q = TaskQueue::new();
    assert!(q.schedule("a", Schedule::Repeating(500), 100, 1).is_some());
    assert!(matches!(q.poll(100), Poll::Sleep(500)));
    assert!(matches!(q.poll(599), Poll::Sleep(1)));
    assert!(matches!(q.poll(600), Poll::Run("a")));
    assert!(matches!(q.poll(600), Poll::Sleep(500)));
    assert!(matches!(q.poll(1100), Poll::Run("a")));
    assert!(matches!(q.poll(1100), Poll::Sleep(500)));
    assert_eq!(q.len(), 1);
}

#[test]
fn late_polls_do_not_shift_later_runs() {
    let mut q = TaskQueue::new();
    q.schedule("a", Schedule::Repeating(100), 0, 1).unwrap();
    // Due at 100; the loop only gets to it at 130.
    assert!(matches!(q.poll(130), Poll::Run("a")));
    // The next run is still due at 200, not 230.
    assert!(matches!(q.poll(130), Poll::Sleep(70)));
    // A loop that falls a whole period behind catches up.
    assert!(matches!(q.poll(420), Poll::Run("a")));
    assert!(matches!(q.poll(420), Poll::Run("a")));
    assert!(matches!(q.poll(420), Poll::Run("a")));
    assert!(matches!(q.poll(420), Poll::Sleep(80)));
}

#[test]
fn one_off_task_runs_once() {
    let mut q = TaskQueue::new();
    let h = q.schedule("once", Schedule::Once(250), 0, 7).unwrap();
    assert!(matches!(q.poll(100), Poll::Sleep(150)));
    assert!(matches!(q.poll(251), Poll::Run("once")));
    assert_eq!(q.len(), 0);
    assert!(matches!(q.poll(1000), Poll::Sleep(IDLE_WAIT_NANOS)));
    assert!(!q.deschedule(h));
}

#[test]
fn one_off_task_in_the_past_runs_at_once() {
    let mut q = TaskQueue::new();
    q.schedule("late", Schedule::Once(5), 50, 1).unwrap();
    assert!(matches!(q.poll(50), Poll::Run("late")));
}

#[test]
fn earliest_task_runs_first() {
    let mut q = TaskQueue::new();
    q.schedule("slow", Schedule::Repeating(2000), 0, 1).unwrap();
    q.schedule("fast", Schedule::Repeating(100), 0, 2).unwrap();
    q.schedule("medium", Schedule::Repeating(500), 0, 3).unwrap();
    assert!(matches!(q.poll(50), Poll::Sleep(50)));
    assert!(matches!(q.poll(3000), Poll::Run("fast")));
    assert!(matches!(q.poll(3000), Poll::Run("fast")));
}

#[test]
fn schedule_declines_a_used_id() {
    let mut q = TaskQueue::new();
    assert!(q.schedule("a", Schedule::Repeating(10), 0, 3).is_some());
    assert!(q.schedule("b", Schedule::Repeating(10), 0, 3).is_none());
    assert_eq!(q.len(), 1);
}

#[test]
fn schedule_declines_a_due_time_beyond_the_clock() {
    let mut q = TaskQueue::new();
    assert!(q.schedule("a", Schedule::Repeating(u64::MAX), 1, 1).is_none());
    assert_eq!(q.len(), 0);
    assert!(q.schedule("a", Schedule::Repeating(u64::MAX - 1), 1, 1).is_some());
    assert_eq!(q.len(), 1);
}

#[test]
fn deschedule_removes_the_task() {
    let mut q = TaskQueue::new();
    let a = q.schedule("a", Schedule::Repeating(100), 0, 1).unwrap();
    let b = q.schedule("b", Schedule::Repeating(300), 0, 2).unwrap();
    assert!(q.deschedule(a));
    assert_eq!(q.len(), 1);
    assert!(matches!(q.poll(300), Poll::Run("b")));
    assert!(matches!(q.poll(300), Poll::Sleep(300)));
    assert!(q.deschedule(b));
    assert_eq!(q.len(), 0);
    assert!(matches!(q.poll(1000), Poll::Sleep(IDLE_WAIT_NANOS)));
}

#[test]
fn deschedule_twice_reports_nothing_removed() {
    let mut q = TaskQueue::new();
    let a = q.schedule("a", Schedule::Repeating(100), 0, 1).unwrap();
    let again = TaskQueue::<&str>::new().schedule("x", Schedule::Repeating(1), 0, 1).unwrap();
    assert!(q.deschedule(a));
    assert!(!q.deschedule(again));
}

#[test]
fn schedule_then_deschedule_restores_the_queue() {
    let mut q = TaskQueue::new();
    q.schedule("keep", Schedule::Repeating(100), 0, 1).unwrap();
    let h = q.schedule("temp", Schedule::Repeating(50), 0, 2).unwrap();
    assert!(q.deschedule(h));
    assert_eq!(q.len(), 1);
    assert!(matches!(q.poll(100), Poll::Run("keep")));
}

#[test]
fn descheduled_task_never_runs() {
    let mut q = TaskQueue::new();
    let h = q.schedule("gone", Schedule::Repeating(10), 0, 1).unwrap();
    q.schedule("stay", Schedule::Repeating(1000), 0, 2).unwrap();
    assert!(q.deschedule(h));
    for t in [10, 20, 30, 999] {
        assert!(!matches!(q.poll(t), Poll::Run("gone")));
    }
}

#[test]
fn fits_checks_the_task_that_would_run() {
    let mut q = TaskQueue::new();
    q.schedule("a", Schedule::Repeating(1000), 0, 1).unwrap();
    q.schedule("b", Schedule::Repeating(u64::MAX - 10), 0, 2).unwrap();
    // Only "a" is due at 1000; "b" is far off, so its period does not matter.
    assert!(q.fits(1000));
    assert!(q.fits(0));
}
