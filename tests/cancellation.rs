use tonio::cancel::{BlockingTaskCtl, TaskPhase};
use tonio::task::{result_slots, Completion, TaskState};

#[test]
fn fresh_handle_is_queued() {
    let ctl = BlockingTaskCtl::new();
    assert_eq!(ctl.current(), TaskPhase::Queued { abort_requested: false });
}

#[test]
fn abort_before_start_skips_target() {
    let mut ctl = BlockingTaskCtl::new();
    assert_eq!(ctl.abort(), None);
    assert_eq!(ctl.current(), TaskPhase::Queued { abort_requested: true });
    assert!(!ctl.begin(11));
    assert_eq!(ctl.current(), TaskPhase::Finished);
}

#[test]
fn abort_while_running_names_the_thread_each_time() {
    let mut ctl = BlockingTaskCtl::new();
    assert!(ctl.begin(11));
    assert_eq!(ctl.current(), TaskPhase::Running { thread: 11 });
    assert_eq!(ctl.abort(), Some(11));
    assert_eq!(ctl.abort(), Some(11));
    assert_eq!(ctl.current(), TaskPhase::Running { thread: 11 });
}

#[test]
fn abort_after_finish_does_nothing() {
    let mut ctl = BlockingTaskCtl::new();
    assert!(ctl.begin(3));
    ctl.finish();
    assert_eq!(ctl.abort(), None);
    assert_eq!(ctl.abort(), None);
    assert_eq!(ctl.current(), TaskPhase::Finished);
}

#[test]
fn result_slot_pairs() {
    assert_eq!(result_slots::<i64>(Ok(42)), (false, 42));
    assert_eq!(result_slots::<i64>(Err(-1)), (true, -1));
}

#[test]
fn completion_is_empty_until_written() {
    let mut c: Completion<String> = Completion::new();
    assert!(!c.signaled());
    assert!(c.get().is_none());
    c.complete(Ok("42".to_string()));
    assert!(c.signaled());
    assert_eq!(c.get(), Some(&(false, "42".to_string())));
    assert_eq!(c.into_slots(), Some((false, "42".to_string())));
}

#[test]
fn target_returning_value() {
    let mut t: TaskState<String> = TaskState::new();
    assert!(t.begin(1, "CancelledError".to_string()));
    assert!(!t.done());
    t.settle(Ok("42".to_string()));
    assert!(t.done());
    assert_eq!(t.get(), Some(&(false, "42".to_string())));
}

#[test]
fn target_raising_error() {
    let mut t: TaskState<String> = TaskState::new();
    assert!(t.begin(1, "CancelledError".to_string()));
    t.settle(Err("ValueError('boom')".to_string()));
    assert_eq!(t.get(), Some(&(true, "ValueError('boom')".to_string())));
}

#[test]
fn abort_of_running_target_then_cancelled_outcome() {
    let mut t: TaskState<String> = TaskState::new();
    assert!(t.begin(9, "CancelledError".to_string()));
    assert_eq!(t.abort(), Some(9));
    t.settle(Err("CancelledError".to_string()));
    assert_eq!(t.get(), Some(&(true, "CancelledError".to_string())));
    assert_eq!(t.current(), TaskPhase::Finished);
}

#[test]
fn abort_before_start_reports_cancellation() {
    let mut t: TaskState<String> = TaskState::new();
    assert_eq!(t.abort(), None);
    assert!(!t.begin(4, "CancelledError".to_string()));
    assert!(t.done());
    assert_eq!(t.get(), Some(&(true, "CancelledError".to_string())));
}

#[test]
fn abort_after_completion_keeps_result() {
    let mut t: TaskState<String> = TaskState::new();
    assert!(t.begin(4, "CancelledError".to_string()));
    t.settle(Ok("42".to_string()));
    assert_eq!(t.abort(), None);
    assert_eq!(t.get(), Some(&(false, "42".to_string())));
}
