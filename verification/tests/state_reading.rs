use async_deferred::deferred::{AsyncStep, Deferred};
use async_deferred::join::{describe_panic, failure_record};
use async_deferred::{JoinFailure, State};

fn fresh() -> Deferred<i32> {
    Deferred::new()
}

#[test]
fn new_is_not_initialized() {
    let d = fresh();
    assert!(d.is_not_initialized());
    assert!(!d.is_pending());
    assert!(!d.is_complete());
    assert!(!d.has_task_panicked());
    assert!(!d.is_ready());
    assert_eq!(d.try_get(), None);
    assert_eq!(d.state(), State::NotInitialized);
}

#[test]
fn default_is_not_initialized() {
    let d: Deferred<i32> = Default::default();
    assert_eq!(d.state(), State::NotInitialized);
}

#[test]
fn state_given_without_task() {
    let d = fresh();
    assert_eq!(d.state_given(false, false), State::NotInitialized);
    assert_eq!(d.state_given(true, false), State::NotInitialized);
    assert_eq!(d.state_given(false, true), State::Completed);
    assert_eq!(d.state_given(true, true), State::Completed);
}

#[test]
fn state_given_with_recorded_panic() {
    let mut d = fresh();
    d.record_join_failure(JoinFailure::Panicked(Some("boom".to_string())), false);
    let expected = State::TaskPanicked("Panic message: boom".to_string());
    assert_eq!(d.state_given(false, false), expected);
    assert_eq!(d.state_given(true, true), expected);
    assert_eq!(d.state(), expected);
    assert!(d.has_task_panicked());

    let mut d = fresh();
    d.record_join_failure(JoinFailure::Panicked(Some("cb".to_string())), true);
    let expected = State::CallbackPanicked("Panic message: cb".to_string());
    assert_eq!(d.state_given(false, true), expected);
    assert_eq!(d.state(), expected);
    assert!(!d.has_task_panicked());
    assert!(!d.is_complete());
}

#[test]
fn async_steps_without_task() {
    let d = fresh();
    assert!(matches!(d.state_async_step_given(true, true), AsyncStep::Known(State::Completed)));
    assert!(matches!(d.state_async_step_given(false, true), AsyncStep::Known(State::Completed)));
    assert!(matches!(d.state_async_step_given(false, false), AsyncStep::Known(State::NotInitialized)));
    assert!(matches!(d.state_async_step(), AsyncStep::Known(State::NotInitialized)));
    assert_eq!(d.state_after_join_given(true), State::Completed);
    assert_eq!(d.state_after_join_given(false), State::Pending);
}

#[test]
fn async_steps_with_recorded_panic() {
    let mut d = fresh();
    d.record_join_failure(JoinFailure::Cancelled, true);
    let expected = State::TaskPanicked("Task was cancelled.".to_string());
    match d.state_async_step_given(true, true) {
        AsyncStep::Known(s) => assert_eq!(s, expected),
        AsyncStep::JoinFirst => panic!("a recorded failure needs no join"),
    }
    assert_eq!(d.state_after_join_given(true), expected);
    assert_eq!(d.state_after_join(), expected);
}

#[test]
fn panic_descriptions() {
    assert_eq!(describe_panic(Some("oops".to_string())), "Panic message: oops");
    assert_eq!(
        describe_panic(None),
        "Panic occurred, but couldn't get the message."
    );
}

#[test]
fn failure_records() {
    assert_eq!(
        failure_record(JoinFailure::Panicked(Some("x".to_string())), true),
        ("Panic message: x".to_string(), true)
    );
    assert_eq!(
        failure_record(JoinFailure::Panicked(None), false),
        ("Panic occurred, but couldn't get the message.".to_string(), false)
    );
    assert_eq!(
        failure_record(JoinFailure::PanicUnavailable, true),
        ("Panic occurred, but couldn't extract panic info.".to_string(), false)
    );
    assert_eq!(
        failure_record(JoinFailure::Cancelled, true),
        ("Task was cancelled.".to_string(), false)
    );
    assert_eq!(
        failure_record(JoinFailure::Unknown, true),
        ("Unknown join error.".to_string(), false)
    );
}

#[test]
fn cancel_without_task_does_nothing() {
    let mut d = fresh();
    assert!(!d.cancel());
    assert_eq!(d.state(), State::NotInitialized);
}

#[test]
fn new_can_begin_once() {
    let mut d = fresh();
    assert!(d.prepare_begin().is_some());
    assert!(d.is_not_initialized());
}

#[test]
fn take_without_result_is_none() {
    let mut d = fresh();
    assert_eq!(d.take(), None);
    assert_eq!(d.state(), State::NotInitialized);
}

#[test]
fn join_without_task_takes_nothing() {
    let mut d = fresh();
    assert!(d.take_task_handle().is_none());
    d.record_join_result(Ok(()));
    assert_eq!(d.state(), State::NotInitialized);
}

#[test]
fn predicates_given_observations() {
    let d = fresh();
    assert!(d.is_not_initialized_given(false, false));
    assert!(!d.is_not_initialized_given(false, true));
    assert!(d.is_complete_given(false, true));
    assert!(!d.is_pending_given(false, false));
    assert!(!d.has_task_panicked_given(true, false));
    assert_eq!(d.observe_runtime(), (false, false));
}

#[test]
fn cancel_given_without_task_is_refused() {
    let mut d = fresh();
    assert!(!d.cancel_given(false, false));
    assert!(!d.cancel_given(true, true));
    assert_eq!(d.state(), State::NotInitialized);
}

#[test]
fn prepare_begin_given_observations() {
    let mut d = fresh();
    assert!(d.prepare_begin_given(false, true).is_none());
    assert!(d.prepare_begin_given(false, false).is_some());
}

#[test]
fn finish_take_outcomes() {
    let mut d = fresh();
    assert_eq!(d.finish_take(Ok(Some(5))), Some(5));
    assert_eq!(d.try_get(), None);
    assert_eq!(d.finish_take(Ok(None)), None);
    assert_eq!(d.state(), State::NotInitialized);

    let shared = std::sync::Arc::new(tokio::sync::OnceCell::new_with(Some(3)));
    let mut d = fresh();
    assert_eq!(d.finish_take(Err(shared.clone())), None);
    assert_eq!(d.try_get(), Some(&3));
    assert!(d.is_ready());
    drop(shared);
    assert_eq!(d.take(), Some(3));
    assert_eq!(d.take(), None);
}

#[test]
fn take_given_not_ready_changes_nothing() {
    let mut d = fresh();
    assert_eq!(d.take_given(false), None);
    assert_eq!(d.state(), State::NotInitialized);
}
