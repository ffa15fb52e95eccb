use std::future::Future;
use std::time::Duration;

use async_deferred::deferred::{AsyncStep, Deferred};
use async_deferred::join::classify_join_error;
use async_deferred::{JoinFailure, State};

const UNCERTAIN: &str = "Task may have panicked (use join() to get details)";

fn runtime() -> tokio::runtime::Runtime {
    tokio::runtime::Builder::new_current_thread()
        .enable_time()
        .build()
        .unwrap()
}

fn begin<T, F, Fut>(d: &mut Deferred<T>, computation: F) -> bool
where
    T: Send + Sync + 'static,
    F: FnOnce() -> Fut + Send + 'static,
    Fut: Future<Output = T> + Send + 'static,
{
    begin_with(d, computation, None::<fn()>)
}

fn begin_with<T, F, C, Fut>(d: &mut Deferred<T>, computation: F, callback: Option<C>) -> bool
where
    T: Send + Sync + 'static,
    F: FnOnce() -> Fut + Send + 'static,
    C: FnOnce() + Send + 'static,
    Fut: Future<Output = T> + Send + 'static,
{
    let Some(cell) = d.prepare_begin() else {
        return false;
    };
    let handle = tokio::spawn(async move {
        let result = computation().await;
        let _ = cell.set(result);
        if let Some(callback) = callback {
            callback();
        }
    });
    d.attach_task(handle);
    true
}

async fn join<T: Send + Sync + 'static>(d: &mut Deferred<T>) {
    if let Some(handle) = d.take_task_handle() {
        let result = handle.await;
        d.record_join_result(result);
    }
}

async fn state_async<T: Send + Sync + 'static>(d: &mut Deferred<T>) -> State {
    match d.state_async_step() {
        AsyncStep::Known(s) => s,
        AsyncStep::JoinFirst => {
            join(d).await;
            d.state_after_join()
        }
    }
}

async fn sleep_ms(ms: u64) {
    tokio::time::sleep(Duration::from_millis(ms)).await;
}

#[test]
fn begin_join_and_take() {
    runtime().block_on(async {
        let mut d = Deferred::new();
        assert!(begin(&mut d, || async { 42 }));
        assert!(!begin(&mut d, || async { 24 }));
        assert!(!d.is_not_initialized());
        join(&mut d).await;
        assert!(d.is_ready());
        assert_eq!(d.try_get(), Some(&42));
        assert!(d.is_complete());
        assert_eq!(d.state(), State::Completed);
        assert_eq!(d.take(), Some(42));
        assert_eq!(d.take(), None);
    });
}

#[test]
fn take_vec_then_none() {
    runtime().block_on(async {
        let mut d = Deferred::new();
        assert!(begin(&mut d, || async { vec![1, 2, 3] }));
        join(&mut d).await;
        assert_eq!(d.take(), Some(vec![1, 2, 3]));
        assert_eq!(d.take(), None);
    });
}

#[test]
fn pending_until_finished() {
    runtime().block_on(async {
        let mut d = Deferred::new();
        assert!(begin(&mut d, || async {
            sleep_ms(20).await;
            42
        }));
        assert!(d.is_pending());
        assert!(d.is_pending_given(false, false));
        assert_eq!(d.observe_runtime(), (false, false));
        assert_eq!(d.state(), State::Pending);
        assert_eq!(d.take(), None);
        assert_eq!(d.state_given(false, false), State::Pending);
        assert_eq!(d.state_given(false, true), State::Completed);
        assert_eq!(d.state_given(true, true), State::Completed);
        assert_eq!(d.state_given(true, false), State::TaskPanicked(UNCERTAIN.to_string()));
        assert!(matches!(d.state_async_step_given(true, false), AsyncStep::JoinFirst));
        assert!(matches!(d.state_async_step(), AsyncStep::Known(State::Pending)));
        sleep_ms(200).await;
        assert_eq!(d.state(), State::Completed);
        assert!(matches!(d.try_get(), Some(42)));
        assert_eq!(state_async(&mut d).await, State::Completed);
    });
}

#[test]
fn cancel_pending_then_reuse() {
    runtime().block_on(async {
        let mut d = Deferred::new();
        assert!(begin(&mut d, || async {
            sleep_ms(10_000).await;
            42
        }));
        assert!(!d.cancel_given(false, true));
        assert!(d.cancel());
        assert_eq!(d.state(), State::NotInitialized);
        assert!(begin(&mut d, || async { 100 }));
        assert!(d.is_pending());
        join(&mut d).await;
        assert_eq!(d.take(), Some(100));
    });
}

#[test]
fn cancel_after_completion_does_nothing() {
    runtime().block_on(async {
        let mut d = Deferred::new();
        assert!(begin(&mut d, || async { 42 }));
        sleep_ms(50).await;
        assert!(!d.cancel());
        assert_eq!(d.state(), State::Completed);
        assert_eq!(d.take(), Some(42));
    });
}

#[test]
fn task_panic_with_str_payload() {
    runtime().block_on(async {
        let mut d: Deferred<u32> = Deferred::new();
        assert!(begin(&mut d, || async { panic!("boom") }));
        sleep_ms(50).await;
        assert!(d.has_task_panicked());
        assert_eq!(d.state(), State::TaskPanicked(UNCERTAIN.to_string()));
        join(&mut d).await;
        assert_eq!(d.state(), State::TaskPanicked("Panic message: boom".to_string()));
        assert_eq!(d.try_get(), None);
    });
}

#[test]
fn task_panic_with_string_payload() {
    runtime().block_on(async {
        let mut d: Deferred<u32> = Deferred::new();
        let code = 7;
        assert!(begin(&mut d, move || async move { panic!("code {}", code) }));
        join(&mut d).await;
        assert_eq!(d.state(), State::TaskPanicked("Panic message: code 7".to_string()));
    });
}

#[test]
fn callback_panic_seen_by_state_async_only() {
    runtime().block_on(async {
        let mut d: Deferred<u32> = Deferred::new();
        assert!(begin_with(&mut d, || async { 42 }, Some(|| panic!("the callback panicked"))));
        sleep_ms(50).await;
        assert_eq!(d.state(), State::Completed);
        assert_eq!(
            state_async(&mut d).await,
            State::CallbackPanicked("Panic message: the callback panicked".to_string())
        );
        assert_eq!(
            d.state(),
            State::CallbackPanicked("Panic message: the callback panicked".to_string())
        );
    });
}

#[test]
fn task_panic_seen_by_state_async() {
    runtime().block_on(async {
        let mut d: Deferred<u32> = Deferred::new();
        assert!(begin_with(
            &mut d,
            || async { panic!("the task panicked") },
            Some(|| panic!("never called"))
        ));
        sleep_ms(50).await;
        assert!(matches!(state_async(&mut d).await, State::TaskPanicked(_)));
    });
}

#[test]
fn callback_runs_after_computation() {
    runtime().block_on(async {
        let (tx, rx) = std::sync::mpsc::channel();
        let mut d = Deferred::new();
        assert!(begin_with(&mut d, || async { 5 }, Some(move || tx.send(1).unwrap())));
        join(&mut d).await;
        assert_eq!(rx.try_recv(), Ok(1));
        assert_eq!(d.take(), Some(5));
    });
}

#[test]
fn state_async_twice_after_completion() {
    runtime().block_on(async {
        let mut d = Deferred::new();
        assert!(begin(&mut d, || async { 42 }));
        sleep_ms(50).await;
        assert_eq!(state_async(&mut d).await, State::Completed);
        assert_eq!(state_async(&mut d).await, State::Completed);
        join(&mut d).await;
        assert_eq!(state_async(&mut d).await, State::Completed);
        assert_eq!(d.try_get(), Some(&42));
    });
}

#[test]
fn take_waits_for_running_callback() {
    let rt = tokio::runtime::Builder::new_multi_thread()
        .worker_threads(2)
        .enable_time()
        .build()
        .unwrap();
    rt.block_on(async {
        let (tx, rx) = std::sync::mpsc::channel::<()>();
        let mut d = Deferred::new();
        assert!(begin_with(&mut d, || async { 42 }, Some(move || rx.recv().unwrap())));
        let mut waited = 0;
        while !d.is_ready() && waited < 100 {
            sleep_ms(10).await;
            waited += 1;
        }
        assert!(d.is_ready());
        // the callback still holds the result cell: nothing is taken, nothing changes
        assert_eq!(d.take(), None);
        assert_eq!(d.try_get(), Some(&42));
        tx.send(()).unwrap();
        join(&mut d).await;
        assert_eq!(d.take(), Some(42));
        assert_eq!(d.take(), None);
        assert_eq!(d.try_get(), None);
    });
}

#[test]
fn cancel_hides_late_value() {
    runtime().block_on(async {
        let mut d = Deferred::new();
        assert!(begin(&mut d, || async {
            sleep_ms(30).await;
            7
        }));
        assert!(d.cancel());
        sleep_ms(100).await;
        assert_eq!(d.try_get(), None);
        assert!(!d.is_ready());
        assert_eq!(d.state(), State::NotInitialized);
    });
}

#[test]
fn classify_cancelled_and_panicked() {
    runtime().block_on(async {
        let handle = tokio::spawn(async { sleep_ms(10_000).await });
        handle.abort();
        let err = handle.await.unwrap_err();
        assert!(matches!(classify_join_error(err), JoinFailure::Cancelled));

        let handle = tokio::spawn(async { panic!("boom") });
        let err = handle.await.unwrap_err();
        match classify_join_error(err) {
            JoinFailure::Panicked(Some(text)) => assert_eq!(text, "boom"),
            other => panic!("unexpected {:?}", other),
        }
    });
}

#[test]
fn cancelled_join_is_recorded() {
    runtime().block_on(async {
        let mut d: Deferred<u32> = Deferred::new();
        let handle = tokio::spawn(async { sleep_ms(10_000).await });
        handle.abort();
        let result = handle.await;
        d.record_join_result(result);
        assert_eq!(d.state(), State::TaskPanicked("Task was cancelled.".to_string()));
    });
}
