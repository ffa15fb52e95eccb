//! Properties of the task lifecycle that hold across operations and observations.
use vstd::prelude::*;
use crate::state::StateView;
use crate::deferred::{
    async_step, may_hold_result, observable, observed_state, recorded_panic_state, state_after_join, AsyncStepView,
    DeferredView,
};
use crate::join::{join_failure_of, panic_description, JoinFailureView};
use crate::runtime::{join_error_is_panic, join_error_panic_payload_text};
use tokio::task::JoinError;

verus! {

/// Once a task has been started, no observation of the runtime makes the `Deferred`
/// read as not initialized, so a second attempt to begin a task is refused.
pub proof fn lemma_started_task_is_initialized(v: DeferredView, finished: bool, ready: bool)
    ensures
        !(observed_state(v.with_task(), finished, ready) is NotInitialized),
        async_step(v.with_task(), finished, ready) != AsyncStepView::Known(
            StateView::NotInitialized,
        ),
{
}

/// Beginning is refused once a task has been attached: whatever the runtime is seen to
/// report, the check that `prepare_begin` makes cannot succeed.
pub proof fn lemma_begin_refused_after_attach(v: DeferredView, claimed: bool)
    requires
        exists|finished: bool, ready: bool|
            claimed == (observed_state(v.with_task(), finished, ready) is NotInitialized),
    ensures
        !claimed,
{
    let (finished, ready) = choose|finished: bool, ready: bool|
        claimed == (observed_state(v.with_task(), finished, ready) is NotInitialized);
    lemma_started_task_is_initialized(v, finished, ready);
}

/// `cancel` does nothing to a `Deferred` that was never started or whose join has
/// recorded a panic: the check it makes cannot find the task pending.
pub proof fn lemma_cancel_refused_unless_started(v: DeferredView, cancelled: bool)
    requires
        !v.has_task || v.panic_message is Some,
        exists|finished: bool, ready: bool|
            cancelled == (observed_state(v, finished, ready) is Pending),
    ensures
        !cancelled,
{
}

/// A `Deferred` that holds no task, has recorded no panic and keeps a result cell that
/// no task holds (as `new`, `default` and a successful `cancel` leave it) reads as not
/// initialized, whichever way the state is read.
pub proof fn lemma_unstarted_is_not_initialized(v: DeferredView, finished: bool, ready: bool)
    requires
        !v.has_task,
        !v.cell_handed_out,
        v.panic_message is None,
        observable(v, ready),
    ensures
        observed_state(v, finished, ready) == StateView::NotInitialized,
        async_step(v, finished, ready) == AsyncStepView::Known(StateView::NotInitialized),
{
}

/// A `Deferred` as `new`, `default` and a successful `cancel` leave it can begin a task:
/// whatever the runtime is seen to report, the check that `prepare_begin` makes
/// succeeds.
pub proof fn lemma_fresh_can_begin(claimed: bool)
    requires
        exists|finished: bool, ready: bool|
            observable(DeferredView::fresh(), ready) && claimed == (observed_state(
                DeferredView::fresh(),
                finished,
                ready,
            ) is NotInitialized),
    ensures
        claimed,
{
}

/// After a value has been taken, the result cell is held by no task, so the `Deferred`
/// reads as not initialized (when no panic is recorded) and a second `take` hands out
/// nothing and changes nothing.
pub proof fn lemma_taken_cell_is_empty(v: DeferredView, finished: bool, ready: bool)
    requires
        v.panic_message is None,
        observable(v.taken(), ready),
    ensures
        !v.taken().cell_handed_out,
        !ready,
        observed_state(v.taken(), finished, ready) == StateView::NotInitialized,
{
}

/// A panic recorded by a join decides the state, whatever the runtime is seen to report
/// afterwards, for every way of reading the state.
pub proof fn lemma_recorded_panic_decides(
    v: DeferredView,
    finished: bool,
    ready: bool,
)
    requires
        v.panic_message is Some,
    ensures
        observed_state(v, finished, ready) == recorded_panic_state(
            v.panic_message->0,
            v.callback_panicked,
        ),
        async_step(v, finished, ready) == AsyncStepView::Known(
            recorded_panic_state(v.panic_message->0, v.callback_panicked),
        ),
        state_after_join(v, ready) == recorded_panic_state(
            v.panic_message->0,
            v.callback_panicked,
        ),
{
}

/// `state` reports a panic of the callback only when a join has recorded one: of a
/// running or finished task it can only tell that the task itself may have panicked.
pub proof fn lemma_callback_panic_needs_join(v: DeferredView, finished: bool, ready: bool)
    ensures
        observed_state(v, finished, ready) is CallbackPanicked ==> v.panic_message is Some
            && v.callback_panicked,
{
}

/// The task reads as completed exactly when no panic is recorded and its result is
/// stored, so that a completed task's result is there to be read or taken.
pub proof fn lemma_completed_iff_result_stored(v: DeferredView, finished: bool, ready: bool)
    ensures
        (observed_state(v, finished, ready) is Completed) <==> (v.panic_message is None
            && ready),
        (state_after_join(v, ready) is Completed) <==> (v.panic_message is None && ready),
{
}

/// The task reads as pending exactly when it has been started and has neither finished,
/// nor stored its result, nor been found to panic.
pub proof fn lemma_pending_iff_running(v: DeferredView, finished: bool, ready: bool)
    ensures
        (observed_state(v, finished, ready) is Pending) <==> (v.panic_message is None
            && v.has_task && !finished && !ready),
{
}

/// A join that finds a panic puts it down to the callback exactly when the task's
/// result had been stored, and the state read afterwards says so.
pub proof fn lemma_join_tells_panics_apart(
    v: DeferredView,
    text: Option<Seq<char>>,
    ready: bool,
    ready_after: bool,
)
    ensures
        state_after_join(v.after_failure(JoinFailureView::Panicked(text), ready), ready_after)
            == (if ready {
            StateView::CallbackPanicked(panic_description(text))
        } else {
            StateView::TaskPanicked(panic_description(text))
        }),
{
}

/// What a join records of the error it got decides the state read afterwards: a panic
/// is put down to the callback exactly when the result had been stored, with the text of
/// the panic's payload; a cancellation is reported as such.
pub proof fn lemma_join_error_decides_state(
    v: DeferredView,
    err: JoinError,
    ready: bool,
    ready_after: bool,
)
    ensures
        state_after_join(v.after_failure(join_failure_of(err), ready), ready_after) == (if join_error_is_panic(err) {
            if ready {
                StateView::CallbackPanicked(panic_description(join_error_panic_payload_text(err)))
            } else {
                StateView::TaskPanicked(panic_description(join_error_panic_payload_text(err)))
            }
        } else {
            StateView::TaskPanicked("Task was cancelled."@)
        }),
{
}

/// A join that failed for a reason other than a panic never blames the callback.
pub proof fn lemma_only_panics_blame_callback(
    v: DeferredView,
    failure: JoinFailureView,
    ready: bool,
    ready_after: bool,
)
    requires
        !(failure is Panicked),
    ensures
        !(state_after_join(v.after_failure(failure, ready), ready_after) is CallbackPanicked),
{
}

/// Once the task's handle has been taken by a join, reading the state asynchronously
/// never asks for another join.
pub proof fn lemma_joined_needs_no_join(v: DeferredView, finished: bool, ready: bool)
    ensures
        async_step(v.without_task(), finished, ready) != AsyncStepView::JoinFirst,
{
}

/// Unless the task is held and seen finished, reading the state asynchronously gives
/// what `state` gives.
pub proof fn lemma_async_agrees_unless_finished(v: DeferredView, finished: bool, ready: bool)
    requires
        !(v.has_task && finished),
    ensures
        async_step(v, finished, ready) == AsyncStepView::Known(observed_state(v, finished, ready)),
{
}

/// Once a finished task has been joined and its result stored or its panic recorded,
/// reading the state asynchronously again gives the state read right after the join:
/// asking twice gives the same answer.
pub proof fn lemma_async_read_stable_after_join(v: DeferredView, finished: bool, ready: bool)
    requires
        ready || v.panic_message is Some,
    ensures
        async_step(v.without_task(), finished, ready) == AsyncStepView::Known(
            state_after_join(v.without_task(), ready),
        ),
{
}

/// A result cell that reports a value is one that was handed out to a task, and a cell
/// once handed out stays so through the attaching and the join of its task; so whenever
/// the result is stored, beginning (which refuses a handed-out cell) is refused, until
/// `cancel` or a `take` that hands out the value puts in a new cell.
pub proof fn lemma_stored_result_refuses_begin(
    v: DeferredView,
    ready: bool,
    failure: JoinFailureView,
    ready_at_join: bool,
)
    requires
        observable(v, ready),
        ready,
    ensures
        v.cell_handed_out,
        v.with_task().cell_handed_out,
        v.with_task().without_task().cell_handed_out,
        v.with_task().without_task().after_failure(failure, ready_at_join).cell_handed_out,
        !DeferredView::fresh().cell_handed_out,
        !v.taken().cell_handed_out,
{
}

/// A task that a join found to have panicked in its computation (its result not stored
/// at the join) or to have been cancelled has no result: afterwards the result cell is
/// never seen holding a value.
pub proof fn lemma_failed_task_has_no_result(
    v: DeferredView,
    err: JoinError,
    ready_at_join: bool,
    ready: bool,
)
    requires
        join_error_is_panic(err) ==> !ready_at_join,
        observable(v.after_failure(join_failure_of(err), ready_at_join), ready),
    ensures
        !ready,
        !may_hold_result(v.after_failure(join_failure_of(err), ready_at_join)),
{
}

/// The task reads as completed only when the result cell, handed out to the task, is
/// seen holding a value and no panic is recorded.
pub proof fn lemma_complete_means_result_stored(v: DeferredView, finished: bool, ready: bool)
    requires
        observable(v, ready),
        observed_state(v, finished, ready) is Completed,
    ensures
        ready,
        may_hold_result(v),
        v.cell_handed_out,
        v.panic_message is None,
{
}

/// The task reads as panicked only when a join recorded a panic of the task itself, or
/// when a held task is seen finished without having stored its result; a task that is
/// seen still running, or was never started, never reads as panicked.
pub proof fn lemma_panicked_means_failed(v: DeferredView, finished: bool, ready: bool)
    requires
        observable(v, ready),
        observed_state(v, finished, ready) is TaskPanicked,
    ensures
        (v.panic_message is Some && !v.callback_panicked) || (v.has_task && finished && !ready
            && v.panic_message is None),
        v.panic_message is None ==> v.has_task && finished,
{
}

/// Cancelling succeeds only for a held task that is seen neither finished nor with its
/// result stored, and with no panic recorded: a finished, completed or panicked task is
/// never reset.
pub proof fn lemma_cancel_only_running(v: DeferredView, finished: bool, ready: bool)
    requires
        observable(v, ready),
        observed_state(v, finished, ready) is Pending,
    ensures
        v.has_task,
        !finished,
        !ready,
        v.panic_message is None,
{
}

} // verus!
