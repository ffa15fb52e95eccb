use vstd::prelude::*;
use vstd::string::*;
use std::sync::Arc;
use tokio::sync::OnceCell;
use tokio::task::{JoinError, JoinHandle};
use crate::runtime::{arc_share, arc_try_unwrap};
use crate::join::{
    classify_join_error, failure_blames_callback, join_failure_of, failure_message, failure_record, JoinFailure,
    JoinFailureView,
};
use crate::state::{State, StateView};

verus! {

/// What the library knows of a [`Deferred`]: whether a task handle is held, whether
/// the result cell has been handed out to be filled by a task, and which panic, if
/// any, a join has recorded.
pub struct DeferredView {
    pub has_task: bool,
    pub cell_handed_out: bool,
    pub panic_message: Option<Seq<char>>,
    pub callback_panicked: bool,
}

impl DeferredView {
    /// The view of a `Deferred` that holds no task and has recorded no panic.
    pub open spec fn fresh() -> DeferredView {
        DeferredView {
            has_task: false,
            cell_handed_out: false,
            panic_message: None,
            callback_panicked: false,
        }
    }

    /// The same view with the result cell handed out to a task.
    pub open spec fn with_cell_handed_out(self) -> DeferredView {
        DeferredView { cell_handed_out: true, ..self }
    }

    /// The same view with the result cell back in sole keeping: a cell that no task
    /// holds, and that stays empty.
    pub open spec fn with_cell_reclaimed(self) -> DeferredView {
        DeferredView { cell_handed_out: false, ..self }
    }

    /// The view once the stored result has been taken out: no task handle, and a new
    /// result cell that no task holds.
    pub open spec fn taken(self) -> DeferredView {
        DeferredView { has_task: false, cell_handed_out: false, ..self }
    }

    /// The same view with the task handle released.
    pub open spec fn without_task(self) -> DeferredView {
        DeferredView { has_task: false, ..self }
    }

    /// The same view with a task handle held.
    pub open spec fn with_task(self) -> DeferredView {
        DeferredView { has_task: true, ..self }
    }

    /// The same view once a join has recorded `failure`, the result having been seen
    /// stored or not (`ready`).
    pub open spec fn after_failure(self, failure: JoinFailureView, ready: bool) -> DeferredView {
        DeferredView {
            panic_message: Some(failure_message(failure)),
            callback_panicked: failure_blames_callback(failure, ready),
            ..self
        }
    }
}

/// Whether the result cell can hold a value: it has been handed out to a task, and no
/// join has found that the task failed before storing its result. A cell never handed
/// out is empty; a task that panicked in its computation, or was cancelled, never
/// stores a result, and once its handle has been joined nothing else writes the cell.
pub open spec fn may_hold_result(v: DeferredView) -> bool {
    v.cell_handed_out && !(v.panic_message is Some && !v.callback_panicked)
}

/// Whether the result can have been seen stored (`ready`): only a cell that may hold a
/// result is ever seen filled.
pub open spec fn observable(v: DeferredView, ready: bool) -> bool {
    may_hold_result(v) || !ready
}

/// The state that a recorded panic stands for.
pub open spec fn recorded_panic_state(m: Seq<char>, callback_panicked: bool) -> StateView {
    if callback_panicked {
        StateView::CallbackPanicked(m)
    } else {
        StateView::TaskPanicked(m)
    }
}

/// What [`Deferred::state_async_step`] answers: the state, or that the finished task
/// must be joined before the state can be told.
pub enum AsyncStep {
    Known(State),
    JoinFirst,
}

/// The mathematical value of an [`AsyncStep`].
pub enum AsyncStepView {
    Known(StateView),
    JoinFirst,
}

impl View for AsyncStep {
    type V = AsyncStepView;

    open spec fn view(&self) -> AsyncStepView {
        match self {
            AsyncStep::Known(s) => AsyncStepView::Known(s@),
            AsyncStep::JoinFirst => AsyncStepView::JoinFirst,
        }
    }
}

/// The first step of reading the state asynchronously, given whether the task was seen
/// finished and whether the result was seen stored.
pub open spec fn async_step(v: DeferredView, finished: bool, ready: bool) -> AsyncStepView {
    match v.panic_message {
        Some(m) => AsyncStepView::Known(recorded_panic_state(m, v.callback_panicked)),
        None => if v.has_task {
            if finished {
                AsyncStepView::JoinFirst
            } else if ready {
                AsyncStepView::Known(StateView::Completed)
            } else {
                AsyncStepView::Known(StateView::Pending)
            }
        } else if ready {
            AsyncStepView::Known(StateView::Completed)
        } else {
            AsyncStepView::Known(StateView::NotInitialized)
        },
    }
}

/// The state read after the finished task has been joined, given whether the result
/// was seen stored.
pub open spec fn state_after_join(v: DeferredView, ready: bool) -> StateView {
    match v.panic_message {
        Some(m) => recorded_panic_state(m, v.callback_panicked),
        None => if ready {
            StateView::Completed
        } else {
            StateView::Pending
        },
    }
}

/// The message reported when a task has finished without storing a result and
/// no join has yet told why.
pub open spec fn uncertain_panic_message() -> Seq<char> {
    "Task may have panicked (use join() to get details)"@
}

/// The state that [`Deferred::state`] reports for `v`, given whether the task was
/// seen finished (`finished`) and whether the result cell was seen filled (`ready`).
pub open spec fn observed_state(v: DeferredView, finished: bool, ready: bool) -> StateView {
    match v.panic_message {
        Some(m) => recorded_panic_state(m, v.callback_panicked),
        None => if v.has_task {
            if finished {
                if ready {
                    StateView::Completed
                } else {
                    StateView::TaskPanicked(uncertain_panic_message())
                }
            } else if ready {
                StateView::Completed
            } else {
                StateView::Pending
            }
        } else if ready {
            StateView::Completed
        } else {
            StateView::NotInitialized
        },
    }
}

/// A handle to an asynchronous computation that allows for deferred result retrieval.
///
/// The result is stored in a cell shared with the spawned task; the handle of that task,
/// and the panic that a join has found, are kept beside it. `cell_handed_out` tells
/// whether the current cell has been handed out to be filled by a task: a cell that was
/// not is empty, and is read as such without asking it.
#[derive(Debug)]
#[verifier::reject_recursive_types(T)]
pub struct Deferred<T> {
    value: Arc<OnceCell<T>>,
    task_handle: Option<JoinHandle<()>>,
    panic_message: Option<String>,
    is_callback_panic: bool,
    cell_handed_out: bool,
}

impl<T> View for Deferred<T> {
    type V = DeferredView;

    closed spec fn view(&self) -> DeferredView {
        DeferredView {
            has_task: self.task_handle is Some,
            cell_handed_out: self.cell_handed_out,
            panic_message: match self.panic_message {
                Some(m) => Some(m@),
                None => None,
            },
            callback_panicked: self.is_callback_panic,
        }
    }
}

impl<T> Deferred<T> {
    /// The cell that receives the task's result.
    pub closed spec fn result_cell(&self) -> OnceCell<T> {
        *self.value
    }
}

impl<T> Deferred<T> where T: Send + Sync + 'static {
    /// Creates a new empty `Deferred` instance.
    pub fn new() -> (d: Self)
        ensures
            d@ == DeferredView::fresh(),
    {
        Self {
            value: Arc::new(OnceCell::new()),
            task_handle: None,
            panic_message: None,
            is_callback_panic: false,
            cell_handed_out: false,
        }
    }

    /// The state for the given observations of the runtime: whether the task has
    /// finished and whether its result is stored.
    pub fn state_given(&self, finished: bool, ready: bool) -> (s: State)
        ensures
            s@ == observed_state(self@, finished, ready),
    {
        if self.panic_message.is_some() {
            self.recorded_state()
        } else if self.task_handle.is_some() {
            if finished {
                if ready {
                    State::Completed
                } else {
                    State::TaskPanicked(
                        String::from_str("Task may have panicked (use join() to get details)"),
                    )
                }
            } else if ready {
                State::Completed
            } else {
                State::Pending
            }
        } else if ready {
            State::Completed
        } else {
            State::NotInitialized
        }
    }

    /// Returns the current state of the task, read from whether the task has finished
    /// and whether its result is stored.
    pub fn state(&self) -> (s: State)
        ensures
            exists|finished: bool, ready: bool|
                observable(self@, ready) && s@ == observed_state(self@, finished, ready),
    {
        let (finished, ready) = self.observe_runtime();
        self.state_given(finished, ready)
    }

    /// The state recorded for a panic found by a join.
    fn recorded_state(&self) -> (s: State)
        requires
            self@.panic_message is Some,
        ensures
            s@ == recorded_panic_state(self@.panic_message->0, self@.callback_panicked),
    {
        let panic_msg = self.panic_message.as_ref().unwrap();
        if self.is_callback_panic {
            State::CallbackPanicked(panic_msg.clone())
        } else {
            State::TaskPanicked(panic_msg.clone())
        }
    }

    /// The first step of reading the state asynchronously, for the given observations of
    /// the runtime.
    pub fn state_async_step_given(&self, finished: bool, ready: bool) -> (step: AsyncStep)
        ensures
            step@ == async_step(self@, finished, ready),
    {
        if self.panic_message.is_some() {
            return AsyncStep::Known(self.recorded_state());
        }
        if self.task_handle.is_some() {
            if finished {
                AsyncStep::JoinFirst
            } else if ready {
                AsyncStep::Known(State::Completed)
            } else {
                AsyncStep::Known(State::Pending)
            }
        } else if ready {
            AsyncStep::Known(State::Completed)
        } else {
            AsyncStep::Known(State::NotInitialized)
        }
    }

    /// The first step of reading the state asynchronously: either the state, or that the
    /// finished task must be joined first.
    pub fn state_async_step(&self) -> (step: AsyncStep)
        ensures
            exists|finished: bool, ready: bool|
                observable(self@, ready) && step@ == async_step(self@, finished, ready),
    {
        if self.panic_message.is_some() {
            return self.state_async_step_given(false, false);
        }
        match &self.task_handle {
            Some(handle) => {
                if handle.is_finished() {
                    self.state_async_step_given(true, false)
                } else {
                    let ready = self.is_ready();
                    self.state_async_step_given(false, ready)
                }
            },
            None => {
                let ready = self.is_ready();
                self.state_async_step_given(false, ready)
            },
        }
    }

    /// The state after the finished task has been joined, for the given observation of
    /// whether the result is stored.
    pub fn state_after_join_given(&self, ready: bool) -> (s: State)
        ensures
            s@ == state_after_join(self@, ready),
    {
        if self.panic_message.is_some() {
            self.recorded_state()
        } else if ready {
            State::Completed
        } else {
            State::Pending
        }
    }

    /// The state after the finished task has been joined.
    pub fn state_after_join(&self) -> (s: State)
        ensures
            exists|ready: bool| observable(self@, ready) && s@ == state_after_join(self@, ready),
    {
        if self.panic_message.is_some() {
            return self.state_after_join_given(false);
        }
        let ready = self.is_ready();
        self.state_after_join_given(ready)
    }

    /// Releases the task handle so that it can be awaited; `None` when there is none.
    pub fn take_task_handle(&mut self) -> (handle: Option<JoinHandle<()>>)
        ensures
            handle is Some == old(self)@.has_task,
            final(self)@ == old(self)@.without_task(),
            final(self).result_cell() == old(self).result_cell(),
    {
        let mut handle = None;
        std::mem::swap(&mut handle, &mut self.task_handle);
        handle
    }

    /// Records why the join of the task failed; `ready` tells whether the task's result
    /// had been stored.
    pub fn record_join_failure(&mut self, failure: JoinFailure, ready: bool)
        ensures
            final(self)@ == old(self)@.after_failure(failure@, ready),
            final(self).result_cell() == old(self).result_cell(),
    {
        let (panic_msg, is_callback_panic) = failure_record(failure, ready);
        self.panic_message = Some(panic_msg);
        self.is_callback_panic = is_callback_panic;
    }

    /// Records the outcome of awaiting the task's handle: nothing changes when the task
    /// ran to its end, and why it did not is recorded otherwise.
    pub fn record_join_result(&mut self, result: Result<(), JoinError>)
        ensures
            result is Ok ==> *final(self) == *old(self),
            result is Err ==> exists|ready: bool|
                #[trigger] observable(old(self)@, ready) && final(self)@ == old(
                    self,
                )@.after_failure(join_failure_of(result->Err_0), ready),
            final(self).result_cell() == old(self).result_cell(),
    {
        match result {
            Ok(_) => {},
            Err(err) => {
                let failure = classify_join_error(err);
                let ready = match &failure {
                    JoinFailure::Panicked(_) => self.is_ready(),
                    _ => false,
                };
                self.record_join_failure(failure, ready);
                assert(observable(old(self)@, ready));
            },
        }
    }

    /// Asks the runtime what the state is read from: whether the task has finished and
    /// whether its result is stored. Nothing is asked once a panic is recorded.
    pub fn observe_runtime(&self) -> (o: (bool, bool))
        ensures
            observable(self@, o.1),
            !self@.has_task ==> !o.0,
    {
        if self.panic_message.is_some() {
            return (false, false);
        }
        let finished = match &self.task_handle {
            Some(handle) => handle.is_finished(),
            None => false,
        };
        let ready = self.is_ready();
        (finished, ready)
    }

    /// Hands out the result cell for a new task, for the given observations of the
    /// runtime, when the `Deferred` reads as not initialized.
    pub fn prepare_begin_given(&mut self, finished: bool, ready: bool) -> (cell: Option<
        Arc<OnceCell<T>>,
    >)
        ensures
            (cell is Some) == (observed_state(old(self)@, finished, ready) is NotInitialized),
            cell is None ==> *final(self) == *old(self),
            cell is Some ==> final(self)@ == old(self)@.with_cell_handed_out(),
            cell matches Some(c) ==> *c == final(self).result_cell(),
            final(self).result_cell() == old(self).result_cell(),
    {
        if !self.is_not_initialized_given(finished, ready) {
            return None;
        }
        self.cell_handed_out = true;
        Some(arc_share(&self.value))
    }

    /// Hands out the result cell for a new task when none has been started: the first
    /// half of beginning a task. `None` when a task has already been started or completed,
    /// and whenever the current cell has already been handed out: only `new`, `cancel`
    /// and a `take` that hands out a value put in a cell that can be handed out. The cell
    /// is to be moved into the task whose handle is then attached, and kept nowhere else.
    pub fn prepare_begin(&mut self) -> (cell: Option<Arc<OnceCell<T>>>)
        ensures
            exists|finished: bool, ready: bool|
                observable(old(self)@, ready) && (cell is Some) == (observed_state(
                    old(self)@,
                    finished,
                    ready,
                ) is NotInitialized),
            cell is None ==> *final(self) == *old(self),
            cell is Some ==> final(self)@ == old(self)@.with_cell_handed_out(),
            cell matches Some(c) ==> *c == final(self).result_cell(),
            final(self).result_cell() == old(self).result_cell(),
            old(self)@.cell_handed_out ==> cell is None,
    {
        if self.cell_handed_out {
            // A cell that was handed out is never handed out again: its task, or the
            // join of its task, decides what it holds.
            assert(observable(self@, may_hold_result(self@)) && !(observed_state(
                self@,
                false,
                may_hold_result(self@),
            ) is NotInitialized));
            return None;
        }
        let (finished, ready) = self.observe_runtime();
        self.prepare_begin_given(finished, ready)
    }

    /// Keeps the handle of the task that fills the result cell: the second half of
    /// beginning a task.
    pub fn attach_task(&mut self, handle: JoinHandle<()>)
        ensures
            final(self)@ == old(self)@.with_task(),
            final(self).result_cell() == old(self).result_cell(),
    {
        self.task_handle = Some(handle);
    }

    /// Whether the result cell may hold a value; when it may not, it is empty.
    fn result_possible(&self) -> (b: bool)
        ensures
            b == may_hold_result(self@),
    {
        self.cell_handed_out && !(self.panic_message.is_some() && !self.is_callback_panic)
    }

    /// Attempts to retrieve the result of the computation if available. A cell that was
    /// never handed out to a task is empty, and so is that of a task found by a join to
    /// have panicked in its computation or to have been cancelled.
    pub fn try_get(&self) -> (r: Option<&T>)
        ensures
            !self@.cell_handed_out ==> r is None,
            !may_hold_result(self@) ==> r is None,
    {
        if self.result_possible() {
            self.value.get()
        } else {
            None
        }
    }

    /// Returns `true` if the data is available. A cell that was never handed out to a
    /// task is empty, and so is that of a task found by a join to have panicked in its
    /// computation or to have been cancelled.
    pub fn is_ready(&self) -> (b: bool)
        ensures
            !self@.cell_handed_out ==> !b,
            observable(self@, b),
    {
        self.result_possible() && self.value.get().is_some()
    }

    /// Whether the task panicked, for the given observations of the runtime.
    pub fn has_task_panicked_given(&self, finished: bool, ready: bool) -> (b: bool)
        ensures
            b == (observed_state(self@, finished, ready) is TaskPanicked),
    {
        matches!(self.state_given(finished, ready), State::TaskPanicked(_))
    }

    /// Returns `true` if the task panicked during execution.
    pub fn has_task_panicked(&self) -> (b: bool)
        ensures
            exists|finished: bool, ready: bool|
                observable(self@, ready) && b == (observed_state(self@, finished, ready) is TaskPanicked),
    {
        let (finished, ready) = self.observe_runtime();
        self.has_task_panicked_given(finished, ready)
    }

    /// Whether the task has completed, for the given observations of the runtime.
    pub fn is_complete_given(&self, finished: bool, ready: bool) -> (b: bool)
        ensures
            b == (observed_state(self@, finished, ready) is Completed),
    {
        matches!(self.state_given(finished, ready), State::Completed)
    }

    /// Returns `true` if the task has completed successfully.
    pub fn is_complete(&self) -> (b: bool)
        ensures
            exists|finished: bool, ready: bool|
                observable(self@, ready) && b == (observed_state(self@, finished, ready) is Completed),
    {
        let (finished, ready) = self.observe_runtime();
        self.is_complete_given(finished, ready)
    }

    /// Whether the task is running, for the given observations of the runtime.
    pub fn is_pending_given(&self, finished: bool, ready: bool) -> (b: bool)
        ensures
            b == (observed_state(self@, finished, ready) is Pending),
    {
        matches!(self.state_given(finished, ready), State::Pending)
    }

    /// Returns `true` if the task is currently running.
    pub fn is_pending(&self) -> (b: bool)
        ensures
            exists|finished: bool, ready: bool|
                observable(self@, ready) && b == (observed_state(self@, finished, ready) is Pending),
    {
        let (finished, ready) = self.observe_runtime();
        self.is_pending_given(finished, ready)
    }

    /// Whether no task has been started, for the given observations of the runtime.
    pub fn is_not_initialized_given(&self, finished: bool, ready: bool) -> (b: bool)
        ensures
            b == (observed_state(self@, finished, ready) is NotInitialized),
    {
        matches!(self.state_given(finished, ready), State::NotInitialized)
    }

    /// Returns `true` if the task hasn't been initialized yet.
    pub fn is_not_initialized(&self) -> (b: bool)
        ensures
            exists|finished: bool, ready: bool|
                observable(self@, ready) && b == (observed_state(self@, finished, ready) is NotInitialized),
    {
        let (finished, ready) = self.observe_runtime();
        self.is_not_initialized_given(finished, ready)
    }

    /// Cancels the task, for the given observations of the runtime, when it reads as
    /// pending; the `Deferred` then holds no task, no recorded panic and a new result
    /// cell that no task holds.
    pub fn cancel_given(&mut self, finished: bool, ready: bool) -> (cancelled: bool)
        ensures
            cancelled == (observed_state(old(self)@, finished, ready) is Pending),
            cancelled ==> old(self)@.has_task && old(self)@.panic_message is None,
            cancelled ==> final(self)@ == DeferredView::fresh(),
            !cancelled ==> *final(self) == *old(self),
    {
        if self.is_pending_given(finished, ready) {
            if let Some(handle) = &self.task_handle {
                handle.abort();
            }
            self.task_handle = None;
            self.value = Arc::new(OnceCell::new());
            self.panic_message = None;
            self.is_callback_panic = false;
            self.cell_handed_out = false;
            true
        } else {
            false
        }
    }

    /// Cancels the current task if it's pending; the `Deferred` then holds no task,
    /// no recorded panic and a new result cell that no task holds.
    pub fn cancel(&mut self) -> (cancelled: bool)
        ensures
            exists|finished: bool, ready: bool|
                observable(old(self)@, ready) && cancelled == (observed_state(
                    old(self)@,
                    finished,
                    ready,
                ) is Pending),
            cancelled ==> old(self)@.has_task && old(self)@.panic_message is None,
            cancelled ==> final(self)@ == DeferredView::fresh(),
            !cancelled ==> *final(self) == *old(self),
    {
        let (finished, ready) = self.observe_runtime();
        self.cancel_given(finished, ready)
    }

    /// Completes a `take` from what unwrapping the old result cell gave: `Ok` with the
    /// value the cell held, when no task held it any more, or `Err` with the cell itself,
    /// still shared with the task. A value handed out releases the task handle; an
    /// unshared cell is replaced by a new one that no task holds; a shared cell is kept.
    pub fn finish_take(&mut self, outcome: Result<Option<T>, Arc<OnceCell<T>>>) -> (result:
        Option<T>)
        ensures
            outcome matches Ok(inner) ==> result == inner,
            outcome matches Ok(inner) ==> (inner is Some ==> final(self)@ == old(self)@.taken()),
            outcome matches Ok(inner) ==> (inner is None ==> final(self)@ == old(
                self,
            )@.with_cell_reclaimed()),
            outcome matches Err(shared) ==> result is None && final(self)@ == old(
                self,
            )@.with_cell_handed_out() && final(self).result_cell() == *shared,
    {
        match outcome {
            Ok(inner) => {
                self.value = Arc::new(OnceCell::new());
                self.cell_handed_out = false;
                if inner.is_some() {
                    self.task_handle = None;
                }
                inner
            },
            Err(shared) => {
                self.value = shared;
                self.cell_handed_out = true;
                None
            },
        }
    }

    /// Takes the computed value, for the given observation of whether it is stored:
    /// nothing is taken and nothing changes when it is not.
    pub fn take_given(&mut self, ready: bool) -> (result: Option<T>)
        ensures
            !ready ==> *final(self) == *old(self) && result is None,
            result is Some ==> final(self)@ == old(self)@.taken(),
            ready && result is None ==> (final(self)@ == old(self)@.with_cell_handed_out()
                && final(self).result_cell() == old(self).result_cell()) || final(self)@ == old(
                self,
            )@.with_cell_reclaimed(),
    {
        if !ready {
            return None;
        }
        let mut value = Arc::new(OnceCell::new());
        std::mem::swap(&mut value, &mut self.value);
        let outcome = match arc_try_unwrap(value) {
            Ok(cell) => Ok(cell.into_inner()),
            Err(shared) => Err(shared),
        };
        self.finish_take(outcome)
    }

    /// Attempts to take ownership of the computed value. When the value is handed out,
    /// the task handle is released and a new result cell, held by no task, takes the
    /// place of the old one. While the task still holds the cell (its callback is still
    /// running), nothing is taken and the cell is kept.
    pub fn take(&mut self) -> (result: Option<T>)
        ensures
            exists|ready: bool|
                #[trigger] observable(old(self)@, ready) && (!ready ==> *final(self) == *old(
                    self,
                ) && result is None),
            !old(self)@.cell_handed_out ==> *final(self) == *old(self) && result is None,
            result is Some ==> final(self)@ == old(self)@.taken(),
            result is None ==> (final(self)@ == old(self)@ && final(self).result_cell() == old(
                self,
            ).result_cell()) || final(self)@ == old(self)@.with_cell_reclaimed(),
    {
        let ready = self.is_ready();
        let result = self.take_given(ready);
        assert(observable(old(self)@, ready));
        result
    }
}

impl<T> Default for Deferred<T> where T: Send + Sync + 'static {
    /// Creates a new empty `Deferred` instance, as [`Deferred::new`] does.
    fn default() -> (d: Self)
        ensures
            d@ == DeferredView::fresh(),
    {
        Self::new()
    }
}

} // verus!
