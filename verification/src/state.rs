use vstd::prelude::*;

verus! {

/// Represents the current state of an asynchronous task.
#[derive(Debug, Clone, PartialEq, Eq)]
pub enum State {
    /// The task hasn't been started yet.
    NotInitialized,
    /// The task is currently running.
    Pending,
    /// The task has completed successfully and returned a value.
    Completed,
    /// The task panicked during execution.
    TaskPanicked(String),
    /// The callback panicked during execution.
    CallbackPanicked(String),
}

/// The mathematical value of a [`State`]: messages are sequences of characters.
pub enum StateView {
    NotInitialized,
    Pending,
    Completed,
    TaskPanicked(Seq<char>),
    CallbackPanicked(Seq<char>),
}

impl View for State {
    type V = StateView;

    open spec fn view(&self) -> StateView {
        match self {
            State::NotInitialized => StateView::NotInitialized,
            State::Pending => StateView::Pending,
            State::Completed => StateView::Completed,
            State::TaskPanicked(m) => StateView::TaskPanicked(m@),
            State::CallbackPanicked(m) => StateView::CallbackPanicked(m@),
        }
    }
}

} // verus!
