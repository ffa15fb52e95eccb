//! Fire-and-forget asynchronous computations whose result is collected later.
//!
//! The verified core of the library: the lifecycle of a deferred task
//! (`NotInitialized`, `Pending`, `Completed`, `TaskPanicked`, `CallbackPanicked`),
//! how it is read from what the runtime reports, and how cancellation,
//! joining and taking the result move it from one state to the next.
pub mod state;
pub mod runtime;
pub mod deferred;
pub mod join;
pub mod laws;

pub use deferred::Deferred;
pub use join::JoinFailure;
pub use state::State;
