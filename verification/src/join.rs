//! What a join learns about a task that did not end normally, and how it is recorded.
use vstd::prelude::*;
use vstd::string::*;
use tokio::task::JoinError;
use crate::runtime::{join_error_is_panic, join_error_panic_payload_text, join_error_panic_text};

verus! {

/// Why awaiting a task's handle failed, as far as the library tells cases apart.
#[derive(Debug)]
pub enum JoinFailure {
    /// The task panicked; the text of the panic, when its payload was a string.
    Panicked(Option<String>),
    /// The runtime reported a panic but handed out no payload.
    PanicUnavailable,
    /// The task was cancelled.
    Cancelled,
    /// Any other failure.
    Unknown,
}

/// The mathematical value of a [`JoinFailure`].
pub enum JoinFailureView {
    Panicked(Option<Seq<char>>),
    PanicUnavailable,
    Cancelled,
    Unknown,
}

impl View for JoinFailure {
    type V = JoinFailureView;

    open spec fn view(&self) -> JoinFailureView {
        match self {
            JoinFailure::Panicked(Some(s)) => JoinFailureView::Panicked(Some(s@)),
            JoinFailure::Panicked(None) => JoinFailureView::Panicked(None),
            JoinFailure::PanicUnavailable => JoinFailureView::PanicUnavailable,
            JoinFailure::Cancelled => JoinFailureView::Cancelled,
            JoinFailure::Unknown => JoinFailureView::Unknown,
        }
    }
}

/// The message recorded for a panic whose payload carried `text`, if any.
pub open spec fn panic_description(text: Option<Seq<char>>) -> Seq<char> {
    match text {
        Some(s) => "Panic message: "@ + s,
        None => "Panic occurred, but couldn't get the message."@,
    }
}

/// The message recorded for a failed join.
pub open spec fn failure_message(f: JoinFailureView) -> Seq<char> {
    match f {
        JoinFailureView::Panicked(text) => panic_description(text),
        JoinFailureView::PanicUnavailable => "Panic occurred, but couldn't extract panic info."@,
        JoinFailureView::Cancelled => "Task was cancelled."@,
        JoinFailureView::Unknown => "Unknown join error."@,
    }
}

/// Whether a failed join is put down to the callback: the task panicked after its
/// result had been stored (`ready`), so the panic came from the callback that runs
/// after the computation.
pub open spec fn failure_blames_callback(f: JoinFailureView, ready: bool) -> bool {
    match f {
        JoinFailureView::Panicked(_) => ready,
        _ => false,
    }
}

/// The message for a panic whose payload carried `text`, if any.
pub fn describe_panic(text: Option<String>) -> (m: String)
    ensures
        m@ == panic_description(match text {
            Some(s) => Some(s@),
            None => None,
        }),
{
    match text {
        Some(s) => {
            let mut m = String::from_str("Panic message: ");
            m.append(s.as_str());
            m
        },
        None => String::from_str("Panic occurred, but couldn't get the message."),
    }
}

/// The message and the callback flag that a join records for `failure`, where
/// `ready` tells whether the task's result was stored.
pub fn failure_record(failure: JoinFailure, ready: bool) -> (r: (String, bool))
    ensures
        r.0@ == failure_message(failure@),
        r.1 == failure_blames_callback(failure@, ready),
{
    match failure {
        JoinFailure::Panicked(text) => (describe_panic(text), ready),
        JoinFailure::PanicUnavailable => (
            String::from_str("Panic occurred, but couldn't extract panic info."),
            false,
        ),
        JoinFailure::Cancelled => (String::from_str("Task was cancelled."), false),
        JoinFailure::Unknown => (String::from_str("Unknown join error."), false),
    }
}

/// Why awaiting a task's handle failed with `err`: a panic, with the text its payload
/// carries, or a cancellation.
pub open spec fn join_failure_of(err: JoinError) -> JoinFailureView {
    if join_error_is_panic(err) {
        JoinFailureView::Panicked(join_error_panic_payload_text(err))
    } else {
        JoinFailureView::Cancelled
    }
}

/// Tells apart why awaiting a task's handle failed, from what the runtime reports of
/// the error.
pub fn classify_join_error(err: JoinError) -> (f: JoinFailure)
    ensures
        f@ == join_failure_of(err),
{
    if err.is_panic() {
        match join_error_panic_text(err) {
            Ok(text) => JoinFailure::Panicked(text),
            Err(_) => JoinFailure::PanicUnavailable,
        }
    } else if err.is_cancelled() {
        JoinFailure::Cancelled
    } else {
        JoinFailure::Unknown
    }
}

} // verus!
