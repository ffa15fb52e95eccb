//! The parts of tokio that the library uses, with what the library relies on of each.
use vstd::prelude::*;
use std::sync::Arc;
use tokio::sync::OnceCell;
use tokio::task::{JoinError, JoinHandle};

verus! {

#[verifier::external_type_specification]
#[verifier::external_body]
#[verifier::reject_recursive_types(T)]
pub struct ExOnceCell<T>(OnceCell<T>);

#[verifier::external_type_specification]
#[verifier::external_body]
#[verifier::reject_recursive_types(T)]
pub struct ExJoinHandle<T>(JoinHandle<T>);

#[verifier::external_type_specification]
#[verifier::external_body]
pub struct ExJoinError(JoinError);

/// `tokio::sync::OnceCell::new`: creates an empty cell. Nothing is claimed of the
/// result: the library has no name for the contents of a cell that another task writes.
pub assume_specification<T>[ OnceCell::<T>::new ]() -> OnceCell<T>;

/// `tokio::sync::OnceCell::get`: the value stored so far, if any. What it returns depends
/// on how far the task that fills the cell has run, so nothing is claimed of it.
pub assume_specification<T>[ OnceCell::<T>::get ](cell: &OnceCell<T>) -> Option<&T>;

/// `tokio::sync::OnceCell::into_inner`: the stored value, if any. Nothing is claimed:
/// the library has no name for what a cell holds.
pub assume_specification<T>[ OnceCell::<T>::into_inner ](cell: OnceCell<T>) -> Option<T>;

/// `tokio::task::JoinHandle::is_finished`: whether the task has run to its end. It
/// depends on how far the task has run, so nothing is claimed of it.
pub assume_specification<T>[ JoinHandle::<T>::is_finished ](handle: &JoinHandle<T>) -> bool;

/// `tokio::task::JoinHandle::abort`: asks the runtime to cancel the task. It changes
/// nothing that the library can see.
pub assume_specification<T>[ JoinHandle::<T>::abort ](handle: &JoinHandle<T>);

/// `std::sync::Arc::clone`: a second handle on the same allocation, so the value it
/// points to is the one `a` points to.
#[verifier::external_body]
pub(crate) fn arc_share<U>(a: &Arc<U>) -> (r: Arc<U>)
    ensures
        r == *a,
{
    Arc::clone(a)
}

/// `std::sync::Arc::try_unwrap`: the inner value when `a` is the only strong handle,
/// otherwise `a` itself, handed back.
#[verifier::external_body]
pub(crate) fn arc_try_unwrap<U>(a: Arc<U>) -> (r: Result<U, Arc<U>>)
    ensures
        match r {
            Ok(u) => u == a,
            Err(b) => b == a,
        },
{
    Arc::try_unwrap(a)
}

/// Whether a `JoinError` stands for a task that panicked. tokio's `JoinError` holds one
/// of two reasons, a cancellation or a panic with its payload, fixed when the error is
/// made.
pub uninterp spec fn join_error_is_panic(err: JoinError) -> bool;

/// The text that the panic payload of a `JoinError` carries: the message when the
/// payload is a `&str` or a `String`, `None` for any other payload.
pub uninterp spec fn join_error_panic_payload_text(err: JoinError) -> Option<Seq<char>>;

/// `tokio::task::JoinError::is_panic`: whether the error's reason is a panic.
pub assume_specification[ JoinError::is_panic ](err: &JoinError) -> (r: bool)
    ensures
        r == join_error_is_panic(*err),
;

/// `tokio::task::JoinError::is_cancelled`: whether the error's reason is a cancellation,
/// the one reason besides a panic that a `JoinError` can hold.
pub assume_specification[ JoinError::is_cancelled ](err: &JoinError) -> (r: bool)
    ensures
        r == !join_error_is_panic(*err),
;

/// `tokio::task::JoinError::try_into_panic`: the payload the task panicked with when the
/// error's reason is a panic, and otherwise the error itself, handed back unchanged. The
/// payload, a `Box<dyn Any + Send>`, is handed on as the text it carries when it is a
/// `&str` or a `String`, and as `None` otherwise.
#[verifier::external_body]
pub(crate) fn join_error_panic_text(err: JoinError) -> (r: Result<Option<String>, JoinError>)
    ensures
        r is Ok == join_error_is_panic(err),
        r matches Err(e) ==> e == err,
        r matches Ok(text) ==> join_error_panic_payload_text(err) == match text {
            Some(s) => Some(s@),
            None => None::<Seq<char>>,
        },
{
    match err.try_into_panic() {
        Ok(payload) => Ok(
            if let Some(s) = payload.downcast_ref::<&str>() {
                Some(s.to_string())
            } else if let Some(s) = payload.downcast_ref::<String>() {
                Some(s.clone())
            } else {
                None
            },
        ),
        Err(e) => Err(e),
    }
}

} // verus!
