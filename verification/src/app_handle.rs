//! Reaching the application handle that is shared with Python.

use vstd::prelude::*;

verus! {

/// The application was not built by this library, so the state that holds
/// its Python-side handle is missing.
#[derive(Debug, Clone, Copy, PartialEq, Eq, Structural)]
pub struct PyAppHandleStateError;

/// The text of [`PyAppHandleStateError`].
pub open spec fn app_handle_state_error_text() -> Seq<char> {
    "Failed to get `PyAppHandle` from state, maybe this app was not created by pytauri"@
}

impl PyAppHandleStateError {
    /// The message shown for this error (also the text of the Python
    /// `RuntimeError` raised for it).
    pub fn message(&self) -> (r: String)
        ensures
            r@ == app_handle_state_error_text(),
    {
        "Failed to get `PyAppHandle` from state, maybe this app was not created by pytauri".to_owned()
    }
}

/// A lookup of the shared handle, or the error that it is missing.
pub type PyAppHandleStateResult<T> = Result<T, PyAppHandleStateError>;

/// What looking up the shared handle gives, when the application's state
/// holds `state`.
pub open spec fn app_handle_lookup<H>(state: Option<H>) -> PyAppHandleStateResult<H> {
    match state {
        Some(h) => Ok(h),
        None => Err(PyAppHandleStateError),
    }
}

/// The shared handle found in the application's state, or the error that
/// the state does not hold one.
pub fn try_py_app_handle<H>(state: Option<H>) -> (r: PyAppHandleStateResult<H>)
    ensures
        r == app_handle_lookup(state),
{
    match state {
        Some(h) => Ok(h),
        None => Err(PyAppHandleStateError),
    }
}

/// The shared handle found in the application's state, which must hold one.
pub fn py_app_handle<H>(state: Option<H>) -> (r: H)
    requires
        state is Some,
    ensures
        Some(r) == state,
{
    state.unwrap()
}

} // verus!
