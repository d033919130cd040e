//! Small helpers around pollable computations.
//!
//! The supervisor's event loop advances futures by polling; a poll either
//! yields a value or reports that the condition is not ready yet. The
//! adapters here wrap a fallible construction step and a fallible inner
//! computation so both present one uniform polling surface. Driving the
//! actual event loop is left to the unverified layer; the state carried
//! between polls and the decision each poll makes are modelled here.

use vstd::prelude::*;

verus! {

/// The outcome of polling a not-yet-completed computation: either its value
/// is ready, or the caller must poll again later.
#[derive(Clone, Copy, Debug, PartialEq, Eq)]
pub enum Async<T> {
    /// The computation finished with this value.
    Ready(T),
    /// The computation has not finished; poll again after the next wake-up.
    NotReady,
}

/// An adapter that carries an inner computation whose eventual error will be
/// reported in a caller-chosen, widened form. The widening itself concerns
/// only the error's type, so the adapter is a plain carrier.
#[derive(Clone, Debug)]
pub struct BoxedErr<F> {
    /// The computation being adapted.
    pub inner: F,
}

/// Wraps a computation so its eventual error can be widened by the caller.
pub fn boxed_err<F>(f: F) -> (r: BoxedErr<F>)
    ensures
        r.inner == f,
{
    BoxedErr { inner: f }
}

/// An adapter that turns the result of a fallible construction step into a
/// pollable computation: a successfully constructed inner computation is
/// polled through, while a construction error is handed out exactly once by
/// the first poll.
#[derive(Debug)]
pub struct FromResultBoxed<F, E> {
    /// Either the constructed computation, or its construction error until
    /// the first poll takes it.
    pub inner: Result<F, Option<E>>,
}

/// Wraps the result of a fallible construction step for polling.
pub fn from_result_boxed<F, E>(r: Result<F, E>) -> (a: FromResultBoxed<F, E>)
    ensures
        r matches Ok(f) ==> a.inner matches Ok(g) && g == f,
        r matches Err(e) ==> a.inner matches Err(o) && o == Some(e),
{
    match r {
        Ok(f) => FromResultBoxed { inner: Ok(f) },
        Err(e) => FromResultBoxed { inner: Err(Some(e)) },
    }
}

impl<F, E> FromResultBoxed<F, E> {
    /// What the first poll of a construction failure reports: it takes the
    /// stored error out, so a second poll finds nothing and must not
    /// happen.
    pub fn poll_error(&mut self) -> (e: E)
        requires
            old(self).inner matches Err(o) && o is Some,
        ensures
            old(self).inner matches Err(o) && Some(e) == o,
            final(self).inner == Result::<F, Option<E>>::Err(None),
    {
        match &mut self.inner {
            Err(o) => {
                match o.take() {
                    Some(e) => e,
                    None => unreached(),
                }
            },
            Ok(_) => unreached(),
        }
    }
}

} // verus!
