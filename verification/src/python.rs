//! The part of the runtime's state that a slot writes: its pending error.

use vstd::prelude::*;
use crate::err::PyErr;

verus! {

/// The runtime's error indicator.
///
/// A slot that fails stores its error here and returns the sentinel of its
/// return type; the runtime reads the error right after it sees the sentinel.
pub struct Python {
    pending: Option<PyErr>,
}

impl View for Python {
    type V = Option<PyErr>;

    /// The pending error, if there is one.
    closed spec fn view(&self) -> Option<PyErr> {
        self.pending
    }
}

impl Python {
    /// A runtime with no pending error.
    pub fn new() -> (py: Python)
        ensures
            py@ is None,
    {
        Python { pending: None }
    }

    /// Makes `err` the pending error, replacing an earlier one.
    pub fn set_pending_error(&mut self, err: PyErr)
        ensures
            final(self)@ == Some(err),
    {
        self.pending = Some(err);
    }

    /// The pending error, which stays pending.
    pub fn pending_error(&self) -> (err: Option<PyErr>)
        ensures
            err == self@,
    {
        self.pending
    }

    /// Hands out the pending error and clears the indicator.
    pub fn take_pending_error(&mut self) -> (err: Option<PyErr>)
        ensures
            err == old(self)@,
            final(self)@ is None,
    {
        let err = self.pending;
        self.pending = None;
        err
    }
}

} // verus!
