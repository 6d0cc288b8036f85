//! Errors that cross the boundary to the runtime.

use vstd::prelude::*;

verus! {

/// Where a failure of a slot call comes from.
#[derive(Clone, Copy, Debug, PartialEq, Eq, Structural)]
pub enum PyErrKind {
    /// The slot is shared by two operations and the host type implements only
    /// the other one.
    UnsupportedOperation,
    /// A value does not have the shape that a conversion expects.
    ConversionError,
    /// The borrow discipline of the cell would be violated.
    BorrowError,
    /// The host type's own operation reported a failure.
    UserError,
}

/// An error as the runtime sees it: its origin and a description.
#[derive(Clone, Copy, Debug, PartialEq, Eq)]
pub struct PyErr {
    pub kind: PyErrKind,
    pub message: &'static str,
}

/// Result of anything that may raise an error towards the runtime.
pub type PyResult<T> = Result<T, PyErr>;

impl PyErr {
    /// An error of the given origin with the given description.
    pub fn new(kind: PyErrKind, message: &'static str) -> (e: PyErr)
        ensures
            e == (PyErr { kind, message }),
    {
        PyErr { kind, message }
    }

    /// A failure reported by a host type's own operation.
    pub fn user(message: &'static str) -> (e: PyErr)
        ensures
            e == (PyErr { kind: PyErrKind::UserError, message }),
    {
        PyErr { kind: PyErrKind::UserError, message }
    }

    /// A value that a conversion could not accept.
    pub fn conversion(message: &'static str) -> (e: PyErr)
        ensures
            e == (PyErr { kind: PyErrKind::ConversionError, message }),
    {
        PyErr { kind: PyErrKind::ConversionError, message }
    }

    pub open spec fn spec_deletion_unsupported() -> PyErr {
        PyErr { kind: PyErrKind::UnsupportedOperation, message: "Item deletion is not supported" }
    }

    /// Raised when an item is to be deleted from a host type that only
    /// implements assignment.
    #[verifier::when_used_as_spec(spec_deletion_unsupported)]
    pub fn deletion_unsupported() -> (e: PyErr)
        ensures
            e == Self::spec_deletion_unsupported(),
    {
        PyErr { kind: PyErrKind::UnsupportedOperation, message: "Item deletion is not supported" }
    }

    pub open spec fn spec_assignment_unsupported() -> PyErr {
        PyErr { kind: PyErrKind::UnsupportedOperation, message: "Item assignment is not supported" }
    }

    /// Raised when an item is to be assigned in a host type that only
    /// implements deletion.
    #[verifier::when_used_as_spec(spec_assignment_unsupported)]
    pub fn assignment_unsupported() -> (e: PyErr)
        ensures
            e == Self::spec_assignment_unsupported(),
    {
        PyErr { kind: PyErrKind::UnsupportedOperation, message: "Item assignment is not supported" }
    }

    pub open spec fn spec_already_mutably_borrowed() -> PyErr {
        PyErr { kind: PyErrKind::BorrowError, message: "Already mutably borrowed" }
    }

    /// Raised when shared access is asked of a cell that cannot grant it.
    #[verifier::when_used_as_spec(spec_already_mutably_borrowed)]
    pub fn already_mutably_borrowed() -> (e: PyErr)
        ensures
            e == Self::spec_already_mutably_borrowed(),
    {
        PyErr { kind: PyErrKind::BorrowError, message: "Already mutably borrowed" }
    }

    pub open spec fn spec_already_borrowed() -> PyErr {
        PyErr { kind: PyErrKind::BorrowError, message: "Already borrowed" }
    }

    /// Raised when exclusive access is asked of a cell that is borrowed.
    #[verifier::when_used_as_spec(spec_already_borrowed)]
    pub fn already_borrowed() -> (e: PyErr)
        ensures
            e == Self::spec_already_borrowed(),
    {
        PyErr { kind: PyErrKind::BorrowError, message: "Already borrowed" }
    }

    pub open spec fn spec_length_overflow() -> PyErr {
        PyErr { kind: PyErrKind::ConversionError, message: "length does not fit in a signed size" }
    }

    /// Raised when a length is too large for the runtime's signed size type.
    #[verifier::when_used_as_spec(spec_length_overflow)]
    pub fn length_overflow() -> (e: PyErr)
        ensures
            e == Self::spec_length_overflow(),
    {
        PyErr { kind: PyErrKind::ConversionError, message: "length does not fit in a signed size" }
    }

    pub open spec fn spec_integer_expected() -> PyErr {
        PyErr { kind: PyErrKind::ConversionError, message: "object cannot be interpreted as an integer" }
    }

    /// Raised when an integer is extracted from an object that holds none.
    #[verifier::when_used_as_spec(spec_integer_expected)]
    pub fn integer_expected() -> (e: PyErr)
        ensures
            e == Self::spec_integer_expected(),
    {
        PyErr { kind: PyErrKind::ConversionError, message: "object cannot be interpreted as an integer" }
    }

    pub open spec fn spec_boolean_expected() -> PyErr {
        PyErr { kind: PyErrKind::ConversionError, message: "object cannot be interpreted as a boolean" }
    }

    /// Raised when a boolean is extracted from an object that holds none.
    #[verifier::when_used_as_spec(spec_boolean_expected)]
    pub fn boolean_expected() -> (e: PyErr)
        ensures
            e == Self::spec_boolean_expected(),
    {
        PyErr { kind: PyErrKind::ConversionError, message: "object cannot be interpreted as a boolean" }
    }
}

} // verus!
