//! A binder for the sequence protocol of an embedding object runtime.
//!
//! A host type implements any subset of nine sequence operations (length,
//! indexed read, indexed write, indexed delete, membership, concatenation,
//! repetition and the two in-place variants). For each operation that the type
//! implements, this crate supplies the entry point that the runtime calls:
//! it checks the borrow discipline of the cell that holds the value, converts
//! the raw arguments, calls the operation and encodes what came back in the
//! runtime's calling convention, a sentinel plus a pending error on failure.
//!
//! Every entry point carries a contract that Verus proves of its body.

pub mod callback;
pub mod class;
pub mod conversion;
pub mod err;
pub mod object;
pub mod pycell;
pub mod python;

pub use callback::{callback_body, convert, IntoPyCallbackOutput, PyCallbackOutput};
pub use class::proto_methods::{Capabilities, DispatchTable, SlotFunction, SlotTag, TypedSlot};
pub use class::sequence::{
    PySequenceConcatProtocol, PySequenceContainsProtocol, PySequenceDelItemProtocol,
    PySequenceGetItemProtocol, PySequenceInplaceConcatProtocol, PySequenceInplaceRepeatProtocol,
    PySequenceLenProtocol, PySequenceProtocol, PySequenceRepeatProtocol,
    PySequenceSetItemProtocol, PySequenceSlots,
};
pub use conversion::{FromPyObject, IntoPy};
pub use err::{PyErr, PyErrKind, PyResult};
pub use object::PyObject;
pub use pycell::{PyBorrowError, PyBorrowMutError, PyCell};
pub use python::Python;
