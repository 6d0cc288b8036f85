//! Values of the runtime as they reach and leave a slot.

use vstd::prelude::*;

verus! {

/// An untyped value of the runtime.
///
/// A slot never looks inside such a value: it tells an absent value (the null
/// sentinel, `None` of an `Option`) from a present one and hands present ones
/// to a conversion.
#[derive(Clone, Copy, Debug, PartialEq, Eq, Structural)]
pub enum PyObject {
    /// The runtime's unit value.
    Unit,
    /// A truth value.
    Bool(bool),
    /// A word-sized integer.
    Int(isize),
    /// An instance of some class, known by its identity.
    Instance(usize),
}

} // verus!
