//! Conversions between values of the runtime and values of the host.

use vstd::prelude::*;
use crate::err::{PyErr, PyResult};
use crate::object::PyObject;

verus! {

/// A host type that can be read out of a value of the runtime.
pub trait FromPyObject: Sized {
    /// What `extract` returns for `ob`.
    spec fn extract_spec(ob: &PyObject) -> PyResult<Self>;

    /// Reads a value of this type out of `ob`, or says why `ob` has the wrong
    /// shape.
    fn extract(ob: &PyObject) -> (r: PyResult<Self>)
        ensures
            r == Self::extract_spec(ob),
    ;
}

/// A host type that can be turned into a `T` of the runtime.
pub trait IntoPy<T>: Sized {
    /// What `into_py` returns for `self`.
    spec fn into_py_spec(self) -> T;

    /// Turns `self` into a value of the runtime.
    fn into_py(self) -> (r: T)
        ensures
            r == self.into_py_spec(),
    ;
}

impl FromPyObject for PyObject {
    open spec fn extract_spec(ob: &PyObject) -> PyResult<PyObject> {
        Ok(*ob)
    }

    fn extract(ob: &PyObject) -> (r: PyResult<PyObject>) {
        Ok(*ob)
    }
}

impl FromPyObject for isize {
    open spec fn extract_spec(ob: &PyObject) -> PyResult<isize> {
        match *ob {
            PyObject::Int(n) => Ok(n),
            _ => Err(PyErr::integer_expected()),
        }
    }

    fn extract(ob: &PyObject) -> (r: PyResult<isize>) {
        match *ob {
            PyObject::Int(n) => Ok(n),
            _ => Err(PyErr::integer_expected()),
        }
    }
}

impl FromPyObject for bool {
    open spec fn extract_spec(ob: &PyObject) -> PyResult<bool> {
        match *ob {
            PyObject::Bool(b) => Ok(b),
            _ => Err(PyErr::boolean_expected()),
        }
    }

    fn extract(ob: &PyObject) -> (r: PyResult<bool>) {
        match *ob {
            PyObject::Bool(b) => Ok(b),
            _ => Err(PyErr::boolean_expected()),
        }
    }
}

impl IntoPy<PyObject> for PyObject {
    open spec fn into_py_spec(self) -> PyObject {
        self
    }

    fn into_py(self) -> (r: PyObject) {
        self
    }
}

impl IntoPy<PyObject> for () {
    open spec fn into_py_spec(self) -> PyObject {
        PyObject::Unit
    }

    fn into_py(self) -> (r: PyObject) {
        PyObject::Unit
    }
}

impl IntoPy<PyObject> for isize {
    open spec fn into_py_spec(self) -> PyObject {
        PyObject::Int(self)
    }

    fn into_py(self) -> (r: PyObject) {
        PyObject::Int(self)
    }
}

impl IntoPy<PyObject> for bool {
    open spec fn into_py_spec(self) -> PyObject {
        PyObject::Bool(self)
    }

    fn into_py(self) -> (r: PyObject) {
        PyObject::Bool(self)
    }
}

/// `idx` is an index that `From<isize>` of `I` may build from `key`.
///
/// A slot receives its index as a signed, word-sized integer and builds the
/// host's index from it by this one path, whatever the sign of `key`.
pub open spec fn index_from<I: From<isize>>(key: isize, idx: I) -> bool {
    call_ensures(I::from, (key,), idx)
}

/// The conversion of a type into itself, `From<T> for T` of `core::convert`,
/// returns its argument unchanged.
pub assume_specification<Same>[ <Same as core::convert::From<Same>>::from ](t: Same) -> (r: Same)
    ensures
        r == t,
;

/// Builds the host's index from the integer that the runtime passed.
pub fn index_of<I: From<isize>>(key: isize) -> (idx: I)
    ensures
        index_from::<I>(key, idx),
{
    I::from(key)
}

/// A host type that takes the runtime's integer as its index gets every
/// integer unchanged, the negative ones too.
pub proof fn lemma_word_index_is_key(key: isize, idx: isize)
    requires
        index_from::<isize>(key, idx),
    ensures
        idx == key,
{
}

} // verus!
