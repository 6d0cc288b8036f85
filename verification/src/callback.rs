//! The calling convention between a slot and the runtime.
//!
//! A slot's body computes a `PyResult`. The runtime understands neither
//! `Ok` nor `Err`: it gets a plain value, and reads a failure off a sentinel
//! that no success produces, together with the pending error.

use vstd::prelude::*;
use crate::conversion::IntoPy;
use crate::err::{PyErr, PyResult};
use crate::object::PyObject;
use crate::python::Python;

verus! {

/// A type that a slot may return to the runtime.
pub trait PyCallbackOutput: Sized {
    /// The sentinel that stands for failure.
    spec fn spec_err_value() -> Self;

    /// The sentinel that stands for failure.
    fn err_value() -> (v: Self)
        ensures
            v == Self::spec_err_value(),
    ;
}

/// A status: zero or one on success.
impl PyCallbackOutput for i32 {
    open spec fn spec_err_value() -> i32 {
        -1i32
    }

    fn err_value() -> (v: i32) {
        -1
    }
}

/// A size: never negative on success.
impl PyCallbackOutput for isize {
    open spec fn spec_err_value() -> isize {
        -1isize
    }

    fn err_value() -> (v: isize) {
        -1
    }
}

/// An object: present on success, null on failure.
impl PyCallbackOutput for Option<PyObject> {
    open spec fn spec_err_value() -> Option<PyObject> {
        None
    }

    fn err_value() -> (v: Option<PyObject>) {
        None
    }
}

/// What an operation returns, seen as a `Target` or as a failure.
pub trait IntoPyCallbackOutput<Target>: Sized {
    /// What `convert` returns for `self`.
    spec fn convert_spec(self) -> PyResult<Target>;

    /// Turns the outcome of an operation into a `Target`.
    fn convert(self) -> (r: PyResult<Target>)
        ensures
            r == self.convert_spec(),
    ;
}

impl IntoPyCallbackOutput<()> for () {
    open spec fn convert_spec(self) -> PyResult<()> {
        Ok(())
    }

    fn convert(self) -> (r: PyResult<()>) {
        Ok(())
    }
}

impl IntoPyCallbackOutput<bool> for bool {
    open spec fn convert_spec(self) -> PyResult<bool> {
        Ok(self)
    }

    fn convert(self) -> (r: PyResult<bool>) {
        Ok(self)
    }
}

impl IntoPyCallbackOutput<usize> for usize {
    open spec fn convert_spec(self) -> PyResult<usize> {
        Ok(self)
    }

    fn convert(self) -> (r: PyResult<usize>) {
        Ok(self)
    }
}

/// Whatever converts into an object is an operation's result of that kind.
impl<T: IntoPy<PyObject>> IntoPyCallbackOutput<PyObject> for T {
    open spec fn convert_spec(self) -> PyResult<PyObject> {
        Ok(self.into_py_spec())
    }

    fn convert(self) -> (r: PyResult<PyObject>) {
        Ok(self.into_py())
    }
}

/// An operation may fail: its error is passed on unchanged.
impl<T, U> IntoPyCallbackOutput<U> for PyResult<T> where T: IntoPyCallbackOutput<U> {
    open spec fn convert_spec(self) -> PyResult<U> {
        match self {
            Ok(v) => v.convert_spec(),
            Err(e) => Err(e),
        }
    }

    fn convert(self) -> (r: PyResult<U>) {
        match self {
            Ok(v) => v.convert(),
            Err(e) => Err(e),
        }
    }
}

/// `value` converted to a `U`.
pub open spec fn converted<T: IntoPyCallbackOutput<U>, U>(value: T) -> PyResult<U> {
    value.convert_spec()
}

/// Converts `value` to a `U`.
pub fn convert<T: IntoPyCallbackOutput<U>, U>(value: T) -> (r: PyResult<U>)
    ensures
        r == converted::<T, U>(value),
{
    value.convert()
}

/// A length as a slot reports it: as a signed size, if it fits in one.
pub open spec fn encoded_size<R: IntoPyCallbackOutput<usize>>(result: R) -> PyResult<isize> {
    match converted::<R, usize>(result) {
        Ok(n) => if n <= isize::MAX {
            Ok(n as isize)
        } else {
            Err(PyErr::length_overflow())
        },
        Err(e) => Err(e),
    }
}

/// Reports the length that an operation returned.
pub fn encode_size<R: IntoPyCallbackOutput<usize>>(result: R) -> (out: PyResult<isize>)
    ensures
        out == encoded_size::<R>(result),
{
    match convert::<R, usize>(result) {
        Ok(n) => if n <= isize::MAX as usize {
            Ok(n as isize)
        } else {
            Err(PyErr::length_overflow())
        },
        Err(e) => Err(e),
    }
}

/// A completed operation as a slot reports it: as status zero.
pub open spec fn encoded_unit<R: IntoPyCallbackOutput<()>>(result: R) -> PyResult<i32> {
    match converted::<R, ()>(result) {
        Ok(_) => Ok(0i32),
        Err(e) => Err(e),
    }
}

/// Reports that an operation has completed.
pub fn encode_unit<R: IntoPyCallbackOutput<()>>(result: R) -> (out: PyResult<i32>)
    ensures
        out == encoded_unit::<R>(result),
{
    match convert::<R, ()>(result) {
        Ok(_) => Ok(0),
        Err(e) => Err(e),
    }
}

/// A truth value as a slot reports it: as status one or zero.
pub open spec fn encoded_truth<R: IntoPyCallbackOutput<bool>>(result: R) -> PyResult<i32> {
    match converted::<R, bool>(result) {
        Ok(b) => if b {
            Ok(1i32)
        } else {
            Ok(0i32)
        },
        Err(e) => Err(e),
    }
}

/// Reports the truth value that an operation returned.
pub fn encode_truth<R: IntoPyCallbackOutput<bool>>(result: R) -> (out: PyResult<i32>)
    ensures
        out == encoded_truth::<R>(result),
{
    match convert::<R, bool>(result) {
        Ok(b) => if b {
            Ok(1)
        } else {
            Ok(0)
        },
        Err(e) => Err(e),
    }
}

/// An object as a slot reports it: as a pointer that is not null.
pub open spec fn encoded_object<R: IntoPyCallbackOutput<PyObject>>(result: R) -> PyResult<
    Option<PyObject>,
> {
    match converted::<R, PyObject>(result) {
        Ok(ob) => Ok(Some(ob)),
        Err(e) => Err(e),
    }
}

/// Reports the object that an operation returned.
pub fn encode_object<R: IntoPyCallbackOutput<PyObject>>(result: R) -> (out: PyResult<
    Option<PyObject>,
>)
    ensures
        out == encoded_object::<R>(result),
{
    match convert::<R, PyObject>(result) {
        Ok(ob) => Ok(Some(ob)),
        Err(e) => Err(e),
    }
}

/// A host value as a slot reports it: turned into an object, as a pointer
/// that is not null.
pub open spec fn encoded_self<T: IntoPy<PyObject>, R: IntoPyCallbackOutput<T>>(
    result: R,
) -> PyResult<Option<PyObject>> {
    match converted::<R, T>(result) {
        Ok(host) => Ok(Some(host.into_py_spec())),
        Err(e) => Err(e),
    }
}

/// Reports the host value that an in-place operation returned.
pub fn encode_self<T: IntoPy<PyObject>, R: IntoPyCallbackOutput<T>>(result: R) -> (out: PyResult<
    Option<PyObject>,
>)
    ensures
        out == encoded_self::<T, R>(result),
{
    match convert::<R, T>(result) {
        Ok(host) => Ok(Some(host.into_py())),
        Err(e) => Err(e),
    }
}

/// What the runtime sees of `result`: the value returned to it and its
/// pending error, which was `pending` before the call.
pub open spec fn callback_outcome<R: PyCallbackOutput>(
    pending: Option<PyErr>,
    result: PyResult<R>,
) -> (R, Option<PyErr>) {
    match result {
        Ok(v) => (v, pending),
        Err(e) => (R::spec_err_value(), Some(e)),
    }
}

/// Ends a slot call: hands a success to the runtime as it is, and turns a
/// failure into the pending error and the sentinel of the return type.
pub fn callback_body<R: PyCallbackOutput>(py: &mut Python, result: PyResult<R>) -> (ret: R)
    ensures
        (ret, final(py)@) == callback_outcome(old(py)@, result),
{
    match result {
        Ok(v) => v,
        Err(e) => {
            py.set_pending_error(e);
            R::err_value()
        },
    }
}

/// A success never looks like a failure: a reported length is not negative,
/// a reported status is zero, or zero or one for a truth value, and a
/// reported object is not null; none of them is the sentinel of its type.
pub proof fn lemma_success_is_no_sentinel<
    S: IntoPyCallbackOutput<usize>,
    U: IntoPyCallbackOutput<()>,
    B: IntoPyCallbackOutput<bool>,
    O: IntoPyCallbackOutput<PyObject>,
>(size: S, unit: U, truth: B, object: O)
    ensures
        encoded_size::<S>(size) matches Ok(n) ==> n >= 0 && n != isize::spec_err_value(),
        encoded_unit::<U>(unit) matches Ok(s) ==> s == 0 && s != i32::spec_err_value(),
        encoded_truth::<B>(truth) matches Ok(s) ==> (s == 0 || s == 1) && s
            != i32::spec_err_value(),
        encoded_object::<O>(object) matches Ok(p) ==> p is Some && p != Option::<
            PyObject,
        >::spec_err_value(),
{
}

} // verus!
