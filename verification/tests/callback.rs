use pysequence::callback::{
    callback_body, convert, encode_object, encode_size, encode_truth, encode_unit,
    PyCallbackOutput,
};
use pysequence::conversion::{index_of, FromPyObject, IntoPy};
use pysequence::err::{PyErr, PyErrKind, PyResult};
use pysequence::object::PyObject;
use pysequence::python::Python;

#[test]
fn sentinels() {
    assert_eq!(<i32 as PyCallbackOutput>::err_value(), -1);
    assert_eq!(<isize as PyCallbackOutput>::err_value(), -1);
    assert_eq!(<Option<PyObject> as PyCallbackOutput>::err_value(), None);
}

#[test]
fn success_passes_through() {
    let mut py = Python::new();
    assert_eq!(callback_body::<i32>(&mut py, Ok(1)), 1);
    assert_eq!(callback_body::<isize>(&mut py, Ok(12)), 12);
    assert_eq!(
        callback_body::<Option<PyObject>>(&mut py, Ok(Some(PyObject::Unit))),
        Some(PyObject::Unit)
    );
    assert_eq!(py.pending_error(), None);
}

#[test]
fn failure_sets_the_pending_error() {
    let mut py = Python::new();
    assert_eq!(callback_body::<i32>(&mut py, Err(PyErr::user("a"))), -1);
    assert_eq!(py.pending_error(), Some(PyErr::user("a")));
    assert_eq!(callback_body::<isize>(&mut py, Err(PyErr::user("b"))), -1);
    assert_eq!(py.pending_error(), Some(PyErr::user("b")));
    assert_eq!(callback_body::<Option<PyObject>>(&mut py, Err(PyErr::conversion("c"))), None);
    assert_eq!(py.take_pending_error(), Some(PyErr::conversion("c")));
    assert_eq!(py.pending_error(), None);
    assert_eq!(py.take_pending_error(), None);
}

#[test]
fn size_encoding() {
    assert_eq!(encode_size(0usize), Ok(0));
    assert_eq!(encode_size(5usize), Ok(5));
    assert_eq!(encode_size(isize::MAX as usize), Ok(isize::MAX));
    assert_eq!(encode_size(isize::MAX as usize + 1), Err(PyErr::length_overflow()));
    assert_eq!(encode_size(usize::MAX), Err(PyErr::length_overflow()));
    assert_eq!(encode_size::<PyResult<usize>>(Ok(3)), Ok(3));
    assert_eq!(encode_size::<PyResult<usize>>(Err(PyErr::user("x"))), Err(PyErr::user("x")));
}

#[test]
fn status_encoding() {
    assert_eq!(encode_unit(()), Ok(0));
    assert_eq!(encode_unit::<PyResult<()>>(Ok(())), Ok(0));
    assert_eq!(encode_unit::<PyResult<()>>(Err(PyErr::user("x"))), Err(PyErr::user("x")));
    assert_eq!(encode_truth(true), Ok(1));
    assert_eq!(encode_truth(false), Ok(0));
    assert_eq!(encode_truth::<PyResult<bool>>(Ok(true)), Ok(1));
    assert_eq!(encode_truth::<PyResult<bool>>(Err(PyErr::user("x"))), Err(PyErr::user("x")));
}

#[test]
fn object_encoding() {
    assert_eq!(encode_object(7isize), Ok(Some(PyObject::Int(7))));
    assert_eq!(encode_object(true), Ok(Some(PyObject::Bool(true))));
    assert_eq!(encode_object(()), Ok(Some(PyObject::Unit)));
    assert_eq!(encode_object(PyObject::Instance(3)), Ok(Some(PyObject::Instance(3))));
    assert_eq!(encode_object::<PyResult<isize>>(Ok(-7)), Ok(Some(PyObject::Int(-7))));
    assert_eq!(encode_object::<PyResult<isize>>(Err(PyErr::user("x"))), Err(PyErr::user("x")));
}

#[test]
fn convert_between_layers() {
    assert_eq!(convert::<usize, usize>(4), Ok(4));
    assert_eq!(convert::<bool, bool>(true), Ok(true));
    assert_eq!(convert::<(), ()>(()), Ok(()));
    assert_eq!(convert::<isize, PyObject>(4), Ok(PyObject::Int(4)));
    assert_eq!(convert::<PyResult<isize>, PyObject>(Ok(4)), Ok(PyObject::Int(4)));
    assert_eq!(convert::<PyResult<bool>, bool>(Err(PyErr::user("x"))), Err(PyErr::user("x")));
}

#[test]
fn extraction() {
    assert_eq!(isize::extract(&PyObject::Int(-3)), Ok(-3));
    assert_eq!(isize::extract(&PyObject::Bool(true)), Err(PyErr::integer_expected()));
    assert_eq!(isize::extract(&PyObject::Unit), Err(PyErr::integer_expected()));
    assert_eq!(isize::extract(&PyObject::Instance(1)), Err(PyErr::integer_expected()));
    assert_eq!(bool::extract(&PyObject::Bool(false)), Ok(false));
    assert_eq!(bool::extract(&PyObject::Int(0)), Err(PyErr::boolean_expected()));
    assert_eq!(PyObject::extract(&PyObject::Instance(9)), Ok(PyObject::Instance(9)));
    assert_eq!(PyErr::integer_expected().kind, PyErrKind::ConversionError);
    assert_eq!(PyErr::boolean_expected().kind, PyErrKind::ConversionError);
}

#[test]
fn into_py() {
    assert_eq!(5isize.into_py(), PyObject::Int(5));
    assert_eq!(true.into_py(), PyObject::Bool(true));
    assert_eq!(().into_py(), PyObject::Unit);
    assert_eq!(PyObject::Instance(2).into_py(), PyObject::Instance(2));
}

#[test]
fn index_keeps_its_sign() {
    assert_eq!(index_of::<isize>(-1), -1);
    assert_eq!(index_of::<isize>(0), 0);
    assert_eq!(index_of::<isize>(isize::MIN), isize::MIN);
    assert_eq!(index_of::<isize>(isize::MAX), isize::MAX);
}

#[test]
fn error_constructors() {
    assert_eq!(
        PyErr::new(PyErrKind::BorrowError, "m"),
        PyErr { kind: PyErrKind::BorrowError, message: "m" }
    );
    assert_eq!(PyErr::user("m"), PyErr { kind: PyErrKind::UserError, message: "m" });
    assert_eq!(PyErr::conversion("m"), PyErr { kind: PyErrKind::ConversionError, message: "m" });
    assert_eq!(PyErr::deletion_unsupported().kind, PyErrKind::UnsupportedOperation);
    assert_eq!(PyErr::deletion_unsupported().message, "Item deletion is not supported");
    assert_eq!(PyErr::assignment_unsupported().kind, PyErrKind::UnsupportedOperation);
    assert_eq!(PyErr::assignment_unsupported().message, "Item assignment is not supported");
    assert_eq!(PyErr::length_overflow().kind, PyErrKind::ConversionError);
    assert_ne!(PyErr::deletion_unsupported(), PyErr::assignment_unsupported());
}
