use pysequence::err::{PyErr, PyErrKind};
use pysequence::pycell::{PyBorrowError, PyBorrowMutError, PyCell};

#[test]
fn new_cell_is_unused() {
    let cell = PyCell::new(7u8);
    assert_eq!(*cell.get(), 7);
    assert_eq!(cell.shared_borrows(), 0);
    assert!(!cell.is_mutably_borrowed());
}

#[test]
fn readers_are_counted() {
    let mut cell = PyCell::new(7u8);
    assert_eq!(cell.try_borrow(), Ok(()));
    assert_eq!(cell.try_borrow(), Ok(()));
    assert_eq!(cell.shared_borrows(), 2);
    cell.release_borrow();
    assert_eq!(cell.shared_borrows(), 1);
    cell.release_borrow();
    assert_eq!(cell.shared_borrows(), 0);
    cell.release_borrow();
    assert_eq!(cell.shared_borrows(), 0);
    assert!(!cell.is_mutably_borrowed());
}

#[test]
fn exclusive_while_shared_fails() {
    let mut cell = PyCell::new(7u8);
    assert_eq!(cell.try_borrow(), Ok(()));
    assert_eq!(cell.try_borrow_mut(), Err(PyBorrowMutError));
    assert_eq!(cell.shared_borrows(), 1);
    assert!(!cell.is_mutably_borrowed());
    assert_eq!(*cell.get(), 7);
    cell.release_borrow();
    assert_eq!(cell.try_borrow_mut(), Ok(()));
    assert!(cell.is_mutably_borrowed());
}

#[test]
fn shared_while_exclusive_fails() {
    let mut cell = PyCell::new(7u8);
    assert_eq!(cell.try_borrow_mut(), Ok(()));
    assert_eq!(cell.try_borrow(), Err(PyBorrowError));
    assert_eq!(cell.try_borrow_mut(), Err(PyBorrowMutError));
    assert!(cell.is_mutably_borrowed());
    assert_eq!(cell.shared_borrows(), 0);
    cell.release_borrow();
    assert!(cell.is_mutably_borrowed());
    cell.release_borrow_mut();
    assert!(!cell.is_mutably_borrowed());
    assert_eq!(cell.try_borrow(), Ok(()));
    cell.release_borrow_mut();
    assert_eq!(cell.shared_borrows(), 1);
}

#[test]
fn get_mut_changes_the_value_only() {
    let mut cell = PyCell::new(7u8);
    assert_eq!(cell.try_borrow_mut(), Ok(()));
    *cell.get_mut() = 9;
    assert_eq!(*cell.get(), 9);
    assert!(cell.is_mutably_borrowed());
}

#[test]
fn borrow_errors_become_runtime_errors() {
    let shared = PyErr::from(PyBorrowError);
    assert_eq!(shared.kind, PyErrKind::BorrowError);
    assert_eq!(shared.message, "Already mutably borrowed");
    assert_eq!(shared, PyErr::already_mutably_borrowed());
    let exclusive = PyErr::from(PyBorrowMutError);
    assert_eq!(exclusive.kind, PyErrKind::BorrowError);
    assert_eq!(exclusive.message, "Already borrowed");
    assert_eq!(exclusive, PyErr::already_borrowed());
}
