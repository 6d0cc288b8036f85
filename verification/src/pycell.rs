//! The cell that holds a host value and checks its borrows at run time.

use vstd::prelude::*;
use vstd::std_specs::convert::FromSpecImpl;
use crate::err::PyErr;

verus! {

/// Shared access was refused.
#[derive(Clone, Copy, Debug, PartialEq, Eq, Structural)]
pub struct PyBorrowError;

/// Exclusive access was refused.
#[derive(Clone, Copy, Debug, PartialEq, Eq, Structural)]
pub struct PyBorrowMutError;

impl From<PyBorrowError> for PyErr {
    fn from(e: PyBorrowError) -> (err: PyErr) {
        PyErr::already_mutably_borrowed()
    }
}

impl FromSpecImpl<PyBorrowError> for PyErr {
    open spec fn obeys_from_spec() -> bool {
        true
    }

    open spec fn from_spec(e: PyBorrowError) -> PyErr {
        PyErr::already_mutably_borrowed()
    }
}

impl From<PyBorrowMutError> for PyErr {
    fn from(e: PyBorrowMutError) -> (err: PyErr) {
        PyErr::already_borrowed()
    }
}

impl FromSpecImpl<PyBorrowMutError> for PyErr {
    open spec fn obeys_from_spec() -> bool {
        true
    }

    open spec fn from_spec(e: PyBorrowMutError) -> PyErr {
        PyErr::already_borrowed()
    }
}

/// Who holds access to a cell's value.
pub enum BorrowState {
    /// Nobody.
    Unused,
    /// This many readers, at least one.
    Shared(nat),
    /// One writer.
    Exclusive,
}

impl BorrowState {
    /// One more reader can be admitted: there is no writer, and the count of
    /// readers has room.
    pub open spec fn admits_shared(self) -> bool {
        match self {
            BorrowState::Unused => true,
            BorrowState::Shared(n) => n + 1 < usize::MAX,
            BorrowState::Exclusive => false,
        }
    }

    /// A writer can be admitted: nobody holds access.
    pub open spec fn admits_exclusive(self) -> bool {
        self is Unused
    }

    /// The state with one reader more.
    pub open spec fn with_reader(self) -> BorrowState {
        match self {
            BorrowState::Unused => BorrowState::Shared(1),
            BorrowState::Shared(n) => BorrowState::Shared(n + 1),
            BorrowState::Exclusive => BorrowState::Exclusive,
        }
    }

    /// The state with one reader less; a state without readers stays.
    pub open spec fn without_reader(self) -> BorrowState {
        match self {
            BorrowState::Shared(n) => if n <= 1 {
                BorrowState::Unused
            } else {
                BorrowState::Shared((n - 1) as nat)
            },
            _ => self,
        }
    }

    /// The state without its writer; a state without writer stays.
    pub open spec fn without_writer(self) -> BorrowState {
        match self {
            BorrowState::Exclusive => BorrowState::Unused,
            _ => self,
        }
    }

    /// States that a cell can be in: a count of readers is neither zero nor
    /// beyond what the cell can count.
    pub open spec fn wf(self) -> bool {
        self matches BorrowState::Shared(n) ==> 0 < n < usize::MAX
    }
}

/// What a cell is: its value and who holds access to it.
pub struct CellView<T> {
    pub value: T,
    pub borrow: BorrowState,
}

/// A host value together with the record of its borrows.
///
/// The runtime hands out any number of handles to one cell, so access to the
/// value is checked when it is asked for: any number of readers or one writer.
pub struct PyCell<T> {
    flag: usize,
    value: T,
}

impl<T> View for PyCell<T> {
    type V = CellView<T>;

    closed spec fn view(&self) -> CellView<T> {
        CellView {
            value: self.value,
            borrow: if self.flag == 0 {
                BorrowState::Unused
            } else if self.flag == usize::MAX {
                BorrowState::Exclusive
            } else {
                BorrowState::Shared(self.flag as nat)
            },
        }
    }
}

impl<T> PyCell<T> {
    /// A cell that holds `value` and that nobody has borrowed.
    pub fn new(value: T) -> (cell: PyCell<T>)
        ensures
            cell@ == (CellView { value, borrow: BorrowState::Unused }),
    {
        PyCell { flag: 0, value }
    }

    /// Every cell is in a state that a cell can be in.
    pub proof fn lemma_borrow_wf(&self)
        ensures
            self@.borrow.wf(),
    {
    }

    /// Asks for shared access. It is granted unless a writer holds the cell
    /// or the count of readers is exhausted; a refusal leaves the cell as it
    /// was.
    pub fn try_borrow(&mut self) -> (r: Result<(), PyBorrowError>)
        ensures
            r is Ok <==> old(self)@.borrow.admits_shared(),
            final(self)@.value == old(self)@.value,
            final(self)@.borrow == if r is Ok {
                old(self)@.borrow.with_reader()
            } else {
                old(self)@.borrow
            },
    {
        if self.flag >= usize::MAX - 1 {
            Err(PyBorrowError)
        } else {
            self.flag = self.flag + 1;
            Ok(())
        }
    }

    /// Gives back one shared access.
    pub fn release_borrow(&mut self)
        ensures
            final(self)@ == (CellView {
                value: old(self)@.value,
                borrow: old(self)@.borrow.without_reader(),
            }),
    {
        if 0 < self.flag && self.flag < usize::MAX {
            self.flag = self.flag - 1;
        }
    }

    /// Asks for exclusive access. It is granted if nobody holds the cell; a
    /// refusal leaves the cell as it was.
    pub fn try_borrow_mut(&mut self) -> (r: Result<(), PyBorrowMutError>)
        ensures
            r is Ok <==> old(self)@.borrow.admits_exclusive(),
            final(self)@.value == old(self)@.value,
            final(self)@.borrow == if r is Ok {
                BorrowState::Exclusive
            } else {
                old(self)@.borrow
            },
    {
        if self.flag != 0 {
            Err(PyBorrowMutError)
        } else {
            self.flag = usize::MAX;
            Ok(())
        }
    }

    /// Gives back the exclusive access.
    pub fn release_borrow_mut(&mut self)
        ensures
            final(self)@ == (CellView {
                value: old(self)@.value,
                borrow: old(self)@.borrow.without_writer(),
            }),
    {
        if self.flag == usize::MAX {
            self.flag = 0;
        }
    }

    /// The value.
    pub fn get(&self) -> (value: &T)
        ensures
            *value == self@.value,
    {
        &self.value
    }

    /// The value, to be changed in place.
    pub fn get_mut(&mut self) -> (value: &mut T)
        ensures
            *value == old(self)@.value,
            final(self)@ == (CellView { value: *final(value), borrow: old(self)@.borrow }),
    {
        &mut self.value
    }

    /// The number of readers that hold the cell.
    pub fn shared_borrows(&self) -> (n: usize)
        ensures
            n == match self@.borrow {
                BorrowState::Shared(k) => k,
                _ => 0,
            },
    {
        if self.flag == usize::MAX {
            0
        } else {
            self.flag
        }
    }

    /// Whether a writer holds the cell.
    pub fn is_mutably_borrowed(&self) -> (b: bool)
        ensures
            b == (self@.borrow is Exclusive),
    {
        self.flag == usize::MAX
    }
}

/// Readers and a writer exclude each other, and giving access back undoes
/// taking it.
pub proof fn lemma_borrow_discipline(s: BorrowState)
    requires
        s.wf(),
    ensures
        s.admits_shared() ==> !s.with_reader().admits_exclusive(),
        s.admits_shared() ==> s.with_reader().wf(),
        s.admits_shared() ==> s.with_reader().without_reader() == s,
        s.admits_exclusive() ==> !BorrowState::Exclusive.admits_shared(),
        s.admits_exclusive() ==> BorrowState::Exclusive.without_writer() == s,
        s is Shared ==> !s.admits_exclusive(),
        s is Exclusive ==> !s.admits_shared() && !s.admits_exclusive(),
{
}

} // verus!
