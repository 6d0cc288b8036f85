//! The sequence protocol.
//!
//! A host type implements one trait for each sequence operation that it
//! offers. For each of them this module holds the entry point that the
//! runtime calls, in two layers: `call_*` checks the borrow, converts the
//! arguments, calls the operation and encodes its result, as a `PyResult`;
//! `wrap_*` ends the call in the runtime's convention, with a sentinel and a
//! pending error in place of an `Err`.

use vstd::prelude::*;
use crate::callback::{
    callback_body, callback_outcome, encode_object, encode_self, encode_size, encode_truth,
    encode_unit, encoded_object, encoded_self, encoded_size, encoded_truth, encoded_unit,
    IntoPyCallbackOutput,
};
use crate::class::proto_methods::{SlotFunction, SlotTag, TypedSlot};
use crate::conversion::{index_from, index_of, FromPyObject, IntoPy};
use crate::err::{PyErr, PyResult};
use crate::object::PyObject;
use crate::pycell::{lemma_borrow_discipline, CellView, PyCell};
use crate::python::Python;

verus! {

/// A host type that takes part in the sequence protocol.
pub trait PySequenceProtocol: Sized {

}

/// The host type has a length.
pub trait PySequenceLenProtocol: PySequenceProtocol {
    type Result: IntoPyCallbackOutput<usize>;

    /// What the host type promises of `__len__`: `result` may come back from
    /// a call on `self`. Nothing, unless an implementation says more.
    open spec fn len_ensures(&self, result: Self::Result) -> bool {
        true
    }

    /// The number of items.
    fn __len__(&self) -> (result: Self::Result)
        ensures
            self.len_ensures(result),
    ;
}

/// The host type's items can be read by index.
pub trait PySequenceGetItemProtocol: PySequenceProtocol {
    type Index: FromPyObject + From<isize>;

    type Result: IntoPyCallbackOutput<PyObject>;

    /// What the host type promises of `__getitem__`.
    open spec fn getitem_ensures(&self, idx: Self::Index, result: Self::Result) -> bool {
        true
    }

    /// The item at `idx`.
    fn __getitem__(&self, idx: Self::Index) -> (result: Self::Result)
        ensures
            self.getitem_ensures(idx, result),
    ;
}

/// The host type's items can be assigned by index.
pub trait PySequenceSetItemProtocol: PySequenceProtocol {
    type Index: FromPyObject + From<isize>;

    type Value: FromPyObject;

    type Result: IntoPyCallbackOutput<()>;

    /// What the host type promises of `__setitem__`: a call on `self` may
    /// leave `after` behind and return `result`.
    open spec fn setitem_ensures(
        &self,
        idx: Self::Index,
        value: Self::Value,
        after: Self,
        result: Self::Result,
    ) -> bool {
        true
    }

    /// Puts `value` at `idx`.
    fn __setitem__(&mut self, idx: Self::Index, value: Self::Value) -> (result: Self::Result)
        ensures
            old(self).setitem_ensures(idx, value, *final(self), result),
    ;
}

/// The host type's items can be deleted by index.
pub trait PySequenceDelItemProtocol: PySequenceProtocol {
    type Index: FromPyObject + From<isize>;

    type Result: IntoPyCallbackOutput<()>;

    /// What the host type promises of `__delitem__`.
    open spec fn delitem_ensures(&self, idx: Self::Index, after: Self, result: Self::Result) -> bool {
        true
    }

    /// Removes the item at `idx`.
    fn __delitem__(&mut self, idx: Self::Index) -> (result: Self::Result)
        ensures
            old(self).delitem_ensures(idx, *final(self), result),
    ;
}

/// The host type can tell whether it contains an item.
pub trait PySequenceContainsProtocol: PySequenceProtocol {
    type Item: FromPyObject;

    type Result: IntoPyCallbackOutput<bool>;

    /// What the host type promises of `__contains__`.
    open spec fn contains_ensures(&self, item: Self::Item, result: Self::Result) -> bool {
        true
    }

    /// Whether `item` is among the items.
    fn __contains__(&self, item: Self::Item) -> (result: Self::Result)
        ensures
            self.contains_ensures(item, result),
    ;
}

/// The host type can be concatenated with another value.
pub trait PySequenceConcatProtocol: PySequenceProtocol {
    type Other: FromPyObject;

    type Result: IntoPyCallbackOutput<PyObject>;

    /// What the host type promises of `__concat__`.
    open spec fn concat_ensures(&self, other: Self::Other, result: Self::Result) -> bool {
        true
    }

    /// The items followed by those of `other`, as a new value.
    fn __concat__(&self, other: Self::Other) -> (result: Self::Result)
        ensures
            self.concat_ensures(other, result),
    ;
}

/// The host type can be repeated a number of times.
pub trait PySequenceRepeatProtocol: PySequenceProtocol {
    type Index: FromPyObject + From<isize>;

    type Result: IntoPyCallbackOutput<PyObject>;

    /// What the host type promises of `__repeat__`.
    open spec fn repeat_ensures(&self, count: Self::Index, result: Self::Result) -> bool {
        true
    }

    /// The items `count` times over, as a new value.
    fn __repeat__(&self, count: Self::Index) -> (result: Self::Result)
        ensures
            self.repeat_ensures(count, result),
    ;
}

/// The host type can be extended in place by another value.
pub trait PySequenceInplaceConcatProtocol: PySequenceProtocol + IntoPy<PyObject> {
    type Other: FromPyObject;

    type Result: IntoPyCallbackOutput<Self>;

    /// What the host type promises of `__inplace_concat__`.
    open spec fn inplace_concat_ensures(
        &self,
        other: Self::Other,
        after: Self,
        result: Self::Result,
    ) -> bool {
        true
    }

    /// Appends the items of `other` and hands back the host value.
    fn __inplace_concat__(&mut self, other: Self::Other) -> (result: Self::Result)
        ensures
            old(self).inplace_concat_ensures(other, *final(self), result),
    ;
}

/// The host type can be repeated in place.
pub trait PySequenceInplaceRepeatProtocol: PySequenceProtocol + IntoPy<PyObject> {
    type Index: FromPyObject + From<isize>;

    type Result: IntoPyCallbackOutput<Self>;

    /// What the host type promises of `__inplace_repeat__`.
    open spec fn inplace_repeat_ensures(
        &self,
        count: Self::Index,
        after: Self,
        result: Self::Result,
    ) -> bool {
        true
    }

    /// Repeats the items `count` times and hands back the host value.
    fn __inplace_repeat__(&mut self, count: Self::Index) -> (result: Self::Result)
        ensures
            old(self).inplace_repeat_ensures(count, *final(self), result),
    ;
}

/// `__len__` was called once on the value of `cell`, and `out` reports what
/// it returned.
pub open spec fn len_invoked<T: PySequenceLenProtocol>(
    cell: CellView<T>,
    out: PyResult<isize>,
) -> bool {
    exists|result: T::Result| #[trigger]
        cell.value.len_ensures(result) && out == encoded_size::<T::Result>(result)
}

/// `__getitem__` was called once on the value of `cell`, with the index
/// built from `key`, and `out` reports what it returned.
pub open spec fn getitem_invoked<T: PySequenceGetItemProtocol>(
    cell: CellView<T>,
    key: isize,
    out: PyResult<Option<PyObject>>,
) -> bool {
    exists|idx: T::Index, result: T::Result|
        index_from::<T::Index>(key, idx) && #[trigger] cell.value.getitem_ensures(idx, result)
            && out == encoded_object::<T::Result>(result)
}

/// `__setitem__` was called once on the value of `before`, with the index
/// built from `key` and with `value`; it left `after` behind, and `out`
/// reports what it returned.
pub open spec fn setitem_invoked<T: PySequenceSetItemProtocol>(
    before: CellView<T>,
    key: isize,
    value: T::Value,
    after: CellView<T>,
    out: PyResult<i32>,
) -> bool {
    &&& after.borrow == before.borrow
    &&& exists|idx: T::Index, result: T::Result|
        index_from::<T::Index>(key, idx) && #[trigger] before.value.setitem_ensures(
            idx,
            value,
            after.value,
            result,
        ) && out == encoded_unit::<T::Result>(result)
}

/// `__delitem__` was called once on the value of `before`, with the index
/// built from `key`; it left `after` behind, and `out` reports what it
/// returned.
pub open spec fn delitem_invoked<T: PySequenceDelItemProtocol>(
    before: CellView<T>,
    key: isize,
    after: CellView<T>,
    out: PyResult<i32>,
) -> bool {
    &&& after.borrow == before.borrow
    &&& exists|idx: T::Index, result: T::Result|
        index_from::<T::Index>(key, idx) && #[trigger] before.value.delitem_ensures(
            idx,
            after.value,
            result,
        ) && out == encoded_unit::<T::Result>(result)
}

/// `__contains__` was called once on the value of `cell`, with `item`, and
/// `out` reports what it returned.
pub open spec fn contains_invoked<T: PySequenceContainsProtocol>(
    cell: CellView<T>,
    item: T::Item,
    out: PyResult<i32>,
) -> bool {
    exists|result: T::Result| #[trigger]
        cell.value.contains_ensures(item, result) && out == encoded_truth::<T::Result>(result)
}

/// `__concat__` was called once on the value of `cell`, with `other`, and
/// `out` reports what it returned.
pub open spec fn concat_invoked<T: PySequenceConcatProtocol>(
    cell: CellView<T>,
    other: T::Other,
    out: PyResult<Option<PyObject>>,
) -> bool {
    exists|result: T::Result| #[trigger]
        cell.value.concat_ensures(other, result) && out == encoded_object::<T::Result>(result)
}

/// `__repeat__` was called once on the value of `cell`, with the count built
/// from `count`, and `out` reports what it returned.
pub open spec fn repeat_invoked<T: PySequenceRepeatProtocol>(
    cell: CellView<T>,
    count: isize,
    out: PyResult<Option<PyObject>>,
) -> bool {
    exists|idx: T::Index, result: T::Result|
        index_from::<T::Index>(count, idx) && #[trigger] cell.value.repeat_ensures(idx, result)
            && out == encoded_object::<T::Result>(result)
}

/// `__inplace_concat__` was called once on the value of `before`, with
/// `other`; it left `after` behind, and `out` reports the host value that it
/// returned.
pub open spec fn inplace_concat_invoked<T: PySequenceInplaceConcatProtocol>(
    before: CellView<T>,
    other: T::Other,
    after: CellView<T>,
    out: PyResult<Option<PyObject>>,
) -> bool {
    &&& after.borrow == before.borrow
    &&& exists|result: T::Result| #[trigger]
        before.value.inplace_concat_ensures(other, after.value, result) && out == encoded_self::<
            T,
            T::Result,
        >(result)
}

/// `__inplace_repeat__` was called once on the value of `before`, with the
/// count built from `count`; it left `after` behind, and `out` reports the
/// host value that it returned.
pub open spec fn inplace_repeat_invoked<T: PySequenceInplaceRepeatProtocol>(
    before: CellView<T>,
    count: isize,
    after: CellView<T>,
    out: PyResult<Option<PyObject>>,
) -> bool {
    &&& after.borrow == before.borrow
    &&& exists|idx: T::Index, result: T::Result|
        index_from::<T::Index>(count, idx) && #[trigger] before.value.inplace_repeat_ensures(
            idx,
            after.value,
            result,
        ) && out == encoded_self::<T, T::Result>(result)
}

/// The cell did not change and the call failed with `err`.
pub open spec fn refused<T, R>(
    before: CellView<T>,
    after: CellView<T>,
    out: PyResult<R>,
    err: PyErr,
) -> bool {
    after == before && out == Err::<R, PyErr>(err)
}

/// What the length slot does: under a shared borrow, which is given back, it
/// calls `__len__`.
pub open spec fn len_call<T: PySequenceLenProtocol>(
    before: CellView<T>,
    after: CellView<T>,
    out: PyResult<isize>,
) -> bool {
    if !before.borrow.admits_shared() {
        refused(before, after, out, PyErr::already_mutably_borrowed())
    } else {
        after == before && len_invoked::<T>(before, out)
    }
}

/// What the item slot does: under a shared borrow, which is given back, it
/// calls `__getitem__`.
pub open spec fn getitem_call<T: PySequenceGetItemProtocol>(
    before: CellView<T>,
    key: isize,
    after: CellView<T>,
    out: PyResult<Option<PyObject>>,
) -> bool {
    if !before.borrow.admits_shared() {
        refused(before, after, out, PyErr::already_mutably_borrowed())
    } else {
        after == before && getitem_invoked::<T>(before, key, out)
    }
}

/// What the shared slot does for a host type that only assigns: it refuses a
/// null `value`; else, under an exclusive borrow, which is given back, it
/// converts `value` and calls `__setitem__`.
pub open spec fn setitem_call<T: PySequenceSetItemProtocol>(
    before: CellView<T>,
    key: isize,
    value: Option<PyObject>,
    after: CellView<T>,
    out: PyResult<i32>,
) -> bool {
    match value {
        None => refused(before, after, out, PyErr::deletion_unsupported()),
        Some(ob) => if !before.borrow.admits_exclusive() {
            refused(before, after, out, PyErr::already_borrowed())
        } else {
            match T::Value::extract_spec(&ob) {
                Err(e) => refused(before, after, out, e),
                Ok(v) => setitem_invoked::<T>(before, key, v, after, out),
            }
        },
    }
}

/// What the shared slot does for a host type that only deletes: it refuses a
/// `value` that is not null; else, under an exclusive borrow, which is given
/// back, it calls `__delitem__`.
pub open spec fn delitem_call<T: PySequenceDelItemProtocol>(
    before: CellView<T>,
    key: isize,
    value: Option<PyObject>,
    after: CellView<T>,
    out: PyResult<i32>,
) -> bool {
    match value {
        Some(_) => refused(before, after, out, PyErr::assignment_unsupported()),
        None => if !before.borrow.admits_exclusive() {
            refused(before, after, out, PyErr::already_borrowed())
        } else {
            delitem_invoked::<T>(before, key, after, out)
        },
    }
}

/// What the shared slot does for a host type that assigns and deletes. For a
/// null `value` it calls `__delitem__` under an exclusive borrow. Else it
/// converts `value` first, and only then takes the exclusive borrow under
/// which it calls `__setitem__`: a conversion never runs while this call
/// holds the cell.
pub open spec fn setdelitem_call<T: PySequenceSetItemProtocol + PySequenceDelItemProtocol>(
    before: CellView<T>,
    key: isize,
    value: Option<PyObject>,
    after: CellView<T>,
    out: PyResult<i32>,
) -> bool {
    match value {
        None => if !before.borrow.admits_exclusive() {
            refused(before, after, out, PyErr::already_borrowed())
        } else {
            delitem_invoked::<T>(before, key, after, out)
        },
        Some(ob) => match <T as PySequenceSetItemProtocol>::Value::extract_spec(&ob) {
            Err(e) => refused(before, after, out, e),
            Ok(v) => if !before.borrow.admits_exclusive() {
                refused(before, after, out, PyErr::already_borrowed())
            } else {
                setitem_invoked::<T>(before, key, v, after, out)
            },
        },
    }
}

/// What the membership slot does: under a shared borrow, which is given
/// back, it converts `item` and calls `__contains__`.
pub open spec fn contains_call<T: PySequenceContainsProtocol>(
    before: CellView<T>,
    item: PyObject,
    after: CellView<T>,
    out: PyResult<i32>,
) -> bool {
    if !before.borrow.admits_shared() {
        refused(before, after, out, PyErr::already_mutably_borrowed())
    } else {
        match T::Item::extract_spec(&item) {
            Err(e) => refused(before, after, out, e),
            Ok(v) => after == before && contains_invoked::<T>(before, v, out),
        }
    }
}

/// What the concatenation slot does: under a shared borrow, which is given
/// back, it converts `other` and calls `__concat__`.
pub open spec fn concat_call<T: PySequenceConcatProtocol>(
    before: CellView<T>,
    other: PyObject,
    after: CellView<T>,
    out: PyResult<Option<PyObject>>,
) -> bool {
    if !before.borrow.admits_shared() {
        refused(before, after, out, PyErr::already_mutably_borrowed())
    } else {
        match T::Other::extract_spec(&other) {
            Err(e) => refused(before, after, out, e),
            Ok(v) => after == before && concat_invoked::<T>(before, v, out),
        }
    }
}

/// What the repetition slot does: under a shared borrow, which is given
/// back, it calls `__repeat__`.
pub open spec fn repeat_call<T: PySequenceRepeatProtocol>(
    before: CellView<T>,
    count: isize,
    after: CellView<T>,
    out: PyResult<Option<PyObject>>,
) -> bool {
    if !before.borrow.admits_shared() {
        refused(before, after, out, PyErr::already_mutably_borrowed())
    } else {
        after == before && repeat_invoked::<T>(before, count, out)
    }
}

/// What the slot for concatenation in place does: under an exclusive borrow
/// it converts `other` and calls `__inplace_concat__`; the borrow is given
/// back before the host value that came back is turned into an object.
pub open spec fn inplace_concat_call<T: PySequenceInplaceConcatProtocol>(
    before: CellView<T>,
    other: PyObject,
    after: CellView<T>,
    out: PyResult<Option<PyObject>>,
) -> bool {
    if !before.borrow.admits_exclusive() {
        refused(before, after, out, PyErr::already_borrowed())
    } else {
        match T::Other::extract_spec(&other) {
            Err(e) => refused(before, after, out, e),
            Ok(v) => inplace_concat_invoked::<T>(before, v, after, out),
        }
    }
}

/// What the slot for repetition in place does: under an exclusive borrow it
/// calls `__inplace_repeat__`; the borrow is given back before the host value
/// that came back is turned into an object.
pub open spec fn inplace_repeat_call<T: PySequenceInplaceRepeatProtocol>(
    before: CellView<T>,
    count: isize,
    after: CellView<T>,
    out: PyResult<Option<PyObject>>,
) -> bool {
    if !before.borrow.admits_exclusive() {
        refused(before, after, out, PyErr::already_borrowed())
    } else {
        inplace_repeat_invoked::<T>(before, count, after, out)
    }
}

/// The length slot, before its result is handed to the runtime.
pub fn call_len<T: PySequenceLenProtocol>(slf: &mut PyCell<T>) -> (out: PyResult<isize>)
    ensures
        len_call::<T>(old(slf)@, final(slf)@, out),
{
    proof {
        slf.lemma_borrow_wf();
        lemma_borrow_discipline(slf@.borrow);
    }
    match slf.try_borrow() {
        Err(e) => Err(PyErr::from(e)),
        Ok(()) => {
            let result = slf.get().__len__();
            slf.release_borrow();
            assert(old(slf)@.value.len_ensures(result));
            encode_size(result)
        },
    }
}

/// The item slot, before its result is handed to the runtime.
pub fn call_getitem<T: PySequenceGetItemProtocol>(slf: &mut PyCell<T>, key: isize) -> (out:
    PyResult<Option<PyObject>>)
    ensures
        getitem_call::<T>(old(slf)@, key, final(slf)@, out),
{
    proof {
        slf.lemma_borrow_wf();
        lemma_borrow_discipline(slf@.borrow);
    }
    match slf.try_borrow() {
        Err(e) => Err(PyErr::from(e)),
        Ok(()) => {
            let idx = index_of::<T::Index>(key);
            let result = slf.get().__getitem__(idx);
            slf.release_borrow();
            assert(old(slf)@.value.getitem_ensures(idx, result));
            encode_object(result)
        },
    }
}

/// The shared slot of a host type that only assigns, before its result is
/// handed to the runtime.
pub fn call_setitem<T: PySequenceSetItemProtocol>(
    slf: &mut PyCell<T>,
    key: isize,
    value: Option<PyObject>,
) -> (out: PyResult<i32>)
    ensures
        setitem_call::<T>(old(slf)@, key, value, final(slf)@, out),
{
    let ob = match value {
        None => {
            return Err(PyErr::deletion_unsupported());
        },
        Some(ob) => ob,
    };
    match slf.try_borrow_mut() {
        Err(e) => Err(PyErr::from(e)),
        Ok(()) => {
            match T::Value::extract(&ob) {
                Err(e) => {
                    slf.release_borrow_mut();
                    Err(e)
                },
                Ok(v) => {
                    let idx = index_of::<T::Index>(key);
                    let result = slf.get_mut().__setitem__(idx, v);
                    slf.release_borrow_mut();
                    assert(old(slf)@.value.setitem_ensures(idx, v, slf@.value, result));
                    encode_unit(result)
                },
            }
        },
    }
}

/// The shared slot of a host type that only deletes, before its result is
/// handed to the runtime.
pub fn call_delitem<T: PySequenceDelItemProtocol>(
    slf: &mut PyCell<T>,
    key: isize,
    value: Option<PyObject>,
) -> (out: PyResult<i32>)
    ensures
        delitem_call::<T>(old(slf)@, key, value, final(slf)@, out),
{
    if value.is_some() {
        return Err(PyErr::assignment_unsupported());
    }
    match slf.try_borrow_mut() {
        Err(e) => Err(PyErr::from(e)),
        Ok(()) => {
            let idx = index_of::<T::Index>(key);
            let result = slf.get_mut().__delitem__(idx);
            slf.release_borrow_mut();
            assert(old(slf)@.value.delitem_ensures(idx, slf@.value, result));
            encode_unit(result)
        },
    }
}

/// The shared slot of a host type that assigns and deletes, before its
/// result is handed to the runtime.
pub fn call_setdelitem<T: PySequenceSetItemProtocol + PySequenceDelItemProtocol>(
    slf: &mut PyCell<T>,
    key: isize,
    value: Option<PyObject>,
) -> (out: PyResult<i32>)
    ensures
        setdelitem_call::<T>(old(slf)@, key, value, final(slf)@, out),
{
    match value {
        None => match slf.try_borrow_mut() {
            Err(e) => Err(PyErr::from(e)),
            Ok(()) => {
                let idx = index_of::<<T as PySequenceDelItemProtocol>::Index>(key);
                let result = slf.get_mut().__delitem__(idx);
                slf.release_borrow_mut();
                assert(old(slf)@.value.delitem_ensures(idx, slf@.value, result));
                encode_unit(result)
            },
        },
        Some(ob) => match <T as PySequenceSetItemProtocol>::Value::extract(&ob) {
            Err(e) => Err(e),
            Ok(v) => match slf.try_borrow_mut() {
                Err(e) => Err(PyErr::from(e)),
                Ok(()) => {
                    let idx = index_of::<<T as PySequenceSetItemProtocol>::Index>(key);
                    let result = slf.get_mut().__setitem__(idx, v);
                    slf.release_borrow_mut();
                    assert(old(slf)@.value.setitem_ensures(idx, v, slf@.value, result));
                    encode_unit(result)
                },
            },
        },
    }
}

/// The membership slot, before its result is handed to the runtime.
pub fn call_contains<T: PySequenceContainsProtocol>(slf: &mut PyCell<T>, item: PyObject) -> (out:
    PyResult<i32>)
    ensures
        contains_call::<T>(old(slf)@, item, final(slf)@, out),
{
    proof {
        slf.lemma_borrow_wf();
        lemma_borrow_discipline(slf@.borrow);
    }
    match slf.try_borrow() {
        Err(e) => Err(PyErr::from(e)),
        Ok(()) => {
            match T::Item::extract(&item) {
                Err(e) => {
                    slf.release_borrow();
                    Err(e)
                },
                Ok(v) => {
                    let result = slf.get().__contains__(v);
                    slf.release_borrow();
                    assert(old(slf)@.value.contains_ensures(v, result));
                    encode_truth(result)
                },
            }
        },
    }
}

/// The concatenation slot, before its result is handed to the runtime.
pub fn call_concat<T: PySequenceConcatProtocol>(slf: &mut PyCell<T>, other: PyObject) -> (out:
    PyResult<Option<PyObject>>)
    ensures
        concat_call::<T>(old(slf)@, other, final(slf)@, out),
{
    proof {
        slf.lemma_borrow_wf();
        lemma_borrow_discipline(slf@.borrow);
    }
    match slf.try_borrow() {
        Err(e) => Err(PyErr::from(e)),
        Ok(()) => {
            match T::Other::extract(&other) {
                Err(e) => {
                    slf.release_borrow();
                    Err(e)
                },
                Ok(v) => {
                    let result = slf.get().__concat__(v);
                    slf.release_borrow();
                    assert(old(slf)@.value.concat_ensures(v, result));
                    encode_object(result)
                },
            }
        },
    }
}

/// The repetition slot, before its result is handed to the runtime.
pub fn call_repeat<T: PySequenceRepeatProtocol>(slf: &mut PyCell<T>, count: isize) -> (out:
    PyResult<Option<PyObject>>)
    ensures
        repeat_call::<T>(old(slf)@, count, final(slf)@, out),
{
    proof {
        slf.lemma_borrow_wf();
        lemma_borrow_discipline(slf@.borrow);
    }
    match slf.try_borrow() {
        Err(e) => Err(PyErr::from(e)),
        Ok(()) => {
            let idx = index_of::<T::Index>(count);
            let result = slf.get().__repeat__(idx);
            slf.release_borrow();
            assert(old(slf)@.value.repeat_ensures(idx, result));
            encode_object(result)
        },
    }
}

/// The slot for concatenation in place, before its result is handed to the
/// runtime.
pub fn call_inplace_concat<T: PySequenceInplaceConcatProtocol>(
    slf: &mut PyCell<T>,
    other: PyObject,
) -> (out: PyResult<Option<PyObject>>)
    ensures
        inplace_concat_call::<T>(old(slf)@, other, final(slf)@, out),
{
    match slf.try_borrow_mut() {
        Err(e) => Err(PyErr::from(e)),
        Ok(()) => {
            match T::Other::extract(&other) {
                Err(e) => {
                    slf.release_borrow_mut();
                    Err(e)
                },
                Ok(v) => {
                    let result = slf.get_mut().__inplace_concat__(v);
                    slf.release_borrow_mut();
                    assert(old(slf)@.value.inplace_concat_ensures(v, slf@.value, result));
                    encode_self::<T, T::Result>(result)
                },
            }
        },
    }
}

/// The slot for repetition in place, before its result is handed to the
/// runtime.
pub fn call_inplace_repeat<T: PySequenceInplaceRepeatProtocol>(
    slf: &mut PyCell<T>,
    count: isize,
) -> (out: PyResult<Option<PyObject>>)
    ensures
        inplace_repeat_call::<T>(old(slf)@, count, final(slf)@, out),
{
    match slf.try_borrow_mut() {
        Err(e) => Err(PyErr::from(e)),
        Ok(()) => {
            let idx = index_of::<T::Index>(count);
            let result = slf.get_mut().__inplace_repeat__(idx);
            slf.release_borrow_mut();
            assert(old(slf)@.value.inplace_repeat_ensures(idx, slf@.value, result));
            encode_self::<T, T::Result>(result)
        },
    }
}

/// The length slot: returns the length, which is not negative, or `-1` with
/// a pending error.
pub fn wrap_len<T: PySequenceLenProtocol>(py: &mut Python, slf: &mut PyCell<T>) -> (ret: isize)
    ensures
        exists|out: PyResult<isize>| #[trigger]
            len_call::<T>(old(slf)@, final(slf)@, out) && (ret, final(py)@) == callback_outcome(
                old(py)@,
                out,
            ) && (out is Err <==> ret == -1),
        final(slf)@ == old(slf)@,
        old(slf)@.borrow is Exclusive ==> ret == -1 && final(py)@ == Some(
            PyErr::already_mutably_borrowed(),
        ),
        ret >= -1,
{
    let out = call_len(slf);
    callback_body(py, out)
}

/// The item slot: returns the item, or null with a pending error.
pub fn wrap_getitem<T: PySequenceGetItemProtocol>(
    py: &mut Python,
    slf: &mut PyCell<T>,
    key: isize,
) -> (ret: Option<PyObject>)
    ensures
        exists|out: PyResult<Option<PyObject>>| #[trigger]
            getitem_call::<T>(old(slf)@, key, final(slf)@, out) && (ret, final(py)@)
                == callback_outcome(old(py)@, out) && (out is Err <==> ret is None),
        final(slf)@ == old(slf)@,
        old(slf)@.borrow is Exclusive ==> ret is None && final(py)@ == Some(
            PyErr::already_mutably_borrowed(),
        ),
{
    let out = call_getitem(slf, key);
    callback_body(py, out)
}

/// The shared slot of a host type that only assigns: returns `0`, or `-1`
/// with a pending error. A null `value`, which asks for a deletion, always
/// fails as unsupported, and so does a call on a cell that is borrowed, as a
/// borrow error; neither changes the cell.
pub fn wrap_setitem<T: PySequenceSetItemProtocol>(
    py: &mut Python,
    slf: &mut PyCell<T>,
    key: isize,
    value: Option<PyObject>,
) -> (ret: i32)
    ensures
        exists|out: PyResult<i32>| #[trigger]
            setitem_call::<T>(old(slf)@, key, value, final(slf)@, out) && (ret, final(py)@)
                == callback_outcome(old(py)@, out) && (out is Err <==> ret == -1),
        final(slf)@.borrow == old(slf)@.borrow,
        ret == 0 || ret == -1,
        value is None ==> ret == -1 && final(py)@ == Some(PyErr::deletion_unsupported())
            && final(slf)@ == old(slf)@,
        value is Some && !(old(slf)@.borrow is Unused) ==> ret == -1 && final(py)@ == Some(
            PyErr::already_borrowed(),
        ) && final(slf)@ == old(slf)@,
{
    let out = call_setitem(slf, key, value);
    callback_body(py, out)
}

/// The shared slot of a host type that only deletes: returns `0`, or `-1`
/// with a pending error. A `value` that is not null, which asks for an
/// assignment, always fails as unsupported, and so does a call on a cell that
/// is borrowed, as a borrow error; neither changes the cell.
pub fn wrap_delitem<T: PySequenceDelItemProtocol>(
    py: &mut Python,
    slf: &mut PyCell<T>,
    key: isize,
    value: Option<PyObject>,
) -> (ret: i32)
    ensures
        exists|out: PyResult<i32>| #[trigger]
            delitem_call::<T>(old(slf)@, key, value, final(slf)@, out) && (ret, final(py)@)
                == callback_outcome(old(py)@, out) && (out is Err <==> ret == -1),
        final(slf)@.borrow == old(slf)@.borrow,
        ret == 0 || ret == -1,
        value is Some ==> ret == -1 && final(py)@ == Some(PyErr::assignment_unsupported())
            && final(slf)@ == old(slf)@,
        value is None && !(old(slf)@.borrow is Unused) ==> ret == -1 && final(py)@ == Some(
            PyErr::already_borrowed(),
        ) && final(slf)@ == old(slf)@,
{
    let out = call_delitem(slf, key, value);
    callback_body(py, out)
}

/// The shared slot of a host type that assigns and deletes: returns `0`, or
/// `-1` with a pending error. A null `value` leads to `__delitem__` and to
/// nothing else, any other to the conversion of `value` and then to
/// `__setitem__`, and to nothing else.
pub fn wrap_setdelitem<T: PySequenceSetItemProtocol + PySequenceDelItemProtocol>(
    py: &mut Python,
    slf: &mut PyCell<T>,
    key: isize,
    value: Option<PyObject>,
) -> (ret: i32)
    ensures
        exists|out: PyResult<i32>| #[trigger]
            setdelitem_call::<T>(old(slf)@, key, value, final(slf)@, out) && (ret, final(py)@)
                == callback_outcome(old(py)@, out) && (out is Err <==> ret == -1),
        final(slf)@.borrow == old(slf)@.borrow,
        ret == 0 || ret == -1,
        value is None && !(old(slf)@.borrow is Unused) ==> ret == -1 && final(py)@ == Some(
            PyErr::already_borrowed(),
        ) && final(slf)@ == old(slf)@,
        value matches Some(ob) ==> (<T as PySequenceSetItemProtocol>::Value::extract_spec(&ob)
            matches Err(e) ==> ret == -1 && final(py)@ == Some(e) && final(slf)@ == old(slf)@),
{
    let out = call_setdelitem(slf, key, value);
    callback_body(py, out)
}

/// The membership slot: returns `1` for true, `0` for false, or `-1` with a
/// pending error, and nothing else. An `item` that cannot be converted is
/// never reported as false.
pub fn wrap_contains<T: PySequenceContainsProtocol>(
    py: &mut Python,
    slf: &mut PyCell<T>,
    item: PyObject,
) -> (ret: i32)
    ensures
        exists|out: PyResult<i32>| #[trigger]
            contains_call::<T>(old(slf)@, item, final(slf)@, out) && (ret, final(py)@)
                == callback_outcome(old(py)@, out) && (out is Err <==> ret == -1),
        final(slf)@ == old(slf)@,
        old(slf)@.borrow is Exclusive ==> ret == -1 && final(py)@ == Some(
            PyErr::already_mutably_borrowed(),
        ),
        ret == 1 || ret == 0 || ret == -1,
        T::Item::extract_spec(&item) is Err ==> ret == -1 && final(py)@ is Some && final(slf)@
            == old(slf)@,
{
    let out = call_contains(slf, item);
    callback_body(py, out)
}

/// The concatenation slot: returns the new object, or null with a pending
/// error.
pub fn wrap_concat<T: PySequenceConcatProtocol>(
    py: &mut Python,
    slf: &mut PyCell<T>,
    other: PyObject,
) -> (ret: Option<PyObject>)
    ensures
        exists|out: PyResult<Option<PyObject>>| #[trigger]
            concat_call::<T>(old(slf)@, other, final(slf)@, out) && (ret, final(py)@)
                == callback_outcome(old(py)@, out) && (out is Err <==> ret is None),
        final(slf)@ == old(slf)@,
        old(slf)@.borrow is Exclusive ==> ret is None && final(py)@ == Some(
            PyErr::already_mutably_borrowed(),
        ),
{
    let out = call_concat(slf, other);
    callback_body(py, out)
}

/// The repetition slot: returns the new object, or null with a pending
/// error.
pub fn wrap_repeat<T: PySequenceRepeatProtocol>(
    py: &mut Python,
    slf: &mut PyCell<T>,
    count: isize,
) -> (ret: Option<PyObject>)
    ensures
        exists|out: PyResult<Option<PyObject>>| #[trigger]
            repeat_call::<T>(old(slf)@, count, final(slf)@, out) && (ret, final(py)@)
                == callback_outcome(old(py)@, out) && (out is Err <==> ret is None),
        final(slf)@ == old(slf)@,
        old(slf)@.borrow is Exclusive ==> ret is None && final(py)@ == Some(
            PyErr::already_mutably_borrowed(),
        ),
{
    let out = call_repeat(slf, count);
    callback_body(py, out)
}

/// The slot for concatenation in place: returns the host value that the
/// operation handed back, as an object, or null with a pending error. A call
/// on a cell that is borrowed fails as a borrow error and does not change the
/// cell.
pub fn wrap_inplace_concat<T: PySequenceInplaceConcatProtocol>(
    py: &mut Python,
    slf: &mut PyCell<T>,
    other: PyObject,
) -> (ret: Option<PyObject>)
    ensures
        exists|out: PyResult<Option<PyObject>>| #[trigger]
            inplace_concat_call::<T>(old(slf)@, other, final(slf)@, out) && (ret, final(py)@)
                == callback_outcome(old(py)@, out) && (out is Err <==> ret is None),
        final(slf)@.borrow == old(slf)@.borrow,
        !(old(slf)@.borrow is Unused) ==> ret is None && final(py)@ == Some(
            PyErr::already_borrowed(),
        ) && final(slf)@ == old(slf)@,
{
    let out = call_inplace_concat(slf, other);
    callback_body(py, out)
}

/// The slot for repetition in place: returns the host value that the
/// operation handed back, as an object, or null with a pending error. A call
/// on a cell that is borrowed fails as a borrow error and does not change the
/// cell.
pub fn wrap_inplace_repeat<T: PySequenceInplaceRepeatProtocol>(
    py: &mut Python,
    slf: &mut PyCell<T>,
    count: isize,
) -> (ret: Option<PyObject>)
    ensures
        exists|out: PyResult<Option<PyObject>>| #[trigger]
            inplace_repeat_call::<T>(old(slf)@, count, final(slf)@, out) && (ret, final(py)@)
                == callback_outcome(old(py)@, out) && (out is Err <==> ret is None),
        final(slf)@.borrow == old(slf)@.borrow,
        !(old(slf)@.borrow is Unused) ==> ret is None && final(py)@ == Some(
            PyErr::already_borrowed(),
        ) && final(slf)@ == old(slf)@,
{
    let out = call_inplace_repeat(slf, count);
    callback_body(py, out)
}

/// The shared slot tells its two operations apart by whether `value` is null,
/// and by nothing else. For a null `value` it does what the slot of a host
/// type that only deletes does; for any other it does what the slot of a host
/// type that only assigns does, unless the cell is held and `value` does not
/// convert either (then each of the two reports the failure that it meets
/// first). So on a cell that nobody holds a null `value` is one call of
/// `__delitem__`, a `value` that converts is one call of `__setitem__` with
/// what it converts to, and one that does not convert calls neither.
pub proof fn lemma_setdelitem_dispatch<T: PySequenceSetItemProtocol + PySequenceDelItemProtocol>(
    before: CellView<T>,
    key: isize,
    value: Option<PyObject>,
    after: CellView<T>,
    out: PyResult<i32>,
)
    ensures
        value is None ==> (setdelitem_call::<T>(before, key, value, after, out) <==> delitem_call::<
            T,
        >(before, key, value, after, out)),
        value matches Some(ob) ==> (before.borrow is Unused || <
            T as PySequenceSetItemProtocol
        >::Value::extract_spec(&ob) is Ok ==> (setdelitem_call::<T>(before, key, value, after, out)
            <==> setitem_call::<T>(before, key, value, after, out))),
        setdelitem_call::<T>(before, key, value, after, out) && before.borrow is Unused ==> match value {
            None => delitem_invoked::<T>(before, key, after, out),
            Some(ob) => match <T as PySequenceSetItemProtocol>::Value::extract_spec(&ob) {
                Ok(v) => setitem_invoked::<T>(before, key, v, after, out),
                Err(e) => refused(before, after, out, e),
            },
        },
{
}

/// The builders of the slots: each exists only for a host type that
/// implements what its entry point calls.
pub trait PySequenceSlots {
    /// The length slot holds [`wrap_len`].
    fn get_len() -> (slot: TypedSlot) where Self: PySequenceLenProtocol
        ensures
            slot.function() == SlotFunction::Len,
            slot.tag() == SlotTag::Length,
    {
        TypedSlot::new(SlotFunction::Len)
    }

    /// The concatenation slot holds [`wrap_concat`].
    fn get_concat() -> (slot: TypedSlot) where Self: PySequenceConcatProtocol
        ensures
            slot.function() == SlotFunction::Concat,
            slot.tag() == SlotTag::Concat,
    {
        TypedSlot::new(SlotFunction::Concat)
    }

    /// The repetition slot holds [`wrap_repeat`].
    fn get_repeat() -> (slot: TypedSlot) where Self: PySequenceRepeatProtocol
        ensures
            slot.function() == SlotFunction::Repeat,
            slot.tag() == SlotTag::Repeat,
    {
        TypedSlot::new(SlotFunction::Repeat)
    }

    /// The item slot holds [`wrap_getitem`].
    fn get_getitem() -> (slot: TypedSlot) where Self: PySequenceGetItemProtocol
        ensures
            slot.function() == SlotFunction::GetItem,
            slot.tag() == SlotTag::Item,
    {
        TypedSlot::new(SlotFunction::GetItem)
    }

    /// For a host type that only assigns, the shared slot holds
    /// [`wrap_setitem`].
    fn get_setitem() -> (slot: TypedSlot) where Self: PySequenceSetItemProtocol
        ensures
            slot.function() == SlotFunction::SetItem,
            slot.tag() == SlotTag::AssItem,
    {
        TypedSlot::new(SlotFunction::SetItem)
    }

    /// For a host type that only deletes, the shared slot holds
    /// [`wrap_delitem`].
    fn get_delitem() -> (slot: TypedSlot) where Self: PySequenceDelItemProtocol
        ensures
            slot.function() == SlotFunction::DelItem,
            slot.tag() == SlotTag::AssItem,
    {
        TypedSlot::new(SlotFunction::DelItem)
    }

    /// For a host type that assigns and deletes, the shared slot holds
    /// [`wrap_setdelitem`].
    fn get_setdelitem() -> (slot: TypedSlot) where
        Self: PySequenceDelItemProtocol + PySequenceSetItemProtocol,

        ensures
            slot.function() == SlotFunction::SetDelItem,
            slot.tag() == SlotTag::AssItem,
    {
        TypedSlot::new(SlotFunction::SetDelItem)
    }

    /// The membership slot holds [`wrap_contains`].
    fn get_contains() -> (slot: TypedSlot) where Self: PySequenceContainsProtocol
        ensures
            slot.function() == SlotFunction::Contains,
            slot.tag() == SlotTag::Contains,
    {
        TypedSlot::new(SlotFunction::Contains)
    }

    /// The slot for concatenation in place holds [`wrap_inplace_concat`].
    fn get_inplace_concat() -> (slot: TypedSlot) where Self: PySequenceInplaceConcatProtocol
        ensures
            slot.function() == SlotFunction::InplaceConcat,
            slot.tag() == SlotTag::InplaceConcat,
    {
        TypedSlot::new(SlotFunction::InplaceConcat)
    }

    /// The slot for repetition in place holds [`wrap_inplace_repeat`].
    fn get_inplace_repeat() -> (slot: TypedSlot) where Self: PySequenceInplaceRepeatProtocol
        ensures
            slot.function() == SlotFunction::InplaceRepeat,
            slot.tag() == SlotTag::InplaceRepeat,
    {
        TypedSlot::new(SlotFunction::InplaceRepeat)
    }
}

impl<T> PySequenceSlots for T where T: PySequenceProtocol {

}

} // verus!
