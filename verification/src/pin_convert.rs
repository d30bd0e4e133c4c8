//! The immovable wrapper and the conversion of handles into pinned values.

use vstd::prelude::*;
use crate::box_value::BoxValue;
use crate::error::Error;
use crate::gc::{RootEvent, RootRegistry};
use crate::try_convert::TryConvert;
use crate::value::{ReprValue, Value};

verus! {

/// Owns one value and keeps it in place.
///
/// The wrapper offers access to the value it holds and nothing that would
/// take the wrapper itself elsewhere. It carries no registration: whether
/// its storage is a root depends on the guard or box that refers to it.
pub struct StackPinned<T> {
    value: T,
}

impl<T> StackPinned<T> {
    /// The value that the wrapper holds.
    pub closed spec fn value(&self) -> T {
        self.value
    }

    /// Wraps `value`, taking ownership of it.
    pub fn new(value: T) -> (pinned: Self)
        ensures
            pinned.value() == value,
    {
        StackPinned { value }
    }

    /// Read access to the value.
    pub fn get_value_ref(&self) -> (value: &T)
        ensures
            *value == self.value(),
    {
        &self.value
    }

    /// Access to the value for changes in place.
    pub fn get_value_mut(&mut self) -> (value: &mut T)
        ensures
            *value == old(self).value(),
            final(self).value() == *final(value),
    {
        &mut self.value
    }

    /// The handle of the wrapped value.
    pub fn as_value_ref(&self) -> (handle: Value) where T: ReprValue
        ensures
            handle == self.value().handle(),
    {
        self.value.as_value()
    }
}

/// A wrapper stands for the handle of the value it holds.
impl<T: ReprValue> ReprValue for StackPinned<T> {
    open spec fn handle(&self) -> Value {
        self.value().handle()
    }

    fn as_value(&self) -> (v: Value) {
        self.value.as_value()
    }
}

impl<T: ReprValue + Copy> StackPinned<T> {
    /// Copies the value out into a box that is a root of its own.
    ///
    /// The wrapper keeps its copy of the handle and stays usable. A
    /// registration that a guard holds for the wrapper is not touched: it
    /// ends when that guard is released, and only then.
    pub fn into_box_value<R: RootRegistry>(&mut self, registry: &mut R) -> (boxed: BoxValue<T>)
        ensures
            boxed.value() == old(self).value(),
            final(self).value() == old(self).value(),
            final(registry).events() == old(registry).events().push(
                RootEvent::Register { address: boxed.address(), handle: old(self).value().handle() },
            ),
    {
        let value: T = self.value;
        BoxValue::new(value, registry)
    }
}

/// Types whose handles convert into pinned values.
pub trait TryConvertPinned: TryConvert + ReprValue {
    /// A converted value stands for the handle it was converted from.
    proof fn conversion_keeps_handle(val: Value)
        requires
            Self::accepts(val),
        ensures
            Self::converted(val).handle() == val,
    ;

    /// Validates `val` and, where it has the expected class, puts the typed
    /// value into a wrapper on the heap. Nothing is registered.
    fn try_convert_pinned(val: Value) -> (r: Result<Box<StackPinned<Self>>, Error>)
        ensures
            Self::accepts(val) ==> r is Ok && r->Ok_0.value() == Self::converted(val),
            !Self::accepts(val) ==> r is Err && r->Err_0.is_mismatch(
                val.kind,
                Self::expected_class(),
            ),
    {
        match Self::try_convert(val) {
            Ok(converted) => Ok(Box::new(StackPinned::new(converted))),
            Err(e) => Err(e),
        }
    }
}

impl TryConvertPinned for Value {
    proof fn conversion_keeps_handle(val: Value) {
    }
}

/// Round trip: a handle that is converted, pinned and moved out into a
/// rooted box is the handle that the box stands for.
pub proof fn lemma_round_trip<T: TryConvertPinned>(
    val: Value,
    pinned: StackPinned<T>,
    boxed: BoxValue<T>,
)
    requires
        T::accepts(val),
        pinned.value() == T::converted(val),
        boxed.value() == pinned.value(),
    ensures
        boxed.value().handle() == val,
        pinned.handle() == val,
{
    T::conversion_keeps_handle(val);
}

/// Puts `value` into a wrapper on the heap.
pub fn pin_value<T: ReprValue>(value: T) -> (pinned: Box<StackPinned<T>>)
    ensures
        pinned.value() == value,
{
    Box::new(StackPinned::new(value))
}

/// Turns a pinned value that the caller owns into a rooted box.
pub fn pin_to_box<T: ReprValue + Copy, R: RootRegistry>(
    pinned: Box<StackPinned<T>>,
    registry: &mut R,
) -> (boxed: BoxValue<T>)
    ensures
        boxed.value() == pinned.value(),
        final(registry).events() == old(registry).events().push(
            RootEvent::Register { address: boxed.address(), handle: pinned.value().handle() },
        ),
{
    let mut pinned = pinned;
    pinned.into_box_value(registry)
}

} // verus!
