//! Conversion between raw handles and typed values.

use vstd::prelude::*;
use crate::error::Error;
use crate::value::{ReprValue, Value};

verus! {

/// Types that a handle can be checked against and turned into.
pub trait TryConvert: Sized {
    /// Whether a handle satisfies the class that this type expects.
    spec fn accepts(val: Value) -> bool;

    /// The typed value for a handle that `accepts` holds of.
    spec fn converted(val: Value) -> Self;

    /// The name of the class that this type expects.
    spec fn expected_class() -> Seq<char>;

    /// Validates the class of `val` and converts it; fails with a type
    /// mismatch that names the class found and the class expected.
    fn try_convert(val: Value) -> (r: Result<Self, Error>)
        ensures
            Self::accepts(val) ==> r == Ok::<Self, Error>(Self::converted(val)),
            !Self::accepts(val) ==> r is Err && r->Err_0.is_mismatch(
                val.kind,
                Self::expected_class(),
            ),
    ;
}

/// Types that can be handed to the host as a handle.
pub trait IntoValue: Sized {
    /// The handle that the host receives for `self`.
    spec fn into_handle(self) -> Value;

    /// Gives up `self` for its handle.
    fn into_value(self) -> (v: Value)
        ensures
            v == self.into_handle(),
    ;
}

/// Types that a native function may return to the host.
pub trait ReturnValue: Sized {
    /// The handle that the host receives, or the error raised in its place.
    spec fn returned(self) -> Result<Value, Error>;

    /// Converts the result of a native function for the host.
    fn into_return_value(self) -> (r: Result<Value, Error>)
        ensures
            r == self.returned(),
    ;
}

impl<T: IntoValue> ReturnValue for T {
    open spec fn returned(self) -> Result<Value, Error> {
        Ok(self.into_handle())
    }

    fn into_return_value(self) -> (r: Result<Value, Error>) {
        Ok(self.into_value())
    }
}

impl<T: IntoValue> ReturnValue for Result<T, Error> {
    open spec fn returned(self) -> Result<Value, Error> {
        match self {
            Ok(value) => Ok(value.into_handle()),
            Err(e) => Err(e),
        }
    }

    fn into_return_value(self) -> (r: Result<Value, Error>) {
        match self {
            Ok(value) => Ok(value.into_value()),
            Err(e) => Err(e),
        }
    }
}

impl TryConvert for Value {
    open spec fn accepts(val: Value) -> bool {
        true
    }

    open spec fn converted(val: Value) -> Value {
        val
    }

    open spec fn expected_class() -> Seq<char> {
        "BasicObject"@
    }

    fn try_convert(val: Value) -> (r: Result<Value, Error>) {
        Ok(val)
    }
}

impl IntoValue for Value {
    open spec fn into_handle(self) -> Value {
        self
    }

    fn into_value(self) -> (v: Value) {
        self
    }
}

} // verus!
