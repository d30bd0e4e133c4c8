//! Handles known to refer to one of the host's numbers.

use vstd::prelude::*;
use crate::error::Error;
use crate::pin_convert::TryConvertPinned;
use crate::try_convert::{IntoValue, TryConvert};
use crate::value::{ReprValue, Value, ValueKind};

verus! {

/// A handle known to refer to an instance of the host's `Numeric` class.
#[derive(Clone, Copy, Debug, PartialEq, Eq, Structural)]
pub struct NumericValue {
    inner: Value,
}

impl ReprValue for NumericValue {
    closed spec fn handle(&self) -> Value {
        self.inner
    }

    fn as_value(&self) -> (v: Value) {
        self.inner
    }
}

impl NumericValue {
    /// Every `NumericValue` holds a handle whose class is numeric.
    #[verifier::type_invariant]
    spec fn numeric(&self) -> bool {
        self.inner.kind.is_numeric_spec()
    }

    /// The class of the number behind the handle.
    pub fn kind(&self) -> (kind: ValueKind)
        ensures
            kind == self.handle().kind,
            kind.is_numeric_spec(),
    {
        proof {
            use_type_invariant(self);
        }
        self.inner.kind()
    }
}

impl IntoValue for NumericValue {
    open spec fn into_handle(self) -> Value {
        self.handle()
    }

    fn into_value(self) -> (v: Value) {
        self.inner
    }
}

impl TryConvert for NumericValue {
    open spec fn accepts(val: Value) -> bool {
        val.kind.is_numeric_spec()
    }

    closed spec fn converted(val: Value) -> NumericValue {
        NumericValue { inner: val }
    }

    open spec fn expected_class() -> Seq<char> {
        "Numeric"@
    }

    fn try_convert(val: Value) -> (r: Result<NumericValue, Error>) {
        if val.kind().is_numeric() {
            Ok(NumericValue { inner: val })
        } else {
            Err(Error::TypeMismatch { found: val.kind(), expected: "Numeric" })
        }
    }
}

impl TryConvertPinned for NumericValue {
    proof fn conversion_keeps_handle(val: Value) {
    }
}

} // verus!
