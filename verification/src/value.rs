//! Handles to objects that the host runtime owns.

use vstd::prelude::*;

verus! {

/// The class of the object behind a handle, as the host runtime reports it.
#[derive(Clone, Copy, Debug, PartialEq, Eq, Structural)]
pub enum ValueKind {
    Nil,
    True,
    False,
    Integer,
    Float,
    Rational,
    Complex,
    Text,
    Symbol,
    Array,
    Hash,
    Object,
}

impl ValueKind {
    /// Whether the class descends from the host's `Numeric`.
    pub open spec fn is_numeric_spec(self) -> bool {
        self is Integer || self is Float || self is Rational || self is Complex
    }

    /// Whether the class descends from the host's `Numeric`.
    #[verifier::when_used_as_spec(is_numeric_spec)]
    pub fn is_numeric(self) -> (r: bool)
        ensures
            r == self.is_numeric_spec(),
    {
        match self {
            ValueKind::Integer | ValueKind::Float | ValueKind::Rational | ValueKind::Complex => true,
            _ => false,
        }
    }

    /// The name under which the host knows the class.
    pub open spec fn class_name_spec(self) -> Seq<char> {
        match self {
            ValueKind::Nil => "NilClass"@,
            ValueKind::True => "TrueClass"@,
            ValueKind::False => "FalseClass"@,
            ValueKind::Integer => "Integer"@,
            ValueKind::Float => "Float"@,
            ValueKind::Rational => "Rational"@,
            ValueKind::Complex => "Complex"@,
            ValueKind::Text => "String"@,
            ValueKind::Symbol => "Symbol"@,
            ValueKind::Array => "Array"@,
            ValueKind::Hash => "Hash"@,
            ValueKind::Object => "Object"@,
        }
    }

    /// The name under which the host knows the class.
    pub fn class_name(self) -> (name: &'static str)
        ensures
            name@ == self.class_name_spec(),
    {
        match self {
            ValueKind::Nil => "NilClass",
            ValueKind::True => "TrueClass",
            ValueKind::False => "FalseClass",
            ValueKind::Integer => "Integer",
            ValueKind::Float => "Float",
            ValueKind::Rational => "Rational",
            ValueKind::Complex => "Complex",
            ValueKind::Text => "String",
            ValueKind::Symbol => "Symbol",
            ValueKind::Array => "Array",
            ValueKind::Hash => "Hash",
            ValueKind::Object => "Object",
        }
    }
}

/// An opaque reference to an object on the host runtime's heap.
///
/// The library copies handles and hands them back to the host; it never
/// looks behind one. `raw` is the word the host uses for the object and
/// `kind` the class the host reported for it.
#[derive(Clone, Copy, Debug, PartialEq, Eq, Structural)]
pub struct Value {
    pub raw: u64,
    pub kind: ValueKind,
}

impl Value {
    /// The handle for the word `raw`, whose object the host reports to be of class `kind`.
    pub fn new(raw: u64, kind: ValueKind) -> (v: Value)
        ensures
            v == (Value { raw, kind }),
    {
        Value { raw, kind }
    }

    /// The word that the host uses for the object.
    pub fn as_raw(self) -> (raw: u64)
        ensures
            raw == self.raw,
    {
        self.raw
    }

    /// The class that the host reported for the object.
    pub fn kind(self) -> (kind: ValueKind)
        ensures
            kind == self.kind,
    {
        self.kind
    }
}

/// Types that stand for one handle.
pub trait ReprValue: Sized {
    /// The handle that `self` stands for.
    spec fn handle(&self) -> Value;

    /// The handle that `self` stands for.
    fn as_value(&self) -> (v: Value)
        ensures
            v == self.handle(),
    ;
}

impl ReprValue for Value {
    open spec fn handle(&self) -> Value {
        *self
    }

    fn as_value(&self) -> (v: Value) {
        *self
    }
}

} // verus!
