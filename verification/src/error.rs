//! Failures of a dispatch, and the exceptions the host sees for them.

use vstd::prelude::*;
use vstd::string::StringExecFns;
use crate::value::ValueKind;

verus! {

/// The host's exception classes that this library raises.
#[derive(Clone, Copy, Debug, PartialEq, Eq, Structural)]
pub enum ExceptionClass {
    TypeError,
    Fatal,
}

/// An exception in the host's own representation, ready to be raised.
#[derive(Debug, PartialEq, Eq)]
pub struct Exception {
    pub class: ExceptionClass,
    pub message: String,
}

/// What can go wrong between the host's call and the native function's return.
#[derive(Debug, PartialEq, Eq)]
pub enum Error {
    /// A handle's class does not satisfy the class that the target type expects.
    TypeMismatch { found: ValueKind, expected: &'static str },
    /// The native function ended in a fault instead of returning.
    NativeFault { message: String },
}

/// The message of a fault whose payload carried no text.
pub open spec fn default_fault_message() -> Seq<char> {
    "panic"@
}

/// The text of a type mismatch: which class was found and which was asked for.
pub open spec fn mismatch_message(found: ValueKind, expected: Seq<char>) -> Seq<char> {
    "no implicit conversion of "@ + found.class_name_spec() + " into "@ + expected
}

impl Error {
    /// Whether `self` reports that a handle of class `found` was offered
    /// where `expected` was asked for.
    pub open spec fn is_mismatch(&self, found: ValueKind, expected: Seq<char>) -> bool {
        match self {
            Error::TypeMismatch { found: f, expected: e } => *f == found && e@ == expected,
            Error::NativeFault { .. } => false,
        }
    }

    /// Whether `self` reports a fault with the text `message`.
    pub open spec fn is_fault(&self, message: Seq<char>) -> bool {
        match self {
            Error::TypeMismatch { .. } => false,
            Error::NativeFault { message: m } => m@ == message,
        }
    }

    pub open spec fn class_spec(&self) -> ExceptionClass {
        match self {
            Error::TypeMismatch { .. } => ExceptionClass::TypeError,
            Error::NativeFault { .. } => ExceptionClass::Fatal,
        }
    }

    pub open spec fn message_spec(&self) -> Seq<char> {
        match self {
            Error::TypeMismatch { found, expected } => mismatch_message(*found, expected@),
            Error::NativeFault { message } => message@,
        }
    }

    /// The error for a captured fault. `payload` is the text the fault
    /// carried, if it carried any.
    pub fn from_panic(payload: Option<String>) -> (e: Error)
        ensures
            e.is_fault(
                match payload {
                    Some(text) => text@,
                    None => default_fault_message(),
                },
            ),
    {
        match payload {
            Some(text) => Error::NativeFault { message: text },
            None => Error::NativeFault { message: String::from_str("panic") },
        }
    }

    /// The class of the exception that the host sees for this error.
    pub fn exception_class(&self) -> (class: ExceptionClass)
        ensures
            class == self.class_spec(),
    {
        match self {
            Error::TypeMismatch { .. } => ExceptionClass::TypeError,
            Error::NativeFault { .. } => ExceptionClass::Fatal,
        }
    }

    /// The message of the exception that the host sees for this error.
    pub fn message(&self) -> (text: String)
        ensures
            text@ == self.message_spec(),
    {
        match self {
            Error::TypeMismatch { found, expected } => {
                let mut text = String::from_str("no implicit conversion of ");
                text.append(found.class_name());
                text.append(" into ");
                text.append(expected);
                text
            },
            Error::NativeFault { message } => message.clone(),
        }
    }

    /// Translates the error into the exception that is raised in the host.
    pub fn into_exception(self) -> (exception: Exception)
        ensures
            exception.class == self.class_spec(),
            exception.message@ == self.message_spec(),
    {
        let class = self.exception_class();
        let message = self.message();
        Exception { class, message }
    }
}

} // verus!
