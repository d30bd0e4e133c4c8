//! Dispatch of a native function that takes a receiver and one pinned argument.

use vstd::prelude::*;
use crate::error::{mismatch_message, Error, Exception, ExceptionClass};
use crate::gc::{keeps_frame_root, Address, RootEvent, RootRegistry};
use crate::pin_convert::StackPinned;
use crate::stack_pinned::PinGuard;
use crate::try_convert::{ReturnValue, TryConvert};
use crate::value::{ReprValue, Value, ValueKind};

verus! {

/// How the body of a native function ended.
#[derive(Debug)]
pub enum Invocation<Res> {
    /// It returned a result.
    Returned(Res),
    /// It ended in a fault, which was captured; the text is what the fault
    /// carried, if it carried any.
    Faulted(Option<String>),
}

/// What goes back to the host across the call boundary.
#[derive(Debug, PartialEq, Eq)]
pub enum HostReply {
    /// The handle of the result.
    Return(Value),
    /// An exception for the host to raise.
    Raise(Exception),
}

/// What the host receives for an outcome of the body.
pub open spec fn translated<Res: ReturnValue>(
    outcome: Invocation<Res>,
    r: Result<Value, Error>,
) -> bool {
    match outcome {
        Invocation::Returned(res) => r == res.returned(),
        Invocation::Faulted(Some(text)) => r is Err && r->Err_0.is_fault(text@),
        Invocation::Faulted(None) => r is Err && r->Err_0.is_fault(
            crate::error::default_fault_message(),
        ),
    }
}

/// Turns the outcome of the body into the result of the dispatch.
pub fn finish_invocation<Res: ReturnValue>(outcome: Invocation<Res>) -> (r: Result<Value, Error>)
    ensures
        translated(outcome, r),
{
    match outcome {
        Invocation::Returned(res) => res.into_return_value(),
        Invocation::Faulted(payload) => Err(Error::from_panic(payload)),
    }
}

/// What the host receives for a result of the dispatch: the handle, or the
/// exception that stands for the error.
pub open spec fn replied(r: Result<Value, Error>, reply: HostReply) -> bool {
    match r {
        Ok(handle) => reply == HostReply::Return(handle),
        Err(e) => reply is Raise && reply->Raise_0.class == e.class_spec()
            && reply->Raise_0.message@ == e.message_spec(),
    }
}

/// Whether `reply` raises the type error for a handle of class `found`
/// that was offered where `expected` was asked for.
pub open spec fn raises_mismatch(reply: HostReply, found: ValueKind, expected: Seq<char>) -> bool {
    reply is Raise && reply->Raise_0.class == ExceptionClass::TypeError
        && reply->Raise_0.message@ == mismatch_message(found, expected)
}

/// Translates the result of a dispatch for the way back to the host.
pub fn reply_to_host(r: Result<Value, Error>) -> (reply: HostReply)
    ensures
        replied(r, reply),
{
    match r {
        Ok(handle) => HostReply::Return(handle),
        Err(e) => HostReply::Raise(e.into_exception()),
    }
}

/// Native functions that take a typed receiver and a pinned argument.
///
/// The function also receives the registry, so that it can call back into
/// the host, and reports a captured fault through its result.
pub trait PinnedMethod1<R, RbSelf, T, Res>: Sized + FnOnce(
    RbSelf,
    &mut StackPinned<T>,
    &mut R,
) -> Invocation<Res> where
    R: RootRegistry,
    RbSelf: TryConvert,
    T: TryConvert + ReprValue,
    Res: ReturnValue,
 {
    /// Converts the receiver, then the argument; pins the argument and
    /// registers it for the duration of the call; invokes the function and
    /// converts what it returns.
    ///
    /// A receiver of the wrong class fails the dispatch before the argument
    /// is looked at, and no conversion failure registers anything. Once the
    /// argument is registered, its registration is ended under the same
    /// address after the function has ended, also where it ended in a fault.
    fn call_convert_value_pinned(
        self,
        rb_self: Value,
        arg: Value,
        registry: &mut R,
    ) -> (r: Result<Value, Error>)
        requires
            forall|pinned: &mut StackPinned<T>, host: &mut R|
                RbSelf::accepts(rb_self) && T::accepts(arg) && pinned.value() == T::converted(arg)
                    && (exists|address: Address|
                    host.events() == old(registry).events().push(
                        RootEvent::Register { address, handle: T::converted(arg).handle() },
                    ))
                    ==> self.requires((RbSelf::converted(rb_self), pinned, host)),
            forall|receiver: RbSelf, pinned: &mut StackPinned<T>, host: &mut R, out: Invocation<Res>|
                self.ensures((receiver, pinned, host), out) ==> keeps_frame_root(
                    host.events(),
                    final(host).events(),
                ),
        ensures
            !RbSelf::accepts(rb_self) ==> r is Err && r->Err_0.is_mismatch(
                rb_self.kind,
                RbSelf::expected_class(),
            ) && final(registry).events() == old(registry).events(),
            RbSelf::accepts(rb_self) && !T::accepts(arg) ==> r is Err && r->Err_0.is_mismatch(
                arg.kind,
                T::expected_class(),
            ) && final(registry).events() == old(registry).events(),
            RbSelf::accepts(rb_self) && T::accepts(arg) ==> exists|
                address: Address,
                pinned: &mut StackPinned<T>,
                host: &mut R,
                out: Invocation<Res>,
            |
                {
                    &&& pinned.value() == T::converted(arg)
                    &&& host.events() == old(registry).events().push(
                        RootEvent::Register { address, handle: T::converted(arg).handle() },
                    )
                    &&& self.ensures((RbSelf::converted(rb_self), pinned, host), out)
                    &&& final(registry).events() == final(host).events().push(
                        RootEvent::Unregister { address },
                    )
                    &&& translated(out, r)
                },
    {
        let converted_self = match RbSelf::try_convert(rb_self) {
            Ok(converted) => converted,
            Err(e) => {
                return Err(e);
            },
        };
        let converted_arg = match T::try_convert(arg) {
            Ok(converted) => converted,
            Err(e) => {
                return Err(e);
            },
        };
        let mut pinned = StackPinned::new(converted_arg);
        let mut guard = PinGuard::new(&mut pinned, registry);
        let out = self(converted_self, guard.as_pin(), &mut *registry);
        guard.release(registry);
        finish_invocation(out)
    }

    /// Runs the dispatch and translates every failure, a captured fault
    /// included, into an exception of the host.
    fn call_handle_error_pinned(
        self,
        rb_self: Value,
        arg: Value,
        registry: &mut R,
    ) -> (reply: HostReply)
        requires
            forall|pinned: &mut StackPinned<T>, host: &mut R|
                RbSelf::accepts(rb_self) && T::accepts(arg) && pinned.value() == T::converted(arg)
                    && (exists|address: Address|
                    host.events() == old(registry).events().push(
                        RootEvent::Register { address, handle: T::converted(arg).handle() },
                    ))
                    ==> self.requires((RbSelf::converted(rb_self), pinned, host)),
            forall|receiver: RbSelf, pinned: &mut StackPinned<T>, host: &mut R, out: Invocation<Res>|
                self.ensures((receiver, pinned, host), out) ==> keeps_frame_root(
                    host.events(),
                    final(host).events(),
                ),
        ensures
            !RbSelf::accepts(rb_self) ==> raises_mismatch(
                reply,
                rb_self.kind,
                RbSelf::expected_class(),
            ) && final(registry).events() == old(registry).events(),
            RbSelf::accepts(rb_self) && !T::accepts(arg) ==> raises_mismatch(
                reply,
                arg.kind,
                T::expected_class(),
            ) && final(registry).events() == old(registry).events(),
            RbSelf::accepts(rb_self) && T::accepts(arg) ==> exists|
                address: Address,
                pinned: &mut StackPinned<T>,
                host: &mut R,
                out: Invocation<Res>,
                r: Result<Value, Error>,
            |
                {
                    &&& pinned.value() == T::converted(arg)
                    &&& host.events() == old(registry).events().push(
                        RootEvent::Register { address, handle: T::converted(arg).handle() },
                    )
                    &&& self.ensures((RbSelf::converted(rb_self), pinned, host), out)
                    &&& final(registry).events() == final(host).events().push(
                        RootEvent::Unregister { address },
                    )
                    &&& translated(out, r)
                    &&& replied(r, reply)
                },
    {
        let r = self.call_convert_value_pinned(rb_self, arg, registry);
        reply_to_host(r)
    }
}

impl<Func, R, RbSelf, T, Res> PinnedMethod1<R, RbSelf, T, Res> for Func where
    Func: FnOnce(RbSelf, &mut StackPinned<T>, &mut R) -> Invocation<Res>,
    R: RootRegistry,
    RbSelf: TryConvert,
    T: TryConvert + ReprValue,
    Res: ReturnValue,
 {
}

} // verus!
