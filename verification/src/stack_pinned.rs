//! The guard that keeps a pinned value registered with the collector.

use vstd::prelude::*;
use crate::gc::{is_rooted, keeps_frame_root, Address, RootEvent, RootRegistry};
use crate::value::ReprValue;

verus! {

/// Values whose storage can be made a root of the collector.
pub trait StackPinned: ReprValue {
    /// Registers the storage of `self` and reports its address.
    fn register<R: RootRegistry>(&self, registry: &mut R) -> (address: Address)
        ensures
            final(registry).events() == old(registry).events().push(
                RootEvent::Register { address, handle: self.handle() },
            ),
    {
        registry.register_address(self)
    }

    /// Ends the registration that `register` made under `address`.
    fn deregister<R: RootRegistry>(&self, registry: &mut R, address: Address)
        requires
            is_rooted(old(registry).events(), address),
        ensures
            final(registry).events() == old(registry).events().push(
                RootEvent::Unregister { address },
            ),
    {
        registry.unregister_address(address)
    }
}

impl<T: ReprValue> StackPinned for T {
}

/// A registration that lasts as long as a borrow.
///
/// The guard borrows the value for its whole life, so the value stays where
/// it is. `new` registers the value's storage; `release` ends that
/// registration under the address that `new` was given, whatever was done
/// to the value in between. A guard has no destructor: the registration
/// ends at `release` and nowhere else. `with_pinned` makes and releases the
/// guard around a body and so cannot leave a registration behind.
pub struct PinGuard<'a, T: StackPinned> {
    value: &'a mut T,
    address: Address,
}

impl<'a, T: StackPinned> PinGuard<'a, T> {
    /// The address that the guard registered and will deregister.
    pub closed spec fn address(&self) -> Address {
        self.address
    }

    /// The value behind the guard.
    pub closed spec fn value(&self) -> T {
        *self.value
    }

    /// The borrow that the guard holds.
    pub closed spec fn target(&self) -> &'a mut T {
        self.value
    }

    /// Registers the storage of `value` and keeps it borrowed.
    pub fn new<R: RootRegistry>(value: &'a mut T, registry: &mut R) -> (guard: Self)
        ensures
            guard.value() == *old(value),
            *final(guard.target()) == *final(value),
            final(registry).events() == old(registry).events().push(
                RootEvent::Register { address: guard.address(), handle: old(value).handle() },
            ),
    {
        let address = value.register(registry);
        PinGuard { value, address }
    }

    /// The address that the guard registered and will deregister.
    pub fn registered_address(&self) -> (address: Address)
        ensures
            address == self.address(),
    {
        self.address
    }

    /// The pinned value, for passing on to operations that change it in place.
    pub fn as_pin(&mut self) -> (pinned: &mut T)
        ensures
            *pinned == old(self).value(),
            final(self).value() == *final(pinned),
            final(self).address() == old(self).address(),
            *final(final(self).target()) == *final(old(self).target()),
    {
        &mut *self.value
    }

    /// Read access to the pinned value.
    pub fn deref(&self) -> (value: &T)
        ensures
            *value == self.value(),
    {
        &*self.value
    }

    /// Write access to the pinned value; the registration stays as it is.
    pub fn deref_mut(&mut self) -> (value: &mut T)
        ensures
            *value == old(self).value(),
            final(self).value() == *final(value),
            final(self).address() == old(self).address(),
            *final(final(self).target()) == *final(old(self).target()),
    {
        &mut *self.value
    }

    /// Ends the registration and the borrow.
    pub fn release<R: RootRegistry>(self, registry: &mut R)
        requires
            is_rooted(old(registry).events(), self.address()),
        ensures
            final(registry).events() == old(registry).events().push(
                RootEvent::Unregister { address: self.address() },
            ),
            *final(self.target()) == self.value(),
    {
        self.value.deregister(registry, self.address);
    }
}

/// Runs `body` on `value` while the storage of `value` is registered.
///
/// The registration is made before `body` is entered and ended after it
/// has returned, under the same address, whatever `body` returned.
pub fn with_pinned<T, R, Out, F>(value: &mut T, registry: &mut R, body: F) -> (out: Out) where
    T: StackPinned,
    R: RootRegistry,
    F: FnOnce(&mut T, &mut R) -> Out,

    requires
        forall|pinned: &mut T, host: &mut R|
            *pinned == *old(value) && (exists|address: Address|
                host.events() == old(registry).events().push(
                    RootEvent::Register { address, handle: old(value).handle() },
                ))
                ==> body.requires((pinned, host)),
        forall|pinned: &mut T, host: &mut R, out: Out|
            body.ensures((pinned, host), out) ==> keeps_frame_root(
                host.events(),
                final(host).events(),
            ),
    ensures
        exists|address: Address, pinned: &mut T, host: &mut R|
            {
                &&& *pinned == *old(value)
                &&& host.events() == old(registry).events().push(
                    RootEvent::Register { address, handle: old(value).handle() },
                )
                &&& body.ensures((pinned, host), out)
                &&& *final(value) == *final(pinned)
                &&& final(registry).events() == final(host).events().push(
                    RootEvent::Unregister { address },
                )
            },
{
    let mut guard = PinGuard::new(value, registry);
    let out = body(guard.as_pin(), &mut *registry);
    guard.release(registry);
    out
}

} // verus!
