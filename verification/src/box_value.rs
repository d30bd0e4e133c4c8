//! Heap storage that is a root of the collector for as long as it lives.

use vstd::prelude::*;
use crate::gc::{is_rooted, Address, RootEvent, RootRegistry};
use crate::value::ReprValue;

verus! {

/// A value on the heap whose storage is registered as a root from `new`
/// until `release`.
///
/// Unlike a guard, a box is not bound to a scope: whoever holds it decides
/// when the registration ends.
pub struct BoxValue<T> {
    slot: Box<T>,
    address: Address,
}

impl<T: ReprValue> BoxValue<T> {
    /// The value in the box.
    pub closed spec fn value(&self) -> T {
        *self.slot
    }

    /// The address under which the box is registered.
    pub closed spec fn address(&self) -> Address {
        self.address
    }

    /// Moves `value` to the heap and registers its storage.
    pub fn new<R: RootRegistry>(value: T, registry: &mut R) -> (boxed: Self)
        ensures
            boxed.value() == value,
            final(registry).events() == old(registry).events().push(
                RootEvent::Register { address: boxed.address(), handle: value.handle() },
            ),
    {
        let slot = Box::new(value);
        let address = registry.register_address(&*slot);
        BoxValue { slot, address }
    }

    /// Read access to the value.
    pub fn get(&self) -> (value: &T)
        ensures
            *value == self.value(),
    {
        &*self.slot
    }

    /// The address under which the box is registered.
    pub fn root_address(&self) -> (address: Address)
        ensures
            address == self.address(),
    {
        self.address
    }

    /// Ends the registration and hands the value back.
    pub fn release<R: RootRegistry>(self, registry: &mut R) -> (value: T)
        requires
            is_rooted(old(registry).events(), self.address()),
        ensures
            value == self.value(),
            final(registry).events() == old(registry).events().push(
                RootEvent::Unregister { address: self.address() },
            ),
    {
        registry.unregister_address(self.address);
        *self.slot
    }
}

} // verus!
