//! The collector's root registry, as a capability that callers pass in.

use vstd::prelude::*;
use vstd::multiset::Multiset;
use crate::value::{ReprValue, Value};

verus! {

/// A storage location that the collector can treat as a root.
pub type Address = usize;

/// One call that a registry received.
#[derive(Clone, Copy, Debug, PartialEq, Eq, Structural)]
pub enum RootEvent {
    /// Storage at `address` became a root; it held `handle` at that time.
    Register { address: Address, handle: Value },
    /// The registration of `address` ended.
    Unregister { address: Address },
}

impl RootEvent {
    /// Whether the call registered `address`.
    pub open spec fn registers(self, address: Address) -> bool {
        match self {
            RootEvent::Register { address: registered, .. } => registered == address,
            RootEvent::Unregister { .. } => false,
        }
    }

    /// Whether the call deregistered `address`.
    pub open spec fn unregisters(self, address: Address) -> bool {
        match self {
            RootEvent::Register { .. } => false,
            RootEvent::Unregister { address: unregistered } => unregistered == address,
        }
    }
}

/// The calls that register `address`.
pub open spec fn registering(address: Address) -> spec_fn(RootEvent) -> bool {
    |event: RootEvent| event.registers(address)
}

/// The calls that deregister `address`.
pub open spec fn unregistering(address: Address) -> spec_fn(RootEvent) -> bool {
    |event: RootEvent| event.unregisters(address)
}

/// How often `address` was registered in `log`.
pub open spec fn registrations(log: Seq<RootEvent>, address: Address) -> nat {
    log.filter(registering(address)).len()
}

/// How often `address` was deregistered in `log`.
pub open spec fn deregistrations(log: Seq<RootEvent>, address: Address) -> nat {
    log.filter(unregistering(address)).len()
}

/// The roots that stand once every call in `log` has been made, each as
/// often as it is registered.
pub open spec fn roots(log: Seq<RootEvent>) -> Multiset<Address>
    decreases log.len(),
{
    if log.len() == 0 {
        Multiset::empty()
    } else {
        let before = roots(log.drop_last());
        match log.last() {
            RootEvent::Register { address, .. } => before.insert(address),
            RootEvent::Unregister { address } => before.remove(address),
        }
    }
}

/// Whether `address` is a root once every call in `log` has been made.
pub open spec fn is_rooted(log: Seq<RootEvent>, address: Address) -> bool {
    roots(log).count(address) > 0
}

/// One more registration adds its address to the roots.
pub proof fn lemma_roots_register(log: Seq<RootEvent>, address: Address, handle: Value)
    ensures
        roots(log.push(RootEvent::Register { address, handle })) == roots(log).insert(address),
        is_rooted(log.push(RootEvent::Register { address, handle }), address),
{
    let after = log.push(RootEvent::Register { address, handle });
    assert(after.drop_last() =~= log);
}

/// One more deregistration takes its address from the roots once.
pub proof fn lemma_roots_unregister(log: Seq<RootEvent>, address: Address)
    ensures
        roots(log.push(RootEvent::Unregister { address })) == roots(log).remove(address),
{
    let after = log.push(RootEvent::Unregister { address });
    assert(after.drop_last() =~= log);
}

/// One more call counts as a registration of the address it registers, as
/// a deregistration of the address it deregisters, and for no other address.
pub proof fn lemma_counts_push(log: Seq<RootEvent>, event: RootEvent, address: Address)
    ensures
        registrations(log.push(event), address) == registrations(log, address) + if event.registers(
            address,
        ) {
            1nat
        } else {
            0nat
        },
        deregistrations(log.push(event), address) == deregistrations(log, address)
            + if event.unregisters(address) {
            1nat
        } else {
            0nat
        },
{
    let after = log.push(event);
    assert(after.drop_last() =~= log);
    reveal(Seq::filter);
    assert(after.filter(registering(address)) == if registering(address)(event) {
        log.filter(registering(address)).push(event)
    } else {
        log.filter(registering(address))
    });
    assert(after.filter(unregistering(address)) == if unregistering(address)(event) {
        log.filter(unregistering(address)).push(event)
    } else {
        log.filter(unregistering(address))
    });
}

/// The calls of two histories in a row count as the calls of the one and
/// the calls of the other.
pub proof fn lemma_counts_concat(first: Seq<RootEvent>, second: Seq<RootEvent>, address: Address)
    ensures
        registrations(first + second, address) == registrations(first, address) + registrations(
            second,
            address,
        ),
        deregistrations(first + second, address) == deregistrations(first, address)
            + deregistrations(second, address),
{
    Seq::filter_distributes_over_add(first, second, registering(address));
    Seq::filter_distributes_over_add(first, second, unregistering(address));
}

/// The history of a scope that registers storage at `address` while it
/// holds `handle`, lets the calls of `body` happen and deregisters
/// `address` again.
pub open spec fn scoped(
    before: Seq<RootEvent>,
    address: Address,
    handle: Value,
    body: Seq<RootEvent>,
) -> Seq<RootEvent> {
    before.push(RootEvent::Register { address, handle }) + body.push(
        RootEvent::Unregister { address },
    )
}

/// Pairing: a scope adds exactly one registration and one deregistration
/// of its address to the calls of its body, and none of any other address.
pub proof fn lemma_scope_pairs(
    before: Seq<RootEvent>,
    address: Address,
    handle: Value,
    body: Seq<RootEvent>,
    other: Address,
)
    ensures
        registrations(scoped(before, address, handle, body), other) == registrations(
            before,
            other,
        ) + registrations(body, other) + if other == address {
            1nat
        } else {
            0nat
        },
        deregistrations(scoped(before, address, handle, body), other) == deregistrations(
            before,
            other,
        ) + deregistrations(body, other) + if other == address {
            1nat
        } else {
            0nat
        },
{
    let opening = RootEvent::Register { address, handle };
    let closing = RootEvent::Unregister { address };
    lemma_counts_concat(before.push(opening), body.push(closing), other);
    lemma_counts_push(before, opening, other);
    lemma_counts_push(body, closing, other);
}

/// A scope whose body makes no call leaves the roots as it found them.
pub proof fn lemma_scope_restores_roots(before: Seq<RootEvent>, address: Address, handle: Value)
    ensures
        roots(scoped(before, address, handle, Seq::empty())) == roots(before),
{
    let opened = before.push(RootEvent::Register { address, handle });
    assert(scoped(before, address, handle, Seq::empty()) =~= opened.push(
        RootEvent::Unregister { address },
    ));
    lemma_roots_register(before, address, handle);
    lemma_roots_unregister(opened, address);
    assert(roots(before).insert(address).remove(address) =~= roots(before));
}

/// Whether a body that found the history `before` and left it as `after`
/// kept the root that was registered last before it ran.
pub open spec fn keeps_frame_root(before: Seq<RootEvent>, after: Seq<RootEvent>) -> bool {
    forall|address: Address|
        before.len() > 0 && before.last().registers(address) ==> is_rooted(after, address)
}

/// A body that leaves every root in place keeps the root of its frame.
pub proof fn lemma_keeps_frame_root(before: Seq<RootEvent>, after: Seq<RootEvent>)
    requires
        roots(before).subset_of(roots(after)),
    ensures
        keeps_frame_root(before, after),
{
    assert forall|address: Address|
        before.len() > 0 && before.last().registers(address) implies is_rooted(
        after,
        address,
    ) by {
        assert(before.drop_last().push(before.last()) =~= before);
    }
}

/// Whether `later` is `earlier` with further calls after it.
pub open spec fn extends(earlier: Seq<RootEvent>, later: Seq<RootEvent>) -> bool {
    earlier.len() <= later.len() && later.subrange(0, earlier.len() as int) == earlier
}

/// A scope whose body only added calls to the history has the history of
/// `scoped`, with those calls as its body.
pub proof fn lemma_scope_of_extension(
    before: Seq<RootEvent>,
    address: Address,
    handle: Value,
    entered: Seq<RootEvent>,
    left: Seq<RootEvent>,
)
    requires
        entered == before.push(RootEvent::Register { address, handle }),
        extends(entered, left),
    ensures
        left.push(RootEvent::Unregister { address }) == scoped(
            before,
            address,
            handle,
            left.subrange(entered.len() as int, left.len() as int),
        ),
{
    let body = left.subrange(entered.len() as int, left.len() as int);
    assert(left =~= entered + body);
    assert(left.push(RootEvent::Unregister { address }) =~= scoped(before, address, handle, body));
}

/// The host's interface for marking storage as a root of the collector.
///
/// `events` is the history of the calls made so far. Both operations are
/// infallible; deregistering an address that is not a root is not allowed.
pub trait RootRegistry {
    /// The calls received so far, oldest first.
    spec fn events(&self) -> Seq<RootEvent>;

    /// Makes the storage of `target` a root and reports where it is.
    fn register_address<T: ReprValue>(&mut self, target: &T) -> (address: Address)
        ensures
            final(self).events() == old(self).events().push(
                RootEvent::Register { address, handle: target.handle() },
            ),
    ;

    /// Ends the registration of `address`.
    fn unregister_address(&mut self, address: Address)
        requires
            is_rooted(old(self).events(), address),
        ensures
            final(self).events() == old(self).events().push(RootEvent::Unregister { address }),
    ;
}

/// A registry that keeps the history of its calls and nothing else.
///
/// It stands in for the host where no collector runs: it hands out the
/// addresses 0, 1, 2, ... in the order of the registrations and answers
/// questions about the history.
pub struct RecordingRegistry {
    log: Vec<RootEvent>,
    next: Address,
}

impl RecordingRegistry {
    /// The address that the next registration is given.
    pub closed spec fn next_address(&self) -> Address {
        self.next
    }

    /// A registry that has received no call.
    pub fn new() -> (registry: Self)
        ensures
            registry.events() == Seq::<RootEvent>::empty(),
            registry.next_address() == 0,
    {
        RecordingRegistry { log: Vec::new(), next: 0 }
    }

    /// The calls received so far, oldest first.
    pub fn history(&self) -> (log: &Vec<RootEvent>)
        ensures
            log@ == self.events(),
    {
        &self.log
    }

    /// How often `address` was registered so far.
    pub fn registration_count(&self, address: Address) -> (n: usize)
        ensures
            n == registrations(self.events(), address),
    {
        let mut n: usize = 0;
        let mut i: usize = 0;
        proof {
            assert(self.log@.subrange(0, 0) =~= Seq::<RootEvent>::empty());
            reveal(Seq::filter);
        }
        while i < self.log.len()
            invariant
                i <= self.log@.len(),
                n <= i,
                n == registrations(self.log@.subrange(0, i as int), address),
            decreases self.log@.len() - i,
        {
            proof {
                let prefix = self.log@.subrange(0, i as int);
                assert(self.log@.subrange(0, i + 1) =~= prefix.push(self.log@[i as int]));
                lemma_counts_push(prefix, self.log@[i as int], address);
            }
            match self.log[i] {
                RootEvent::Register { address: registered, .. } => {
                    if registered == address {
                        n = n + 1;
                    }
                },
                RootEvent::Unregister { .. } => {},
            }
            i = i + 1;
        }
        assert(self.log@.subrange(0, i as int) =~= self.log@);
        n
    }

    /// How often `address` was deregistered so far.
    pub fn deregistration_count(&self, address: Address) -> (n: usize)
        ensures
            n == deregistrations(self.events(), address),
    {
        let mut n: usize = 0;
        let mut i: usize = 0;
        proof {
            assert(self.log@.subrange(0, 0) =~= Seq::<RootEvent>::empty());
            reveal(Seq::filter);
        }
        while i < self.log.len()
            invariant
                i <= self.log@.len(),
                n <= i,
                n == deregistrations(self.log@.subrange(0, i as int), address),
            decreases self.log@.len() - i,
        {
            proof {
                let prefix = self.log@.subrange(0, i as int);
                assert(self.log@.subrange(0, i + 1) =~= prefix.push(self.log@[i as int]));
                lemma_counts_push(prefix, self.log@[i as int], address);
            }
            match self.log[i] {
                RootEvent::Register { .. } => {},
                RootEvent::Unregister { address: unregistered } => {
                    if unregistered == address {
                        n = n + 1;
                    }
                },
            }
            i = i + 1;
        }
        assert(self.log@.subrange(0, i as int) =~= self.log@);
        n
    }

    /// How often `address` is registered at present.
    pub fn root_count(&self, address: Address) -> (n: usize)
        ensures
            n == roots(self.events()).count(address),
    {
        let mut n: usize = 0;
        let mut i: usize = 0;
        assert(self.log@.subrange(0, 0) =~= Seq::<RootEvent>::empty());
        while i < self.log.len()
            invariant
                i <= self.log@.len(),
                n <= i,
                n == roots(self.log@.subrange(0, i as int)).count(address),
            decreases self.log@.len() - i,
        {
            proof {
                let prefix = self.log@.subrange(0, i as int);
                assert(self.log@.subrange(0, i + 1) =~= prefix.push(self.log@[i as int]));
                match self.log@[i as int] {
                    RootEvent::Register { address: a, handle } => lemma_roots_register(
                        prefix,
                        a,
                        handle,
                    ),
                    RootEvent::Unregister { address: a } => lemma_roots_unregister(prefix, a),
                }
            }
            match self.log[i] {
                RootEvent::Register { address: registered, .. } => {
                    if registered == address {
                        n = n + 1;
                    }
                },
                RootEvent::Unregister { address: unregistered } => {
                    if unregistered == address && n > 0 {
                        n = n - 1;
                    }
                },
            }
            i = i + 1;
        }
        assert(self.log@.subrange(0, i as int) =~= self.log@);
        n
    }

    /// Whether `address` is a root at present.
    pub fn is_registered(&self, address: Address) -> (rooted: bool)
        ensures
            rooted == is_rooted(self.events(), address),
    {
        self.root_count(address) > 0
    }
}

impl RootRegistry for RecordingRegistry {
    closed spec fn events(&self) -> Seq<RootEvent> {
        self.log@
    }

    fn register_address<T: ReprValue>(&mut self, target: &T) -> (address: Address)
        ensures
            address == old(self).next_address(),
            final(self).next_address() == if address < usize::MAX {
                address + 1
            } else {
                0
            },
    {
        let address: Address = self.next;
        self.log.push(RootEvent::Register { address, handle: target.as_value() });
        self.next = if self.next < usize::MAX {
            self.next + 1
        } else {
            0
        };
        address
    }

    fn unregister_address(&mut self, address: Address)
        ensures
            final(self).next_address() == old(self).next_address(),
    {
        self.log.push(RootEvent::Unregister { address });
    }
}

} // verus!
