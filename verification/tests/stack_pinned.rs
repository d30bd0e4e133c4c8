use stack_pinning::gc::{RecordingRegistry, RootEvent, RootRegistry};
use stack_pinning::stack_pinned::{PinGuard, StackPinned};
use stack_pinning::value::{Value, ValueKind};

/// A host with a heap of strings: a handle's raw word is the index of its object.
struct Heap {
    objects: Vec<String>,
}

impl Heap {
    fn eval(&mut self, source: &str) -> Option<Value> {
        let text = source.strip_prefix('\'')?.strip_suffix('\'')?;
        self.objects.push(text.to_string());
        Some(Value::new(self.objects.len() as u64 - 1, ValueKind::Text))
    }

    fn to_string(&self, value: Value) -> String {
        self.objects[value.as_raw() as usize].clone()
    }
}

fn echo(registry: &mut RecordingRegistry, mut val: Value) -> Value {
    {
        let p = PinGuard::new(&mut val, registry);
        // value is pinned until the guard is released
        p.release(registry);
    }
    val
}

#[test]
fn it_pins_value() {
    let mut heap = Heap { objects: Vec::new() };
    let mut registry = RecordingRegistry::new();
    let val: Value = heap.eval("'hello'").unwrap();
    let res = echo(&mut registry, val);
    assert_eq!(heap.to_string(res), "hello");
}

#[test]
fn guard_registers_on_construction_and_deregisters_on_release() {
    let mut registry = RecordingRegistry::new();
    let mut val = Value::new(7, ValueKind::Text);
    let guard = PinGuard::new(&mut val, &mut registry);
    let address = guard.registered_address();
    let registered = RootEvent::Register { address, handle: Value::new(7, ValueKind::Text) };
    assert_eq!(registry.history(), &vec![registered]);
    assert!(registry.is_registered(address));
    guard.release(&mut registry);
    assert_eq!(registry.history(), &vec![registered, RootEvent::Unregister { address }]);
    assert!(!registry.is_registered(address));
    assert_eq!(val, Value::new(7, ValueKind::Text));
}

#[test]
fn guard_keeps_its_address_while_the_value_changes() {
    let mut registry = RecordingRegistry::new();
    let mut val = Value::new(1, ValueKind::Integer);
    let mut guard = PinGuard::new(&mut val, &mut registry);
    let at_registration = guard.registered_address();
    *guard.as_pin() = Value::new(2, ValueKind::Integer);
    assert_eq!(*guard.deref(), Value::new(2, ValueKind::Integer));
    *guard.deref_mut() = Value::new(3, ValueKind::Float);
    assert_eq!(guard.registered_address(), at_registration);
    guard.release(&mut registry);
    assert_eq!(
        registry.history(),
        &vec![
            RootEvent::Register { address: at_registration, handle: Value::new(1, ValueKind::Integer) },
            RootEvent::Unregister { address: at_registration },
        ]
    );
    assert_eq!(val, Value::new(3, ValueKind::Float));
}

#[test]
fn nested_guards_pair_each_address() {
    let mut registry = RecordingRegistry::new();
    let mut outer = Value::new(1, ValueKind::Array);
    let mut inner = Value::new(2, ValueKind::Hash);
    let outer_guard = PinGuard::new(&mut outer, &mut registry);
    let inner_guard = PinGuard::new(&mut inner, &mut registry);
    let a = outer_guard.registered_address();
    let b = inner_guard.registered_address();
    assert_ne!(a, b);
    inner_guard.release(&mut registry);
    assert!(registry.is_registered(a));
    assert!(!registry.is_registered(b));
    outer_guard.release(&mut registry);
    for address in [a, b] {
        assert_eq!(registry.registration_count(address), 1);
        assert_eq!(registry.deregistration_count(address), 1);
        assert_eq!(registry.root_count(address), 0);
    }
}

#[test]
fn register_and_deregister_go_through_the_registry() {
    let mut registry = RecordingRegistry::new();
    let val = Value::new(9, ValueKind::Symbol);
    let address = val.register(&mut registry);
    assert_eq!(registry.root_count(address), 1);
    val.deregister(&mut registry, address);
    assert_eq!(registry.root_count(address), 0);
    assert_eq!(registry.history().len(), 2);
}

#[test]
fn recording_registry_counts_repeated_registrations() {
    let mut registry = RecordingRegistry::new();
    let val = Value::new(9, ValueKind::Symbol);
    let first = registry.register_address(&val);
    let second = registry.register_address(&val);
    assert_eq!((first, second), (0, 1));
    registry.unregister_address(first);
    assert_eq!(registry.registration_count(first), 1);
    assert_eq!(registry.deregistration_count(first), 1);
    assert_eq!(registry.registration_count(second), 1);
    assert_eq!(registry.deregistration_count(second), 0);
    assert!(!registry.is_registered(first));
    assert!(registry.is_registered(second));
    assert_eq!(registry.root_count(5), 0);
}

#[test]
fn new_registry_has_no_history() {
    let registry = RecordingRegistry::new();
    assert!(registry.history().is_empty());
    assert!(!registry.is_registered(0));
}

#[test]
fn with_pinned_registers_around_the_body() {
    let mut registry = RecordingRegistry::new();
    let mut val = Value::new(3, ValueKind::Hash);
    let seen = stack_pinning::stack_pinned::with_pinned(
        &mut val,
        &mut registry,
        |pinned: &mut Value, host: &mut RecordingRegistry| {
            let rooted = host.is_registered(0);
            *pinned = Value::new(9, ValueKind::Hash);
            rooted
        },
    );
    assert!(seen);
    assert_eq!(val, Value::new(9, ValueKind::Hash));
    assert_eq!(
        registry.history(),
        &vec![
            RootEvent::Register { address: 0, handle: Value::new(3, ValueKind::Hash) },
            RootEvent::Unregister { address: 0 },
        ]
    );
}

#[test]
fn scope_adds_one_registration_and_one_deregistration_to_its_body() {
    let mut registry = RecordingRegistry::new();
    let earlier = Value::new(1, ValueKind::Object);
    let kept = registry.register_address(&earlier);
    let mut val = Value::new(2, ValueKind::Array);
    stack_pinning::stack_pinned::with_pinned(
        &mut val,
        &mut registry,
        |pinned: &mut Value, host: &mut RecordingRegistry| {
            let inner = host.register_address(pinned);
            host.unregister_address(inner);
        },
    );
    assert_eq!(registry.history().len(), 5);
    // The scope's own address: one registration, one deregistration.
    assert_eq!(registry.registration_count(1), 1);
    assert_eq!(registry.deregistration_count(1), 1);
    // The body's address: what the body did, no more.
    assert_eq!(registry.registration_count(2), 1);
    assert_eq!(registry.deregistration_count(2), 1);
    // What was a root before is one after.
    assert_eq!(registry.registration_count(kept), 1);
    assert_eq!(registry.deregistration_count(kept), 0);
    assert!(registry.is_registered(kept));
    assert!(!registry.is_registered(1));
    assert!(!registry.is_registered(2));
}

#[test]
fn deregistration_of_a_root_registered_twice_leaves_one() {
    let mut registry = RecordingRegistry::new();
    let val = Value::new(1, ValueKind::Object);
    let address = registry.register_address(&val);
    registry.unregister_address(address);
    assert_eq!(registry.root_count(address), 0);
    assert_eq!(registry.registration_count(address), 1);
}
