use stack_pinning::box_value::BoxValue;
use stack_pinning::error::{Error, ExceptionClass};
use stack_pinning::gc::{RecordingRegistry, RootEvent};
use stack_pinning::numeric::NumericValue;
use stack_pinning::pin_convert::{pin_to_box, pin_value, StackPinned, TryConvertPinned};
use stack_pinning::try_convert::{IntoValue, ReturnValue, TryConvert};
use stack_pinning::value::{ReprValue, Value, ValueKind};

#[test]
fn wrapper_gives_access_to_its_value() {
    let mut pinned = StackPinned::new(Value::new(4, ValueKind::Text));
    assert_eq!(*pinned.get_value_ref(), Value::new(4, ValueKind::Text));
    assert_eq!(pinned.as_value_ref(), Value::new(4, ValueKind::Text));
    *pinned.get_value_mut() = Value::new(5, ValueKind::Symbol);
    assert_eq!(*pinned.get_value_ref(), Value::new(5, ValueKind::Symbol));
    assert_eq!(pinned.as_value(), Value::new(5, ValueKind::Symbol));
}

#[test]
fn pin_value_wraps_on_the_heap() {
    let pinned = pin_value(Value::new(11, ValueKind::Array));
    assert_eq!(pinned.as_value_ref(), Value::new(11, ValueKind::Array));
}

#[test]
fn pinned_conversion_accepts_the_expected_class() {
    let handle = Value::new(3, ValueKind::Rational);
    let pinned = NumericValue::try_convert_pinned(handle).unwrap();
    assert_eq!(pinned.as_value_ref(), handle);
    assert_eq!(pinned.get_value_ref().kind(), ValueKind::Rational);
}

#[test]
fn pinned_conversion_rejects_another_class() {
    let handle = Value::new(3, ValueKind::Text);
    let error = NumericValue::try_convert_pinned(handle).err().unwrap();
    assert_eq!(error, Error::TypeMismatch { found: ValueKind::Text, expected: "Numeric" });
    assert_eq!(error.exception_class(), ExceptionClass::TypeError);
    assert_eq!(error.message(), "no implicit conversion of String into Numeric");
}

#[test]
fn every_handle_converts_to_a_plain_value() {
    for kind in [ValueKind::Nil, ValueKind::Object, ValueKind::Hash] {
        let handle = Value::new(1, kind);
        assert_eq!(Value::try_convert(handle), Ok(handle));
        assert_eq!(Value::try_convert_pinned(handle).unwrap().as_value_ref(), handle);
    }
}

#[test]
fn numeric_conversion_goes_by_class() {
    let numeric = [ValueKind::Integer, ValueKind::Float, ValueKind::Rational, ValueKind::Complex];
    for kind in numeric {
        let handle = Value::new(8, kind);
        let number = NumericValue::try_convert(handle).unwrap();
        assert_eq!(number.as_value(), handle);
        assert_eq!(number.into_value(), handle);
        assert_eq!(number.kind(), kind);
    }
    let others = [
        (ValueKind::Nil, "NilClass"),
        (ValueKind::True, "TrueClass"),
        (ValueKind::False, "FalseClass"),
        (ValueKind::Text, "String"),
        (ValueKind::Symbol, "Symbol"),
        (ValueKind::Array, "Array"),
        (ValueKind::Hash, "Hash"),
        (ValueKind::Object, "Object"),
    ];
    for (kind, name) in others {
        assert!(!kind.is_numeric());
        assert_eq!(kind.class_name(), name);
        let error = NumericValue::try_convert(Value::new(8, kind)).err().unwrap();
        assert_eq!(error, Error::TypeMismatch { found: kind, expected: "Numeric" });
        assert_eq!(error.message(), format!("no implicit conversion of {} into Numeric", name));
    }
}

#[test]
fn move_out_roots_the_box_and_leaves_the_wrapper() {
    let mut registry = RecordingRegistry::new();
    let handle = Value::new(21, ValueKind::Integer);
    let mut pinned = StackPinned::new(NumericValue::try_convert(handle).unwrap());
    let boxed = pinned.into_box_value(&mut registry);
    assert_eq!(boxed.get().as_value(), handle);
    assert_eq!(pinned.as_value_ref(), handle);
    assert_eq!(
        registry.history(),
        &vec![RootEvent::Register { address: boxed.root_address(), handle }]
    );
    assert!(registry.is_registered(boxed.root_address()));
}

#[test]
fn round_trip_through_pin_and_box_keeps_the_handle() {
    let mut registry = RecordingRegistry::new();
    let handle = Value::new(34, ValueKind::Float);
    let pinned = NumericValue::try_convert_pinned(handle).unwrap();
    let boxed = pin_to_box(pinned, &mut registry);
    assert_eq!(boxed.get().as_value(), handle);
    let address = boxed.root_address();
    let number = boxed.release(&mut registry);
    assert_eq!(number.into_value(), handle);
    assert_eq!(
        registry.history(),
        &vec![RootEvent::Register { address, handle }, RootEvent::Unregister { address }]
    );
}

#[test]
fn box_is_a_root_from_new_to_release() {
    let mut registry = RecordingRegistry::new();
    let boxed = BoxValue::new(Value::new(2, ValueKind::Object), &mut registry);
    let address = boxed.root_address();
    assert!(registry.is_registered(address));
    assert_eq!(boxed.release(&mut registry), Value::new(2, ValueKind::Object));
    assert!(!registry.is_registered(address));
}

#[test]
fn return_values_become_handles_or_errors() {
    let handle = Value::new(1, ValueKind::Integer);
    assert_eq!(handle.into_return_value(), Ok(handle));
    let ok: Result<Value, Error> = Ok(handle);
    assert_eq!(ok.into_return_value(), Ok(handle));
    let failed: Result<Value, Error> = Err(Error::from_panic(None));
    assert_eq!(failed.into_return_value(), Err(Error::NativeFault { message: "panic".to_string() }));
}

#[test]
fn faults_translate_to_fatal_exceptions() {
    let with_text = Error::from_panic(Some("boom".to_string()));
    assert_eq!(with_text, Error::NativeFault { message: "boom".to_string() });
    let exception = with_text.into_exception();
    assert_eq!(exception.class, ExceptionClass::Fatal);
    assert_eq!(exception.message, "boom");
    let without = Error::from_panic(None);
    assert_eq!(without.message(), "panic");
    assert_eq!(without.exception_class(), ExceptionClass::Fatal);
}
