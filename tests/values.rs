use std::collections::hash_map::DefaultHasher;
use std::hash::{Hash, Hasher};

use serde_html::{AttributeValue, HashKey};

fn hash_of(v: &AttributeValue) -> u64 {
    let mut h = DefaultHasher::new();
    v.hash(&mut h);
    h.finish()
}

fn decimal(x: f64) -> AttributeValue {
    AttributeValue::Decimal(x.to_bits())
}

#[test]
fn constant_equals_string_with_same_text() {
    let c = AttributeValue::Constant("main");
    let s = AttributeValue::String("main".to_string());
    assert_eq!(c, s);
    assert_eq!(s, c);
    assert_eq!(hash_of(&c), hash_of(&s));
}

#[test]
fn empty_text_constant_equals_empty_string() {
    let c = AttributeValue::Constant("");
    let s = AttributeValue::String(String::new());
    assert_eq!(c, s);
    assert_eq!(hash_of(&c), hash_of(&s));
}

#[test]
fn string_likes_with_different_text_differ() {
    assert_ne!(AttributeValue::Constant("a"), AttributeValue::String("b".to_string()));
    assert_ne!(AttributeValue::String("ab".to_string()), AttributeValue::String("a".to_string()));
    assert_ne!(AttributeValue::Constant("é"), AttributeValue::Constant("e"));
}

#[test]
fn different_kinds_never_equal() {
    assert_ne!(AttributeValue::Boolean(true), AttributeValue::Integer(1));
    assert_ne!(AttributeValue::Integer(0), AttributeValue::Boolean(false));
    assert_ne!(AttributeValue::Empty, AttributeValue::Constant(""));
    assert_ne!(AttributeValue::Constant("1"), AttributeValue::Integer(1));
    assert_ne!(decimal(1.0), AttributeValue::Integer(1));
    assert_ne!(AttributeValue::String("true".to_string()), AttributeValue::Boolean(true));
}

#[test]
fn same_kind_values_compare_by_content() {
    assert_eq!(AttributeValue::Empty, AttributeValue::Empty);
    assert_eq!(AttributeValue::Boolean(false), AttributeValue::Boolean(false));
    assert_ne!(AttributeValue::Boolean(false), AttributeValue::Boolean(true));
    assert_eq!(AttributeValue::Integer(-7), AttributeValue::Integer(-7));
    assert_ne!(AttributeValue::Integer(7), AttributeValue::Integer(8));
    assert_eq!(decimal(1.5), decimal(1.5));
    assert_ne!(decimal(1.5), decimal(2.5));
}

#[test]
fn decimal_nan_is_not_equal_to_itself() {
    let nan = decimal(f64::NAN);
    assert_ne!(nan, nan);
    assert_eq!(hash_of(&nan), hash_of(&decimal(f64::NAN)));
}

#[test]
fn decimal_zeros_are_equal() {
    assert_eq!(decimal(0.0), decimal(-0.0));
    assert_eq!(hash_of(&decimal(0.0)), hash_of(&decimal(-0.0)));
}

#[test]
fn hash_key_normalises_zero_and_text() {
    assert!(matches!(decimal(-0.0).hash_key(), HashKey::Bits(0)));
    assert!(matches!(decimal(1.0).hash_key(), HashKey::Bits(b) if b == 1.0f64.to_bits()));
    assert!(matches!(AttributeValue::String("t".to_string()).hash_key(), HashKey::Text("t")));
    assert!(matches!(AttributeValue::Constant("t").hash_key(), HashKey::Text("t")));
}

#[test]
fn equal_values_hash_alike() {
    let pairs = vec![
        (AttributeValue::Empty, AttributeValue::Empty),
        (AttributeValue::Boolean(true), AttributeValue::Boolean(true)),
        (AttributeValue::Integer(42), AttributeValue::Integer(42)),
        (decimal(3.25), decimal(3.25)),
        (AttributeValue::Constant("x"), AttributeValue::Constant("x")),
        (AttributeValue::String("x".to_string()), AttributeValue::Constant("x")),
    ];
    for (a, b) in pairs.iter() {
        assert_eq!(a, b);
        assert_eq!(hash_of(a), hash_of(b));
    }
}

#[test]
fn u64_in_range_converts() {
    assert_eq!(AttributeValue::try_from(5u64).unwrap(), AttributeValue::Integer(5));
    assert_eq!(AttributeValue::try_from(0u64).unwrap(), AttributeValue::Integer(0));
    match AttributeValue::try_from(i64::MAX as u64) {
        Ok(AttributeValue::Integer(i)) => assert_eq!(i, i64::MAX),
        other => panic!("unexpected {:?}", other),
    }
}

#[test]
fn u64_above_i64_max_overflows() {
    assert!(AttributeValue::try_from(i64::MAX as u64 + 1).is_err());
    assert!(AttributeValue::try_from(u64::MAX).is_err());
}

#[test]
fn scalars_convert() {
    assert_eq!(AttributeValue::from(()), AttributeValue::Empty);
    assert_eq!(AttributeValue::from(true), AttributeValue::Boolean(true));
    assert_eq!(AttributeValue::from(200u8), AttributeValue::Integer(200));
    assert_eq!(AttributeValue::from(65535u16), AttributeValue::Integer(65535));
    assert_eq!(AttributeValue::from(u32::MAX), AttributeValue::Integer(4294967295));
    assert_eq!(AttributeValue::from(-128i8), AttributeValue::Integer(-128));
    assert_eq!(AttributeValue::from(-300i16), AttributeValue::Integer(-300));
    assert_eq!(AttributeValue::from(i32::MIN), AttributeValue::Integer(-2147483648));
    assert_eq!(AttributeValue::from(i64::MIN), AttributeValue::Integer(i64::MIN));
}

#[test]
fn debug_rendering_names_the_variant() {
    let text = format!("{:?}", AttributeValue::Integer(3));
    assert!(text.contains("Integer"));
}
