use std::collections::HashMap;
use vtable::ched::{Token, VTable, CHED};
use vtable::vtable::Registry;

fn token<T: vtable::every::IntoEvery>(registry: &mut Registry<VTable>) -> Token<T>
where
    VTable: vtable::vtable::Specialise<T>,
{
    Token::resolve(registry)
}

#[test]
fn self_is_equal() {
    let mut registry = Registry::new();
    let obj = CHED::new(42, &token(&mut registry));
    assert!(obj == obj);
}

#[test]
fn same_value_equal() {
    let mut registry = Registry::new();
    let vtable_tok_i32 = token(&mut registry);
    let obj_1 = CHED::new(42, &vtable_tok_i32);
    let obj_2 = CHED::new(42, &vtable_tok_i32);
    assert!(obj_1 == obj_2);
}

#[test]
fn cloned_value_equal() {
    let mut registry = Registry::new();
    let obj_1 = CHED::new(42, &token(&mut registry));
    let obj_2 = obj_1.clone();
    assert!(obj_1 == obj_2);
}

#[test]
fn different_values_not_equal() {
    let mut registry = Registry::new();
    let vtable_tok_i32 = token(&mut registry);

    let obj_1 = CHED::new(42, &vtable_tok_i32);
    let obj_2 = CHED::new(43, &vtable_tok_i32);
    assert!(obj_1 != obj_2);
}

#[test]
fn different_types_not_equal() {
    let mut registry = Registry::new();
    let obj_1 = CHED::new(42, &token(&mut registry));
    let obj_2 = CHED::new("foo", &token(&mut registry));
    assert!(obj_1 != obj_2);
}

#[test]
fn test_debug() {
    let mut registry = Registry::new();
    let obj = CHED::new(42, &token(&mut registry));
    let debug = obj.fmt_debug();
    assert_eq!("42", debug);
}

#[test]
fn test_hash() {
    let mut registry = Registry::new();
    let vtable_tok_i32 = token(&mut registry);
    let vtable_tok_str_slice = token(&mut registry);

    let mut map = HashMap::new();
    assert!(map.insert(CHED::new(42, &vtable_tok_i32), ()).is_none());
    assert!(map.insert(CHED::new(43, &vtable_tok_i32), ()).is_none());
    assert!(map
        .insert(CHED::new("foo", &vtable_tok_str_slice), ())
        .is_none());

    assert!(map.insert(CHED::new(42, &vtable_tok_i32), ()).is_some());
    assert!(map.insert(CHED::new(43, &vtable_tok_i32), ()).is_some());
    assert!(map
        .insert(CHED::new("foo", &vtable_tok_str_slice), ())
        .is_some());
}

#[test]
fn downcast_ref() {
    let mut registry = Registry::new();
    let obj = CHED::new(42i32, &token(&mut registry));
    assert_eq!(
        &42i32,
        obj.inner()
            .downcast_ref::<i32>()
            .unwrap_or_else(|e| panic!("{}", e.message()))
    );
}

#[test]
fn downcast_mut() {
    let mut registry = Registry::new();
    let mut obj_1 = CHED::new(42i32, &token(&mut registry));
    let obj_2 = obj_1.clone();
    obj_1.set_value(13i32).unwrap();
    assert_eq!(
        &13i32,
        obj_1
            .inner()
            .downcast_ref::<i32>()
            .unwrap_or_else(|e| panic!("{}", e.message()))
    );
    assert_eq!(
        &42i32,
        obj_2
            .inner()
            .downcast_ref::<i32>()
            .unwrap_or_else(|e| panic!("{}", e.message()))
    );
}

#[test]
fn downcast() {
    let mut registry = Registry::new();
    let obj = CHED::new(42i32, &token(&mut registry));
    assert_eq!(42i32, obj.into_inner().downcast::<i32>().unwrap());
}

#[test]
#[should_panic(expected = "cannot downcast i32 into u32")]
fn downcast_ref_with_wrong_type() {
    let mut registry = Registry::new();
    let obj = CHED::new(42i32, &token(&mut registry));
    let _: &u32 = obj
        .inner()
        .downcast_ref()
        .unwrap_or_else(|e| panic!("{}", e.message()));
}

#[test]
#[should_panic(expected = "cannot downcast i32 into u32")]
fn downcast_with_wrong_type() {
    let mut registry = Registry::new();
    let obj = CHED::new(42i32, &token(&mut registry));
    let _: u32 = obj
        .into_inner()
        .downcast()
        .unwrap_or_else(|e| panic!("{}", e.message()));
}

#[test]
fn equality_follows_native_equality_of_strings() {
    let mut registry = Registry::new();
    let tok = token::<String>(&mut registry);
    let a = CHED::new(String::from("foo"), &tok);
    let b = CHED::new(String::from("foo"), &tok);
    let c = CHED::new(String::from("bar"), &tok);
    assert!(a == b);
    assert!(a != c);
    let d = CHED::new("bar", &token(&mut registry));
    let e = CHED::new("baz", &token(&mut registry));
    assert!(d != e);
    assert!(c != d);
}

#[test]
fn equality_survives_registry_reuse() {
    let mut registry = Registry::new();
    let first = token::<u64>(&mut registry);
    let second = token::<u64>(&mut registry);
    assert!(CHED::new(7u64, &first) == CHED::new(7u64, &second));
    assert!(CHED::new(7u64, &first) != CHED::new(8u64, &second));
}

#[test]
fn cross_type_same_digits_not_equal() {
    let mut registry = Registry::new();
    let a = CHED::new(42i32, &token(&mut registry));
    let b = CHED::new(42u32, &token(&mut registry));
    let c = CHED::new(42i64, &token(&mut registry));
    let d = CHED::new("42", &token(&mut registry));
    let e = CHED::new(String::from("42"), &token(&mut registry));
    assert!(a != b);
    assert!(a != c);
    assert!(b != c);
    assert!(d != e);
    assert!(a != d);
}

#[test]
fn debug_texts() {
    let mut registry = Registry::new();
    assert_eq!("-7", CHED::new(-7i32, &token(&mut registry)).fmt_debug());
    assert_eq!(
        "18446744073709551615",
        CHED::new(u64::MAX, &token(&mut registry)).fmt_debug()
    );
    assert_eq!(
        "-9223372036854775808",
        CHED::new(i64::MIN, &token(&mut registry)).fmt_debug()
    );
    assert_eq!("0", CHED::new(0u32, &token(&mut registry)).fmt_debug());
    assert_eq!("true", CHED::new(true, &token(&mut registry)).fmt_debug());
    assert_eq!("false", CHED::new(false, &token(&mut registry)).fmt_debug());
    assert_eq!("\"foo\"", CHED::new("foo", &token(&mut registry)).fmt_debug());
    assert_eq!(
        "\"a\\\"b\"",
        CHED::new(String::from("a\"b"), &token(&mut registry)).fmt_debug()
    );
}

#[test]
fn hash_map_keys_of_strings_and_bools() {
    let mut registry = Registry::new();
    let text = token::<String>(&mut registry);
    let flag = token::<bool>(&mut registry);
    let mut map = HashMap::new();
    assert!(map.insert(CHED::new(String::from("foo"), &text), 1).is_none());
    assert!(map.insert(CHED::new(true, &flag), 2).is_none());
    assert!(map.insert(CHED::new(false, &flag), 3).is_none());
    assert_eq!(Some(1), map.insert(CHED::new(String::from("foo"), &text), 4));
    assert_eq!(Some(&4), map.get(&CHED::new(String::from("foo"), &text)));
    assert_eq!(3, map.len());
}

#[test]
fn clone_is_independent_of_later_changes() {
    let mut registry = Registry::new();
    let mut original = CHED::new(String::from("foo"), &token(&mut registry));
    let copy = original.clone();
    original.set_value(String::from("foobar")).unwrap();
    assert_eq!(
        "foobar",
        original.inner().downcast_ref::<String>().unwrap().as_str()
    );
    assert_eq!("foo", copy.inner().downcast_ref::<String>().unwrap().as_str());
    assert!(original != copy);
}

#[test]
fn set_value_of_another_type_is_refused() {
    let mut registry = Registry::new();
    let mut obj = CHED::new(42i32, &token(&mut registry));
    let err = obj.set_value("foo").unwrap_err();
    assert_eq!("cannot downcast i32 into &str", err.message());
    assert!(obj.inner().is::<i32>());
    assert!(obj == CHED::new(42i32, &token(&mut registry)));
    assert_eq!("42", obj.clone().fmt_debug());
}
