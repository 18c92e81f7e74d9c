use vtable::every::{DowncastError, Every, IntoEvery, TypeKey};

fn send_and_sync<T: Send + Sync>(value: T) -> T {
    value
}

#[test]
fn is() {
    let val = 42i32.into_every();
    assert!(val.is::<i32>());
    assert!(!val.is::<&str>());
}

#[test]
fn downcast_ref_ok() {
    let val = 42i32.into_every();
    assert_eq!(Ok(&42i32), val.downcast_ref());
}

#[test]
fn downcast_ref_error() {
    let val = 42i32.into_every();
    assert_eq!(
        Err(DowncastError {
            source_type_id: TypeKey::I32,
            source_type_name: "i32",
            target_type_id: TypeKey::Str,
            target_type_name: "&str",
        }),
        val.downcast_ref::<&str>()
    );
}

#[test]
fn downcast_mut_ok() {
    let mut val = 42i32.into_every();
    *val.downcast_mut().unwrap() = 13;
    assert_eq!(Ok(&13i32), val.downcast_ref());
}

#[test]
fn downcast_mut_error() {
    let mut val = 42i32.into_every();
    assert_eq!(
        Err(DowncastError {
            source_type_id: TypeKey::I32,
            source_type_name: "i32",
            target_type_id: TypeKey::Str,
            target_type_name: "&str",
        }),
        val.downcast_mut::<&str>()
    );
    assert_eq!(Ok(&42i32), val.downcast_ref());
}

#[test]
fn downcast_ok() {
    let val = 42i32.into_every();
    assert_eq!(Ok(42i32), val.downcast());
}

#[test]
fn downcast_error() {
    let val = 42i32.into_every();
    assert_eq!(
        Err(DowncastError {
            source_type_id: TypeKey::I32,
            source_type_name: "i32",
            target_type_id: TypeKey::Str,
            target_type_name: "&str",
        }),
        val.downcast::<&str>()
    );
}

#[test]
fn downcast_with_panic() {
    let val = 42i32.into_every();
    let err = val.downcast_ref::<&str>().unwrap_err();
    assert_eq!("cannot downcast i32 into &str", err.message());
}

#[test]
fn dyn_any_send_requirement() {
    let mut owned = send_and_sync(42i32.into_every());
    let val: &mut Every = &mut owned;
    assert_eq!(Ok(&42i32), val.downcast_ref());
    *val.downcast_mut().unwrap() = 13;
    assert_eq!(Ok(&13i32), val.downcast_ref());
}

#[test]
fn dyn_any_send_sync_requirement() {
    let mut owned = send_and_sync(Every::I32(42));
    let val: &mut Every = &mut owned;
    assert_eq!(Ok(&42i32), val.downcast_ref());
    *val.downcast_mut().unwrap() = 13;
    assert_eq!(Ok(&13i32), val.downcast_ref());
}

#[test]
fn box_dyn_any_send_requirement() {
    let val = send_and_sync(Box::new(42i32.into_every()));
    assert_eq!(Ok(42i32), val.downcast());
}

#[test]
fn box_dyn_any_send_sync_requirement() {
    let val = send_and_sync(Box::new(Every::I32(42)));
    assert_eq!(Ok(42i32), val.downcast());
}

#[test]
fn downcast_message_names_both_types() {
    let val = 42i32.into_every();
    let err = val.downcast::<u32>().unwrap_err();
    assert_eq!("cannot downcast i32 into u32", err.message());
    let text = String::from("x").into_every();
    let err = text.downcast_ref::<u64>().unwrap_err();
    assert_eq!("cannot downcast alloc::string::String into u64", err.message());
}

#[test]
fn round_trip_of_every_kind() {
    assert_eq!(Ok(true), true.into_every().downcast::<bool>());
    assert_eq!(Ok(-5i64), (-5i64).into_every().downcast::<i64>());
    assert_eq!(Ok(u32::MAX), u32::MAX.into_every().downcast::<u32>());
    assert_eq!(Ok(9u64), 9u64.into_every().downcast::<u64>());
    assert_eq!(Ok("foo"), "foo".into_every().downcast::<&str>());
    assert_eq!(
        Ok(String::from("foo")),
        String::from("foo").into_every().downcast::<String>()
    );
    assert!(String::from("foo").into_every().downcast::<&str>().is_err());
    assert!(!"foo".into_every().is::<String>());
}

#[test]
fn type_keys_and_names() {
    assert_eq!(TypeKey::Bool, bool::type_key());
    assert_eq!(TypeKey::U64, 3u64.into_every().type_key());
    assert_eq!("&str", TypeKey::Str.name());
    assert_eq!("i64", TypeKey::I64.name());
}
