use vtable::ched::{Token, VTable};
use vtable::vtable::Registry;

#[test]
fn singleton_registry() {
    let mut registry: Registry<VTable> = Registry::new();
    {
        assert!(registry.try_get::<bool>().is_none());
        let _ = registry.get_or_create::<bool>();
        assert!(registry.try_get::<bool>().is_some());
    }
    {
        assert!(registry.try_get::<bool>().is_some());
    }
}

#[test]
fn one_table_per_type() {
    let mut registry: Registry<VTable> = Registry::new();
    let _ = registry.get_or_create::<i32>();
    let _ = registry.get_or_create::<i32>();
    let _ = Token::<i32>::resolve(&mut registry);
    assert!(registry.try_get::<i32>().is_some());
    assert!(registry.try_get::<u32>().is_none());
    let _ = Token::<u32>::resolve(&mut registry);
    assert!(registry.try_get::<u32>().is_some());
    assert!(registry.try_get::<String>().is_none());
}
