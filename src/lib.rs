//! Values of a type known only at run time that still compare, hash, clone and format,
//! through a table of operations chosen for their type. The types that can be held are
//! `bool`, `i32`, `i64`, `u32`, `u64`, `&'static str` and `String`.

pub mod ched;
pub mod every;
pub mod kinds;
pub mod vtable;

use crate::every::{Every, IntoEvery};
use vstd::prelude::*;

verus! {

/// Erased values are equal only when they hold values of one type.
pub proof fn lemma_same_value_same_key(a: Every, b: Every)
    ensures
        a.same_value(b) ==> a.key_of() == b.key_of(),
{
}

/// The equality entry of a table for `T`: `this` holds a `T`; the result is false when
/// `other` holds another type, and `T`'s own equality otherwise.
pub fn partial_eq<T: IntoEvery>(this: &Every, other: &Every) -> (r: bool)
    requires
        this.key_of() == T::spec_key(),
    ensures
        r == this.same_value(*other),
{
    let lhs = T::from_ref(this).unwrap();
    match T::from_ref(other) {
        Some(rhs) => {
            proof {
                T::lemma_erase(*lhs, *rhs);
            }
            lhs.eq_native(rhs)
        },
        None => {
            proof {
                lemma_same_value_same_key(*this, *other);
            }
            false
        },
    }
}

/// The formatting entry of a table for `T`: the text of `this`, which holds a `T`, as `T`
/// formats it with `{:?}`.
pub fn debug<T: IntoEvery>(this: &Every) -> (r: String)
    requires
        this.key_of() == T::spec_key(),
    ensures
        r@ == this.debug_text(),
{
    let value = T::from_ref(this).unwrap();
    value.debug_native()
}

/// The clone entry of a table for `T`: a new erased value equal to `this`, which holds a `T`.
pub fn clone<T: IntoEvery>(this: &Every) -> (r: Every)
    requires
        this.key_of() == T::spec_key(),
    ensures
        r == *this,
{
    let value = T::from_ref(this).unwrap();
    value.clone_native().into_every()
}

/// The hash entry of a table for `T`: feeds `this`, which holds a `T`, into `state` as
/// `T`'s own `Hash` impl does.
pub fn hash<T: IntoEvery, H: std::hash::Hasher>(this: &Every, state: &mut H)
    requires
        this.key_of() == T::spec_key(),
{
    let value = T::from_ref(this).unwrap();
    value.hash_native(state)
}

} // verus!
