//! A dynamic value that supports clone, equality, hashing and formatting, whatever the type
//! of the value it holds.

use crate::every::{cannot_downcast, DowncastError, Every, IntoEvery, TypeKey};
use crate::vtable::{Specialise, TableKind};
use crate::{clone, debug, hash, lemma_same_value_same_key, partial_eq, vtable};
use vstd::prelude::*;

verus! {

/// The token that pairs a value of type `T` with the table of operations for `T`.
pub type Token<T> = vtable::Token<T, VTable>;

/// The operations of one type (clone, format, equality, hash), reached through the
/// identity of that type.
#[derive(Debug, Clone, Copy)]
pub struct VTable {
    key: TypeKey,
}

impl TableKind for VTable {
    closed spec fn key_served(&self) -> TypeKey {
        self.key
    }
}

impl<T: IntoEvery> Specialise<T> for VTable {
    fn specialise() -> (r: VTable) {
        VTable { key: T::type_key() }
    }
}

impl VTable {
    /// A copy of `this`, which holds a value of the type that the table serves.
    pub fn clone_value(&self, this: &Every) -> (r: Every)
        requires
            this.key_of() == self.key_served(),
        ensures
            r == *this,
    {
        match self.key {
            TypeKey::Bool => clone::<bool>(this),
            TypeKey::I32 => clone::<i32>(this),
            TypeKey::I64 => clone::<i64>(this),
            TypeKey::U32 => clone::<u32>(this),
            TypeKey::U64 => clone::<u64>(this),
            TypeKey::Str => clone::<&'static str>(this),
            TypeKey::Text => clone::<String>(this),
        }
    }

    /// The `{:?}` text of `this`, which holds a value of the type that the table serves.
    pub fn debug_value(&self, this: &Every) -> (r: String)
        requires
            this.key_of() == self.key_served(),
        ensures
            r@ == this.debug_text(),
    {
        match self.key {
            TypeKey::Bool => debug::<bool>(this),
            TypeKey::I32 => debug::<i32>(this),
            TypeKey::I64 => debug::<i64>(this),
            TypeKey::U32 => debug::<u32>(this),
            TypeKey::U64 => debug::<u64>(this),
            TypeKey::Str => debug::<&'static str>(this),
            TypeKey::Text => debug::<String>(this),
        }
    }

    /// Whether `this`, which holds a value of the type that the table serves, equals `other`.
    pub fn eq_value(&self, this: &Every, other: &Every) -> (r: bool)
        requires
            this.key_of() == self.key_served(),
        ensures
            r == this.same_value(*other),
    {
        match self.key {
            TypeKey::Bool => partial_eq::<bool>(this, other),
            TypeKey::I32 => partial_eq::<i32>(this, other),
            TypeKey::I64 => partial_eq::<i64>(this, other),
            TypeKey::U32 => partial_eq::<u32>(this, other),
            TypeKey::U64 => partial_eq::<u64>(this, other),
            TypeKey::Str => partial_eq::<&'static str>(this, other),
            TypeKey::Text => partial_eq::<String>(this, other),
        }
    }

    /// Feeds `this`, which holds a value of the type that the table serves, into `state`.
    pub fn hash_value<H: std::hash::Hasher>(&self, this: &Every, state: &mut H)
        requires
            this.key_of() == self.key_served(),
    {
        match self.key {
            TypeKey::Bool => hash::<bool, H>(this, state),
            TypeKey::I32 => hash::<i32, H>(this, state),
            TypeKey::I64 => hash::<i64, H>(this, state),
            TypeKey::U32 => hash::<u32, H>(this, state),
            TypeKey::U64 => hash::<u64, H>(this, state),
            TypeKey::Str => hash::<&'static str, H>(this, state),
            TypeKey::Text => hash::<String, H>(this, state),
        }
    }
}

/// A value of a type known only at run time, with the table of operations of that type.
pub struct CHED {
    inner: Every,
    vtable: VTable,
}

impl CHED {
    #[verifier::type_invariant]
    spec fn inv(self) -> bool {
        self.vtable.key == self.inner.key_of()
    }

    /// The value held.
    pub closed spec fn payload(self) -> Every {
        self.inner
    }

    /// The table attached.
    pub closed spec fn table(self) -> VTable {
        self.vtable
    }

    /// The table attached serves the type of the value held.
    pub open spec fn wf(self) -> bool {
        self.table().key_served() == self.payload().key_of()
    }

    /// `value`, with the table that `tok` holds for its type.
    pub fn new<T: IntoEvery>(value: T, tok: &Token<T>) -> (r: Self)
        ensures
            r.payload() == T::erase(value),
            r.table() == tok.table(),
            r.wf(),
    {
        let vtable = *tok.vtable_ref();
        CHED { inner: value.into_every(), vtable }
    }

    /// The value held. Every dynamic value satisfies `wf`: its table serves the type of its
    /// value, from construction on.
    pub fn inner(&self) -> (r: &Every)
        ensures
            *r == self.payload(),
            self.wf(),
    {
        proof {
            use_type_invariant(self);
        }
        &self.inner
    }

    /// Puts `value` in place of the value held when that is a `T` too; otherwise leaves
    /// everything as it was and returns the error naming both types. The table stays.
    pub fn set_value<T: IntoEvery>(&mut self, value: T) -> (r: Result<(), DowncastError>)
        ensures
            r is Ok <==> old(self).payload().key_of() == T::spec_key(),
            r is Ok ==> final(self).payload() == T::erase(value),
            r matches Err(e) ==> final(self).payload() == old(self).payload() && e.describes(
                old(self).payload().key_of(),
                T::spec_key(),
            ),
            final(self).table() == old(self).table(),
            final(self).payload().key_of() == old(self).payload().key_of(),
            final(self).wf(),
    {
        proof {
            use_type_invariant(&*self);
        }
        if self.inner.is::<T>() {
            self.inner = value.into_every();
            Ok(())
        } else {
            Err(cannot_downcast::<T>(&self.inner))
        }
    }

    pub fn into_inner(self) -> (r: Every)
        ensures
            r == self.payload(),
    {
        self.inner
    }

    /// The `{:?}` text of the value held, as its own type formats it.
    pub fn fmt_debug(&self) -> (r: String)
        ensures
            r@ == self.payload().debug_text(),
    {
        proof {
            use_type_invariant(self);
        }
        self.vtable.debug_value(&self.inner)
    }
}

/// A dynamic value equals itself, and equals a copy of itself made by `clone`.
pub proof fn lemma_reflexive(a: CHED, copy: CHED)
    requires
        copy.payload() == a.payload(),
    ensures
        a.payload().same_value(a.payload()),
        a.payload().same_value(copy.payload()),
        copy.payload().same_value(a.payload()),
{
}

/// Two dynamic values built from `v1` and `v2` of one type are equal exactly when `v1` and
/// `v2` are equal under the type's own equality, whatever tables they carry.
pub proof fn lemma_value_equality<T: IntoEvery>(v1: T, v2: T, a: CHED, b: CHED)
    requires
        a.payload() == T::erase(v1),
        b.payload() == T::erase(v2),
    ensures
        a.payload().same_value(b.payload()) == T::native_eq(v1, v2),
{
    T::lemma_erase(v1, v2);
}

/// Dynamic values built from values of two different types are never equal.
pub proof fn lemma_different_types_unequal<T: IntoEvery, U: IntoEvery>(v: T, w: U, a: CHED, b: CHED)
    requires
        T::spec_key() != U::spec_key(),
        a.payload() == T::erase(v),
        b.payload() == U::erase(w),
    ensures
        !a.payload().same_value(b.payload()),
{
    T::lemma_erase(v, v);
    U::lemma_erase(w, w);
    lemma_same_value_same_key(a.payload(), b.payload());
}

/// Equal dynamic values hold values of one type with equal `hash_input`: the same integer or
/// `bool`, or strings with the same characters.
pub proof fn lemma_equal_values_hash_alike(a: CHED, b: CHED)
    requires
        a.payload().same_value(b.payload()),
    ensures
        a.payload().key_of() == b.payload().key_of(),
        a.payload().hash_input() == b.payload().hash_input(),
{
    lemma_same_value_same_key(a.payload(), b.payload());
}

impl Clone for CHED {
    /// A deep copy of the value held, with the same table.
    fn clone(&self) -> (r: Self)
        ensures
            r.payload() == self.payload(),
            r.table() == self.table(),
    {
        proof {
            use_type_invariant(self);
        }
        CHED { inner: self.vtable.clone_value(&self.inner), vtable: self.vtable }
    }
}

impl PartialEq for CHED {
    fn eq(&self, other: &CHED) -> (r: bool)
        ensures
            r == self.payload().same_value(other.payload()),
    {
        proof {
            use_type_invariant(self);
        }
        self.vtable.eq_value(&self.inner, &other.inner)
    }
}

impl vstd::std_specs::cmp::PartialEqSpecImpl for CHED {
    open spec fn obeys_eq_spec() -> bool {
        true
    }

    open spec fn eq_spec(&self, other: &CHED) -> bool {
        self.payload().same_value(other.payload())
    }
}

impl Eq for CHED {

}

impl std::hash::Hash for CHED {
    fn hash<H: std::hash::Hasher>(&self, state: &mut H) {
        proof {
            use_type_invariant(self);
        }
        self.vtable.hash_value(&self.inner, state)
    }
}

} // verus!
