//! Tables of operations, specialised for one type each, and the registry that builds each
//! table once and hands it out from then on.

use crate::every::{IntoEvery, TypeKey};
use std::collections::HashMap;
use std::marker::PhantomData;
use vstd::prelude::*;
use vstd::std_specs::hash::group_hash_axioms;

verus! {

/// A kind of table of operations; each table serves the values of one type.
pub trait TableKind: Sized + Copy {
    /// The identity of the type whose values this table serves.
    spec fn key_served(&self) -> TypeKey;
}

/// Builds a table of this kind for `T`.
pub trait Specialise<T: IntoEvery>: TableKind {
    fn specialise() -> (r: Self)
        ensures
            r.key_served() == T::spec_key(),
    ;
}

/// Each table is held under the code of the type that it serves.
pub open spec fn entries_wf<V: TableKind>(m: Map<u64, V>) -> bool {
    forall|c: u64| #[trigger] m.contains_key(c) ==> m[c].key_served().spec_code() == c
}

/// One resolution of `key`: the table already held under `key` with the entries unchanged,
/// or else a new table added under `key`.
pub open spec fn resolved<V>(before: Map<u64, V>, after: Map<u64, V>, key: TypeKey, table: V) -> bool {
    if before.contains_key(key.spec_code()) {
        &&& after == before
        &&& before[key.spec_code()] == table
    } else {
        after == before.insert(key.spec_code(), table)
    }
}

/// Resolving one key twice gives the same table both times, and the second resolution
/// leaves the entries as the first left them.
pub proof fn lemma_resolve_idempotent<V>(
    s0: Map<u64, V>,
    s1: Map<u64, V>,
    s2: Map<u64, V>,
    key: TypeKey,
    t1: V,
    t2: V,
)
    requires
        resolved(s0, s1, key, t1),
        resolved(s1, s2, key, t2),
    ensures
        t2 == t1,
        s2 == s1,
{
    assert(s1.contains_key(key.spec_code()) && s1[key.spec_code()] == t1);
}

/// The tables of one kind built so far, at most one for each type.
pub struct Registry<V: TableKind> {
    entries: HashMap<u64, V>,
}

impl<V: TableKind> View for Registry<V> {
    type V = Map<u64, V>;

    closed spec fn view(&self) -> Map<u64, V> {
        self.entries@
    }
}

impl<V: TableKind> Registry<V> {
    #[verifier::type_invariant]
    spec fn inv(&self) -> bool {
        entries_wf(self.entries@)
    }

    /// An empty registry.
    pub fn new() -> (r: Self)
        ensures
            r@ == Map::<u64, V>::empty(),
    {
        Registry { entries: HashMap::new() }
    }

    /// The table built for `T`, if there is one.
    pub fn try_get<T: IntoEvery>(&self) -> (r: Option<V>)
        ensures
            entries_wf(self@),
            r is Some <==> self@.contains_key(T::spec_key().spec_code()),
            r matches Some(t) ==> self@[T::spec_key().spec_code()] == t,
    {
        proof {
            use_type_invariant(self);
        }
        broadcast use group_hash_axioms;

        match self.entries.get(&T::type_key().code()) {
            Some(t) => Some(*t),
            None => None,
        }
    }

    /// The table for `T`: the one built before, or else a new one, which is kept from then on.
    pub fn get_or_create<T: IntoEvery>(&mut self) -> (r: V) where V: Specialise<T>
        ensures
            entries_wf(old(self)@),
            entries_wf(final(self)@),
            resolved(old(self)@, final(self)@, T::spec_key(), r),
            r.key_served() == T::spec_key(),
    {
        proof {
            use_type_invariant(&*self);
        }
        broadcast use group_hash_axioms;

        let code = T::type_key().code();
        match self.entries.get(&code) {
            Some(t) => *t,
            None => {
                let table = V::specialise();
                let mut taken = Registry::new();
                std::mem::swap(self, &mut taken);
                let Registry { mut entries } = taken;
                entries.insert(code, table);
                *self = Registry { entries };
                table
            },
        }
    }
}

/// A table of kind `V` that serves `T`, obtained from a registry: the one way to pair a value
/// with a table.
pub struct Token<T: IntoEvery, V: TableKind> {
    table: V,
    marker: PhantomData<T>,
}

impl<T: IntoEvery, V: TableKind> Token<T, V> {
    #[verifier::type_invariant]
    spec fn inv(&self) -> bool {
        self.table.key_served() == T::spec_key()
    }

    pub closed spec fn table(&self) -> V {
        self.table
    }

    pub fn vtable_ref(&self) -> (r: &V)
        ensures
            *r == self.table(),
            r.key_served() == T::spec_key(),
    {
        proof {
            use_type_invariant(self);
        }
        &self.table
    }

    fn create_unchecked(table: V) -> (r: Self)
        requires
            table.key_served() == T::spec_key(),
        ensures
            r.table() == table,
    {
        Token { table, marker: PhantomData }
    }

    /// The token for `T`, from the registry's table for `T`, which is built if there is none.
    pub fn resolve(registry: &mut Registry<V>) -> (r: Self) where V: Specialise<T>
        ensures
            entries_wf(old(registry)@),
            entries_wf(final(registry)@),
            resolved(old(registry)@, final(registry)@, T::spec_key(), r.table()),
            r.table().key_served() == T::spec_key(),
    {
        let table = registry.get_or_create::<T>();
        Self::create_unchecked(table)
    }
}

} // verus!
