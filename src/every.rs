//! Erased values: a value whose concrete type is known only at run time, together with
//! checked ways to get the concrete value back.

use vstd::prelude::*;
use vstd::string::*;

verus! {

/// The run-time identity of each type that an [`Every`] can hold: `bool`, `i32`, `i64`,
/// `u32`, `u64`, `&'static str` and `String`.
#[derive(Debug, Clone, Copy, PartialEq, Eq, Hash, Structural)]
pub enum TypeKey {
    Bool,
    I32,
    I64,
    U32,
    U64,
    Str,
    Text,
}

impl TypeKey {
    /// The diagnostic name of the type with this identity.
    pub open spec fn spec_name(self) -> Seq<char> {
        match self {
            TypeKey::Bool => "bool"@,
            TypeKey::I32 => "i32"@,
            TypeKey::I64 => "i64"@,
            TypeKey::U32 => "u32"@,
            TypeKey::U64 => "u64"@,
            TypeKey::Str => "&str"@,
            TypeKey::Text => "alloc::string::String"@,
        }
    }

    /// The number that stands for this identity as a map key; distinct identities have
    /// distinct codes.
    pub open spec fn spec_code(self) -> u64 {
        match self {
            TypeKey::Bool => 0,
            TypeKey::I32 => 1,
            TypeKey::I64 => 2,
            TypeKey::U32 => 3,
            TypeKey::U64 => 4,
            TypeKey::Str => 5,
            TypeKey::Text => 6,
        }
    }

    pub fn code(&self) -> (r: u64)
        ensures
            r == self.spec_code(),
    {
        match self {
            TypeKey::Bool => 0,
            TypeKey::I32 => 1,
            TypeKey::I64 => 2,
            TypeKey::U32 => 3,
            TypeKey::U64 => 4,
            TypeKey::Str => 5,
            TypeKey::Text => 6,
        }
    }

    pub fn name(&self) -> (r: &'static str)
        ensures
            r@ == self.spec_name(),
    {
        match self {
            TypeKey::Bool => "bool",
            TypeKey::I32 => "i32",
            TypeKey::I64 => "i64",
            TypeKey::U32 => "u32",
            TypeKey::U64 => "u64",
            TypeKey::Str => "&str",
            TypeKey::Text => "alloc::string::String",
        }
    }
}

/// An owned value of a type that is known only at run time: one of `bool`, `i32`, `i64`,
/// `u32`, `u64`, `&'static str` and `String`.
#[derive(Debug)]
pub enum Every {
    Bool(bool),
    I32(i32),
    I64(i64),
    U32(u32),
    U64(u64),
    Str(&'static str),
    Text(String),
}

/// The text of an integer in decimal, with a leading `-` when it is negative.
pub open spec fn decimal(n: int) -> Seq<char>
    decreases (if n < 0 { -n + 1 } else { n }),
{
    if n < 0 {
        seq!['-'] + decimal(-n)
    } else if n < 10 {
        seq![digit_char(n)]
    } else {
        decimal(n / 10).push(digit_char(n % 10))
    }
}

pub open spec fn digit_char(d: int) -> char {
    "0123456789"@[d]
}

/// What `{:?}` prints for a string slice with these characters (quoted and escaped).
pub uninterp spec fn str_debug_text(s: Seq<char>) -> Seq<char>;

fn digit_str(d: u64) -> (r: &'static str)
    requires
        d < 10,
    ensures
        r@ == seq![digit_char(d as int)],
{
    proof {
        reveal_strlit("0123456789");
        reveal_strlit("0");
        reveal_strlit("1");
        reveal_strlit("2");
        reveal_strlit("3");
        reveal_strlit("4");
        reveal_strlit("5");
        reveal_strlit("6");
        reveal_strlit("7");
        reveal_strlit("8");
        reveal_strlit("9");
    }
    if d == 0 {
        "0"
    } else if d == 1 {
        "1"
    } else if d == 2 {
        "2"
    } else if d == 3 {
        "3"
    } else if d == 4 {
        "4"
    } else if d == 5 {
        "5"
    } else if d == 6 {
        "6"
    } else if d == 7 {
        "7"
    } else if d == 8 {
        "8"
    } else {
        "9"
    }
}

fn digits_string(n: u64) -> (r: String)
    ensures
        r@ == decimal(n as int),
    decreases n,
{
    if n < 10 {
        String::from_str(digit_str(n))
    } else {
        let r = digits_string(n / 10).concat(digit_str(n % 10));
        assert(r@ == decimal(n as int / 10).push(digit_char(n as int % 10)));
        r
    }
}

/// The decimal text of `v`, as the `Debug` impls of the integer types print it: a `-` when
/// it is negative, then its digits.
pub(crate) fn decimal_string(v: i128) -> (r: String)
    requires
        i64::MIN <= v <= u64::MAX,
    ensures
        r@ == decimal(v as int),
{
    if v < 0 {
        proof {
            reveal_strlit("-");
        }
        let magnitude = digits_string((-v) as u64);
        let r = String::from_str("-").concat(magnitude.as_str());
        r
    } else {
        digits_string(v as u64)
    }
}

/// Relies on the `Debug` impl of `str`: the text depends on the characters alone.
#[verifier::external_body]
pub(crate) fn str_debug_string(s: &str) -> (r: String)
    ensures
        r@ == str_debug_text(s@),
{
    format!("{:?}", s)
}

/// Relies on `<str as PartialEq>::eq`: two slices are equal when they hold the same characters.
#[verifier::external_body]
pub(crate) fn str_eq(a: &str, b: &str) -> (r: bool)
    ensures
        r == (a@ == b@),
{
    a == b
}

/// Relies on `Hash::hash`: feeds `x` into `state` as `x`'s own `Hash` impl does.
#[verifier::external_body]
pub(crate) fn feed_hash<X: std::hash::Hash + ?Sized, H: std::hash::Hasher>(x: &X, state: &mut H) {
    x.hash(state)
}

impl Every {
    /// The run-time identity of the held value's type.
    pub open spec fn key_of(self) -> TypeKey {
        match self {
            Every::Bool(_) => TypeKey::Bool,
            Every::I32(_) => TypeKey::I32,
            Every::I64(_) => TypeKey::I64,
            Every::U32(_) => TypeKey::U32,
            Every::U64(_) => TypeKey::U64,
            Every::Str(_) => TypeKey::Str,
            Every::Text(_) => TypeKey::Text,
        }
    }

    /// Equality of the held values: false when their types differ, otherwise the native
    /// equality of the type (strings compare by their characters).
    pub open spec fn same_value(self, other: Every) -> bool {
        match (self, other) {
            (Every::Bool(a), Every::Bool(b)) => a == b,
            (Every::I32(a), Every::I32(b)) => a == b,
            (Every::I64(a), Every::I64(b)) => a == b,
            (Every::U32(a), Every::U32(b)) => a == b,
            (Every::U64(a), Every::U64(b)) => a == b,
            (Every::Str(a), Every::Str(b)) => a@ == b@,
            (Every::Text(a), Every::Text(b)) => a@ == b@,
            _ => false,
        }
    }

    /// The held value's type, with its integer value (a `bool` as 0 or 1) or its string's
    /// characters.
    pub open spec fn hash_input(self) -> (TypeKey, int, Seq<char>) {
        match self {
            Every::Bool(b) => (TypeKey::Bool, if b { 1int } else { 0int }, Seq::empty()),
            Every::I32(v) => (TypeKey::I32, v as int, Seq::empty()),
            Every::I64(v) => (TypeKey::I64, v as int, Seq::empty()),
            Every::U32(v) => (TypeKey::U32, v as int, Seq::empty()),
            Every::U64(v) => (TypeKey::U64, v as int, Seq::empty()),
            Every::Str(s) => (TypeKey::Str, 0int, s@),
            Every::Text(s) => (TypeKey::Text, 0int, s@),
        }
    }

    /// The text that `{:?}` gives for the held value.
    pub open spec fn debug_text(self) -> Seq<char> {
        match self {
            Every::Bool(b) => if b { "true"@ } else { "false"@ },
            Every::I32(v) => decimal(v as int),
            Every::I64(v) => decimal(v as int),
            Every::U32(v) => decimal(v as int),
            Every::U64(v) => decimal(v as int),
            Every::Str(s) => str_debug_text(s@),
            Every::Text(s) => str_debug_text(s@),
        }
    }

    pub fn type_key(&self) -> (r: TypeKey)
        ensures
            r == self.key_of(),
    {
        match self {
            Every::Bool(_) => TypeKey::Bool,
            Every::I32(_) => TypeKey::I32,
            Every::I64(_) => TypeKey::I64,
            Every::U32(_) => TypeKey::U32,
            Every::U64(_) => TypeKey::U64,
            Every::Str(_) => TypeKey::Str,
            Every::Text(_) => TypeKey::Text,
        }
    }

    /// Whether the held value is a `T`.
    pub fn is<T: IntoEvery>(&self) -> (r: bool)
        ensures
            r == (self.key_of() == T::spec_key()),
    {
        self.type_key() == T::type_key()
    }

    /// The held value as a `&T`, or an error naming both types when it is not a `T`.
    pub fn downcast_ref<T: IntoEvery>(&self) -> (r: Result<&T, DowncastError>)
        ensures
            r is Ok <==> self.key_of() == T::spec_key(),
            r matches Ok(x) ==> T::erase(*x) == *self,
            r matches Err(e) ==> e.describes(self.key_of(), T::spec_key()),
    {
        match T::from_ref(self) {
            Some(x) => Ok(x),
            None => Err(cannot_downcast::<T>(self)),
        }
    }

    /// The held value as a `&mut T`, or an error naming both types when it is not a `T`.
    /// On success the erased value afterwards holds what was written through the reference.
    pub fn downcast_mut<T: IntoEvery>(&mut self) -> (r: Result<&mut T, DowncastError>)
        ensures
            r is Ok <==> old(self).key_of() == T::spec_key(),
            r matches Ok(x) ==> T::erase(*x) == *old(self) && *final(self) == T::erase(*final(x)),
            r matches Err(e) ==> *final(self) == *old(self) && e.describes(
                old(self).key_of(),
                T::spec_key(),
            ),
    {
        let err = cannot_downcast::<T>(self);
        match T::from_mut(self) {
            Some(x) => Ok(x),
            None => Err(err),
        }
    }

    /// The held value as an owned `T`, or an error naming both types when it is not a `T`.
    pub fn downcast<T: IntoEvery>(self) -> (r: Result<T, DowncastError>)
        ensures
            downcast_outcome(self, r),
    {
        match T::from_every(self) {
            Ok(x) => Ok(x),
            Err(back) => Err(cannot_downcast::<T>(&back)),
        }
    }
}

/// What a checked downcast of `e` to `T` gives: the value held when it is a `T`, otherwise
/// the error naming both types.
pub open spec fn downcast_outcome<T: IntoEvery>(e: Every, r: Result<T, DowncastError>) -> bool {
    &&& r is Ok <==> e.key_of() == T::spec_key()
    &&& r matches Ok(x) ==> T::erase(x) == e
    &&& r matches Err(err) ==> err.describes(e.key_of(), T::spec_key())
}

/// Downcasting an erased `v` to its own type gives `v` back unchanged; downcasting it to any
/// other type fails with the error that names both types.
pub proof fn lemma_downcast_round_trip<T: IntoEvery, U: IntoEvery>(
    v: T,
    r: Result<T, DowncastError>,
    q: Result<U, DowncastError>,
)
    requires
        downcast_outcome(T::erase(v), r),
        downcast_outcome(T::erase(v), q),
    ensures
        r == Ok::<T, DowncastError>(v),
        U::spec_key() != T::spec_key() ==> (q matches Err(err) && err.describes(
            T::spec_key(),
            U::spec_key(),
        )),
{
    T::lemma_erase(v, v);
    if let Ok(x) = r {
        T::lemma_erase(x, v);
    }
}

/// A type whose values an [`Every`] can hold, with the checked conversions between the two
/// and the type's native clone, equality, formatting and hashing.
pub trait IntoEvery: Sized {
    /// The run-time identity of the type.
    spec fn spec_key() -> TypeKey;

    /// The erased form of a value.
    spec fn erase(v: Self) -> Every;

    /// The type's native equality.
    spec fn native_eq(a: Self, b: Self) -> bool;

    proof fn lemma_erase(a: Self, b: Self)
        ensures
            Self::erase(a).key_of() == Self::spec_key(),
            Self::erase(a) == Self::erase(b) ==> a == b,
            Self::erase(a).same_value(Self::erase(b)) == Self::native_eq(a, b),
    ;

    fn type_key() -> (r: TypeKey)
        ensures
            r == Self::spec_key(),
    ;

    fn into_every(self) -> (r: Every)
        ensures
            r == Self::erase(self),
            r.key_of() == Self::spec_key(),
    ;

    fn from_ref(e: &Every) -> (r: Option<&Self>)
        ensures
            r is Some <==> e.key_of() == Self::spec_key(),
            r matches Some(x) ==> Self::erase(*x) == *e,
    ;

    fn from_mut(e: &mut Every) -> (r: Option<&mut Self>)
        ensures
            r is Some <==> old(e).key_of() == Self::spec_key(),
            r matches Some(x) ==> Self::erase(*x) == *old(e) && *final(e) == Self::erase(*final(x)),
            r is None ==> *final(e) == *old(e),
    ;

    fn from_every(e: Every) -> (r: Result<Self, Every>)
        ensures
            r is Ok <==> e.key_of() == Self::spec_key(),
            r matches Ok(x) ==> Self::erase(x) == e,
            r matches Err(back) ==> back == e,
    ;

    fn eq_native(&self, other: &Self) -> (r: bool)
        ensures
            r == Self::native_eq(*self, *other),
    ;

    fn clone_native(&self) -> (r: Self)
        ensures
            r == *self,
    ;

    fn debug_native(&self) -> (r: String)
        ensures
            r@ == Self::erase(*self).debug_text(),
    ;

    fn hash_native<H: std::hash::Hasher>(&self, state: &mut H);
}

/// The failure of a checked downcast: the identity and name of the type held and of the
/// type asked for.
#[derive(Debug, PartialEq, Eq)]
pub struct DowncastError {
    pub source_type_id: TypeKey,
    pub source_type_name: &'static str,
    pub target_type_id: TypeKey,
    pub target_type_name: &'static str,
}

impl DowncastError {
    /// This error is the one for a value of type `source` asked for as `target`.
    pub open spec fn describes(self, source: TypeKey, target: TypeKey) -> bool {
        &&& self.source_type_id == source
        &&& self.source_type_name@ == source.spec_name()
        &&& self.target_type_id == target
        &&& self.target_type_name@ == target.spec_name()
    }

    /// The message `cannot downcast {source} into {target}`.
    pub fn message(&self) -> (r: String)
        ensures
            r@ == "cannot downcast "@ + self.source_type_name@ + " into "@
                + self.target_type_name@,
    {
        let s = String::from_str("cannot downcast ");
        let s = s.concat(self.source_type_name);
        let s = s.concat(" into ");
        s.concat(self.target_type_name)
    }
}

/// The error for `source` asked for as a `T`.
pub fn cannot_downcast<T: IntoEvery>(source: &Every) -> (r: DowncastError)
    ensures
        r.describes(source.key_of(), T::spec_key()),
{
    let source_type_id = source.type_key();
    let target_type_id = T::type_key();
    DowncastError {
        source_type_id,
        source_type_name: source_type_id.name(),
        target_type_id,
        target_type_name: target_type_id.name(),
    }
}

} // verus!
