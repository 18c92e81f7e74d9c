//! The types that an erased value can hold.

use crate::every::{decimal_string, feed_hash, str_debug_string, str_eq, Every, IntoEvery, TypeKey};
use vstd::prelude::*;
use vstd::string::*;

verus! {

impl IntoEvery for bool {
    open spec fn spec_key() -> TypeKey {
        TypeKey::Bool
    }

    open spec fn erase(v: bool) -> Every {
        Every::Bool(v)
    }

    open spec fn native_eq(a: bool, b: bool) -> bool {
        a == b
    }

    proof fn lemma_erase(a: bool, b: bool) {
    }

    fn type_key() -> (r: TypeKey) {
        TypeKey::Bool
    }

    fn into_every(self) -> (r: Every) {
        Every::Bool(self)
    }

    fn from_ref(e: &Every) -> (r: Option<&bool>) {
        match e {
            Every::Bool(x) => Some(x),
            _ => None,
        }
    }

    fn from_mut(e: &mut Every) -> (r: Option<&mut bool>) {
        match e {
            Every::Bool(x) => Some(x),
            _ => None,
        }
    }

    fn from_every(e: Every) -> (r: Result<bool, Every>) {
        match e {
            Every::Bool(x) => Ok(x),
            other => Err(other),
        }
    }

    fn eq_native(&self, other: &bool) -> (r: bool) {
        *self == *other
    }

    fn clone_native(&self) -> (r: bool) {
        *self
    }

    fn debug_native(&self) -> (r: String) {
        if *self { String::from_str("true") } else { String::from_str("false") }
    }

    fn hash_native<H: std::hash::Hasher>(&self, state: &mut H) {
        feed_hash(self, state)
    }
}

impl IntoEvery for i32 {
    open spec fn spec_key() -> TypeKey {
        TypeKey::I32
    }

    open spec fn erase(v: i32) -> Every {
        Every::I32(v)
    }

    open spec fn native_eq(a: i32, b: i32) -> bool {
        a == b
    }

    proof fn lemma_erase(a: i32, b: i32) {
    }

    fn type_key() -> (r: TypeKey) {
        TypeKey::I32
    }

    fn into_every(self) -> (r: Every) {
        Every::I32(self)
    }

    fn from_ref(e: &Every) -> (r: Option<&i32>) {
        match e {
            Every::I32(x) => Some(x),
            _ => None,
        }
    }

    fn from_mut(e: &mut Every) -> (r: Option<&mut i32>) {
        match e {
            Every::I32(x) => Some(x),
            _ => None,
        }
    }

    fn from_every(e: Every) -> (r: Result<i32, Every>) {
        match e {
            Every::I32(x) => Ok(x),
            other => Err(other),
        }
    }

    fn eq_native(&self, other: &i32) -> (r: bool) {
        *self == *other
    }

    fn clone_native(&self) -> (r: i32) {
        *self
    }

    fn debug_native(&self) -> (r: String) {
        decimal_string(*self as i128)
    }

    fn hash_native<H: std::hash::Hasher>(&self, state: &mut H) {
        feed_hash(self, state)
    }
}

impl IntoEvery for i64 {
    open spec fn spec_key() -> TypeKey {
        TypeKey::I64
    }

    open spec fn erase(v: i64) -> Every {
        Every::I64(v)
    }

    open spec fn native_eq(a: i64, b: i64) -> bool {
        a == b
    }

    proof fn lemma_erase(a: i64, b: i64) {
    }

    fn type_key() -> (r: TypeKey) {
        TypeKey::I64
    }

    fn into_every(self) -> (r: Every) {
        Every::I64(self)
    }

    fn from_ref(e: &Every) -> (r: Option<&i64>) {
        match e {
            Every::I64(x) => Some(x),
            _ => None,
        }
    }

    fn from_mut(e: &mut Every) -> (r: Option<&mut i64>) {
        match e {
            Every::I64(x) => Some(x),
            _ => None,
        }
    }

    fn from_every(e: Every) -> (r: Result<i64, Every>) {
        match e {
            Every::I64(x) => Ok(x),
            other => Err(other),
        }
    }

    fn eq_native(&self, other: &i64) -> (r: bool) {
        *self == *other
    }

    fn clone_native(&self) -> (r: i64) {
        *self
    }

    fn debug_native(&self) -> (r: String) {
        decimal_string(*self as i128)
    }

    fn hash_native<H: std::hash::Hasher>(&self, state: &mut H) {
        feed_hash(self, state)
    }
}

impl IntoEvery for u32 {
    open spec fn spec_key() -> TypeKey {
        TypeKey::U32
    }

    open spec fn erase(v: u32) -> Every {
        Every::U32(v)
    }

    open spec fn native_eq(a: u32, b: u32) -> bool {
        a == b
    }

    proof fn lemma_erase(a: u32, b: u32) {
    }

    fn type_key() -> (r: TypeKey) {
        TypeKey::U32
    }

    fn into_every(self) -> (r: Every) {
        Every::U32(self)
    }

    fn from_ref(e: &Every) -> (r: Option<&u32>) {
        match e {
            Every::U32(x) => Some(x),
            _ => None,
        }
    }

    fn from_mut(e: &mut Every) -> (r: Option<&mut u32>) {
        match e {
            Every::U32(x) => Some(x),
            _ => None,
        }
    }

    fn from_every(e: Every) -> (r: Result<u32, Every>) {
        match e {
            Every::U32(x) => Ok(x),
            other => Err(other),
        }
    }

    fn eq_native(&self, other: &u32) -> (r: bool) {
        *self == *other
    }

    fn clone_native(&self) -> (r: u32) {
        *self
    }

    fn debug_native(&self) -> (r: String) {
        decimal_string(*self as i128)
    }

    fn hash_native<H: std::hash::Hasher>(&self, state: &mut H) {
        feed_hash(self, state)
    }
}

impl IntoEvery for u64 {
    open spec fn spec_key() -> TypeKey {
        TypeKey::U64
    }

    open spec fn erase(v: u64) -> Every {
        Every::U64(v)
    }

    open spec fn native_eq(a: u64, b: u64) -> bool {
        a == b
    }

    proof fn lemma_erase(a: u64, b: u64) {
    }

    fn type_key() -> (r: TypeKey) {
        TypeKey::U64
    }

    fn into_every(self) -> (r: Every) {
        Every::U64(self)
    }

    fn from_ref(e: &Every) -> (r: Option<&u64>) {
        match e {
            Every::U64(x) => Some(x),
            _ => None,
        }
    }

    fn from_mut(e: &mut Every) -> (r: Option<&mut u64>) {
        match e {
            Every::U64(x) => Some(x),
            _ => None,
        }
    }

    fn from_every(e: Every) -> (r: Result<u64, Every>) {
        match e {
            Every::U64(x) => Ok(x),
            other => Err(other),
        }
    }

    fn eq_native(&self, other: &u64) -> (r: bool) {
        *self == *other
    }

    fn clone_native(&self) -> (r: u64) {
        *self
    }

    fn debug_native(&self) -> (r: String) {
        decimal_string(*self as i128)
    }

    fn hash_native<H: std::hash::Hasher>(&self, state: &mut H) {
        feed_hash(self, state)
    }
}

impl IntoEvery for &'static str {
    open spec fn spec_key() -> TypeKey {
        TypeKey::Str
    }

    open spec fn erase(v: &'static str) -> Every {
        Every::Str(v)
    }

    open spec fn native_eq(a: &'static str, b: &'static str) -> bool {
        a@ == b@
    }

    proof fn lemma_erase(a: &'static str, b: &'static str) {
    }

    fn type_key() -> (r: TypeKey) {
        TypeKey::Str
    }

    fn into_every(self) -> (r: Every) {
        Every::Str(self)
    }

    fn from_ref(e: &Every) -> (r: Option<&&'static str>) {
        match e {
            Every::Str(x) => Some(x),
            _ => None,
        }
    }

    fn from_mut(e: &mut Every) -> (r: Option<&mut &'static str>) {
        match e {
            Every::Str(x) => Some(x),
            _ => None,
        }
    }

    fn from_every(e: Every) -> (r: Result<&'static str, Every>) {
        match e {
            Every::Str(x) => Ok(x),
            other => Err(other),
        }
    }

    fn eq_native(&self, other: &&'static str) -> (r: bool) {
        str_eq(*self, *other)
    }

    fn clone_native(&self) -> (r: &'static str) {
        *self
    }

    fn debug_native(&self) -> (r: String) {
        str_debug_string(*self)
    }

    fn hash_native<H: std::hash::Hasher>(&self, state: &mut H) {
        feed_hash(*self, state)
    }
}

impl IntoEvery for String {
    open spec fn spec_key() -> TypeKey {
        TypeKey::Text
    }

    open spec fn erase(v: String) -> Every {
        Every::Text(v)
    }

    open spec fn native_eq(a: String, b: String) -> bool {
        a@ == b@
    }

    proof fn lemma_erase(a: String, b: String) {
    }

    fn type_key() -> (r: TypeKey) {
        TypeKey::Text
    }

    fn into_every(self) -> (r: Every) {
        Every::Text(self)
    }

    fn from_ref(e: &Every) -> (r: Option<&String>) {
        match e {
            Every::Text(x) => Some(x),
            _ => None,
        }
    }

    fn from_mut(e: &mut Every) -> (r: Option<&mut String>) {
        match e {
            Every::Text(x) => Some(x),
            _ => None,
        }
    }

    fn from_every(e: Every) -> (r: Result<String, Every>) {
        match e {
            Every::Text(x) => Ok(x),
            other => Err(other),
        }
    }

    fn eq_native(&self, other: &String) -> (r: bool) {
        *self == *other
    }

    fn clone_native(&self) -> (r: String) {
        self.clone()
    }

    fn debug_native(&self) -> (r: String) {
        str_debug_string(self.as_str())
    }

    fn hash_native<H: std::hash::Hasher>(&self, state: &mut H) {
        feed_hash(self.as_str(), state)
    }
}

} // verus!
