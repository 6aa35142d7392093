//! Conversions from Rust scalars into [`Value`], and the `NULL` of each family.

use crate::value::{Value, ValueView};
use vstd::prelude::*;
use vstd::std_specs::convert::{FromSpecImpl, IntoSpec};

verus! {

/// A type whose column family has a `NULL`.
pub trait Nullable {
    /// The `NULL` of this type's family.
    spec fn null_spec() -> Value;

    /// The `NULL` of this type's family.
    fn null() -> (r: Value)
        ensures
            r == Self::null_spec(),
    ;
}

impl From<bool> for Value {
    fn from(x: bool) -> (r: Value) {
        Value::Bool(Some(x))
    }
}

impl FromSpecImpl<bool> for Value {
    open spec fn obeys_from_spec() -> bool {
        true
    }

    open spec fn from_spec(x: bool) -> Value {
        Value::Bool(Some(x))
    }
}

impl Nullable for bool {
    open spec fn null_spec() -> Value {
        Value::Bool(None)
    }

    fn null() -> (r: Value) {
        Value::Bool(None)
    }
}

impl From<i8> for Value {
    fn from(x: i8) -> (r: Value) {
        Value::TinyInt(Some(x))
    }
}

impl FromSpecImpl<i8> for Value {
    open spec fn obeys_from_spec() -> bool {
        true
    }

    open spec fn from_spec(x: i8) -> Value {
        Value::TinyInt(Some(x))
    }
}

impl Nullable for i8 {
    open spec fn null_spec() -> Value {
        Value::TinyInt(None)
    }

    fn null() -> (r: Value) {
        Value::TinyInt(None)
    }
}

impl From<i16> for Value {
    fn from(x: i16) -> (r: Value) {
        Value::SmallInt(Some(x))
    }
}

impl FromSpecImpl<i16> for Value {
    open spec fn obeys_from_spec() -> bool {
        true
    }

    open spec fn from_spec(x: i16) -> Value {
        Value::SmallInt(Some(x))
    }
}

impl Nullable for i16 {
    open spec fn null_spec() -> Value {
        Value::SmallInt(None)
    }

    fn null() -> (r: Value) {
        Value::SmallInt(None)
    }
}

impl From<i32> for Value {
    fn from(x: i32) -> (r: Value) {
        Value::Int(Some(x))
    }
}

impl FromSpecImpl<i32> for Value {
    open spec fn obeys_from_spec() -> bool {
        true
    }

    open spec fn from_spec(x: i32) -> Value {
        Value::Int(Some(x))
    }
}

impl Nullable for i32 {
    open spec fn null_spec() -> Value {
        Value::Int(None)
    }

    fn null() -> (r: Value) {
        Value::Int(None)
    }
}

impl From<i64> for Value {
    fn from(x: i64) -> (r: Value) {
        Value::BigInt(Some(x))
    }
}

impl FromSpecImpl<i64> for Value {
    open spec fn obeys_from_spec() -> bool {
        true
    }

    open spec fn from_spec(x: i64) -> Value {
        Value::BigInt(Some(x))
    }
}

impl Nullable for i64 {
    open spec fn null_spec() -> Value {
        Value::BigInt(None)
    }

    fn null() -> (r: Value) {
        Value::BigInt(None)
    }
}

impl From<u8> for Value {
    fn from(x: u8) -> (r: Value) {
        Value::TinyUnsigned(Some(x))
    }
}

impl FromSpecImpl<u8> for Value {
    open spec fn obeys_from_spec() -> bool {
        true
    }

    open spec fn from_spec(x: u8) -> Value {
        Value::TinyUnsigned(Some(x))
    }
}

impl Nullable for u8 {
    open spec fn null_spec() -> Value {
        Value::TinyUnsigned(None)
    }

    fn null() -> (r: Value) {
        Value::TinyUnsigned(None)
    }
}

impl From<u16> for Value {
    fn from(x: u16) -> (r: Value) {
        Value::SmallUnsigned(Some(x))
    }
}

impl FromSpecImpl<u16> for Value {
    open spec fn obeys_from_spec() -> bool {
        true
    }

    open spec fn from_spec(x: u16) -> Value {
        Value::SmallUnsigned(Some(x))
    }
}

impl Nullable for u16 {
    open spec fn null_spec() -> Value {
        Value::SmallUnsigned(None)
    }

    fn null() -> (r: Value) {
        Value::SmallUnsigned(None)
    }
}

impl From<u32> for Value {
    fn from(x: u32) -> (r: Value) {
        Value::Unsigned(Some(x))
    }
}

impl FromSpecImpl<u32> for Value {
    open spec fn obeys_from_spec() -> bool {
        true
    }

    open spec fn from_spec(x: u32) -> Value {
        Value::Unsigned(Some(x))
    }
}

impl Nullable for u32 {
    open spec fn null_spec() -> Value {
        Value::Unsigned(None)
    }

    fn null() -> (r: Value) {
        Value::Unsigned(None)
    }
}

impl From<u64> for Value {
    fn from(x: u64) -> (r: Value) {
        Value::BigUnsigned(Some(x))
    }
}

impl FromSpecImpl<u64> for Value {
    open spec fn obeys_from_spec() -> bool {
        true
    }

    open spec fn from_spec(x: u64) -> Value {
        Value::BigUnsigned(Some(x))
    }
}

impl Nullable for u64 {
    open spec fn null_spec() -> Value {
        Value::BigUnsigned(None)
    }

    fn null() -> (r: Value) {
        Value::BigUnsigned(None)
    }
}

impl From<char> for Value {
    fn from(x: char) -> (r: Value) {
        Value::Char(Some(x))
    }
}

impl FromSpecImpl<char> for Value {
    open spec fn obeys_from_spec() -> bool {
        true
    }

    open spec fn from_spec(x: char) -> Value {
        Value::Char(Some(x))
    }
}

impl Nullable for char {
    open spec fn null_spec() -> Value {
        Value::Char(None)
    }

    fn null() -> (r: Value) {
        Value::Char(None)
    }
}

impl From<String> for Value {
    fn from(x: String) -> (r: Value) {
        Value::String(Some(x))
    }
}

impl FromSpecImpl<String> for Value {
    open spec fn obeys_from_spec() -> bool {
        true
    }

    open spec fn from_spec(x: String) -> Value {
        Value::String(Some(x))
    }
}

impl Nullable for String {
    open spec fn null_spec() -> Value {
        Value::String(None)
    }

    fn null() -> (r: Value) {
        Value::String(None)
    }
}

impl From<Vec<u8>> for Value {
    fn from(x: Vec<u8>) -> (r: Value) {
        Value::Bytes(Some(x))
    }
}

impl FromSpecImpl<Vec<u8>> for Value {
    open spec fn obeys_from_spec() -> bool {
        true
    }

    open spec fn from_spec(x: Vec<u8>) -> Value {
        Value::Bytes(Some(x))
    }
}

impl Nullable for Vec<u8> {
    open spec fn null_spec() -> Value {
        Value::Bytes(None)
    }

    fn null() -> (r: Value) {
        Value::Bytes(None)
    }
}

impl<'a> From<&'a str> for Value {
    /// Text from a string slice. The result is stated by its view: the owned
    /// copy is a new string.
    fn from(x: &'a str) -> (r: Value)
        ensures
            r@ == ValueView::String(Some(x@)),
    {
        Value::String(Some(x.to_owned()))
    }
}

impl<'a> FromSpecImpl<&'a str> for Value {
    open spec fn obeys_from_spec() -> bool {
        false
    }

    open spec fn from_spec(x: &'a str) -> Value {
        arbitrary()
    }
}

impl<'a> Nullable for &'a str {
    open spec fn null_spec() -> Value {
        Value::String(None)
    }

    fn null() -> (r: Value) {
        Value::String(None)
    }
}

impl<T> From<Option<T>> for Value where T: Into<Value> + Nullable {
    /// `Some(v)` is the value of `v`; `None` is the `NULL` of `T`'s family.
    fn from(x: Option<T>) -> (r: Value)
        ensures
            x is None ==> r == T::null_spec(),
    {
        match x {
            Some(v) => v.into(),
            None => T::null(),
        }
    }
}

impl<T> FromSpecImpl<Option<T>> for Value where T: Into<Value> + Nullable {
    open spec fn obeys_from_spec() -> bool {
        T::obeys_into_spec()
    }

    open spec fn from_spec(x: Option<T>) -> Value {
        match x {
            Some(v) => v.into_spec(),
            None => T::null_spec(),
        }
    }
}

} // verus!
