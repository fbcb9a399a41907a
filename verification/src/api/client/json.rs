//! JSON as the resolver reads it: a body is parsed once into a tree, and each
//! shape that a body may have says for itself whether a tree matches it.

use super::error::BodyParseError;
use super::number::{integer_of, parse_integer, within_64_bits};
use super::response::SuccessOrError;
use super::text::{str_eq, utf8};
use vstd::prelude::*;
use vstd::string::*;

verus! {

/// One member of a JSON object.
#[derive(Debug)]
pub struct Member {
    pub key: String,
    pub value: Json,
}

/// A JSON value. A number is kept as the text that stands for it, so that no
/// digit of it is lost. The members of an object stand in the order of their
/// keys, each key once.
#[derive(Debug)]
pub enum Json {
    Null,
    Bool(bool),
    Number(String),
    String(String),
    Array(Vec<Json>),
    Object(Vec<Member>),
}

#[verifier::external_type_specification]
#[verifier::external_body]
pub struct ExValue(serde_json::Value);

/// The value that a JSON text stands for, as `serde_json` reads it; `None`
/// for bytes that are no JSON text.
pub uninterp spec fn json_value(bytes: Seq<u8>) -> Option<Json>;

/// Turns a `serde_json::Value` into a [`Json`], variant for variant: a number
/// becomes the text that its `Display` impl gives, an object the list of the
/// entries of its map in the map's order. It is the converting half of
/// [`read_value`] and promises nothing by itself.
#[verifier::external_body]
fn json_of(value: serde_json::Value) -> Json {
    match value {
        serde_json::Value::Null => Json::Null,
        serde_json::Value::Bool(b) => Json::Bool(b),
        serde_json::Value::Number(n) => Json::Number(n.to_string()),
        serde_json::Value::String(s) => Json::String(s),
        serde_json::Value::Array(a) => Json::Array(a.into_iter().map(json_of).collect()),
        serde_json::Value::Object(o) => Json::Object(
            o.into_iter().map(|(key, value)| Member { key, value: json_of(value) }).collect(),
        ),
    }
}

/// Parses bytes with `serde_json::from_slice` into a `serde_json::Value`. It
/// fails exactly on bytes that are no JSON text, with the decoder's message;
/// the value it gives is named in the contract, not described.
#[verifier::external_body]
fn read_value(bytes: &[u8]) -> (r: Result<Json, BodyParseError>)
    ensures
        r is Ok <==> json_value(bytes@) is Some,
        r is Ok ==> json_value(bytes@) == Some(r->Ok_0),
{
    match serde_json::from_slice::<serde_json::Value>(bytes) {
        Ok(value) => Ok(json_of(value)),
        Err(e) => Err(BodyParseError { message: e.to_string() }),
    }
}

/// Parses a JSON text.
pub fn parse_json(bytes: &[u8]) -> (r: Result<Json, BodyParseError>)
    ensures
        r is Ok <==> json_value(bytes@) is Some,
        r is Ok ==> json_value(bytes@) == Some(r->Ok_0),
{
    read_value(bytes)
}

/// The value of the first member with a key, if there is one.
pub open spec fn find_member(members: Seq<Member>, key: Seq<char>) -> Option<Json>
    decreases members.len(),
{
    if members.len() == 0 {
        None
    } else if members[0].key@ == key {
        Some(members[0].value)
    } else {
        find_member(members.drop_first(), key)
    }
}

impl Json {
    /// The member of an object under a key; `None` for a value that is no
    /// object or has no such member.
    pub open spec fn member(self, key: Seq<char>) -> Option<Json> {
        match self {
            Json::Object(members) => find_member(members@, key),
            _ => None,
        }
    }

    /// The text of a string; `None` for a value that is no string.
    pub open spec fn text(self) -> Option<Seq<char>> {
        match self {
            Json::String(s) => Some(s@),
            _ => None,
        }
    }

    /// The number of members of an object; `None` for a value that is no
    /// object.
    pub open spec fn member_count(self) -> Option<nat> {
        match self {
            Json::Object(members) => Some(members@.len()),
            _ => None,
        }
    }

    pub fn get(&self, key: &str) -> (found: Option<&Json>)
        ensures
            self.member(key@) == match found {
                Some(value) => Some(*value),
                None => None,
            },
    {
        match self {
            Json::Object(members) => {
                let mut i: usize = 0;
                proof {
                    assert(members@.skip(0) =~= members@);
                }
                while i < members.len()
                    invariant
                        i <= members@.len(),
                        self.member(key@) == find_member(members@, key@),
                        find_member(members@, key@) == find_member(members@.skip(i as int), key@),
                    decreases members@.len() - i,
                {
                    let ghost rest = members@.skip(i as int);
                    proof {
                        assert(rest[0] == members@[i as int]);
                        assert(rest.drop_first() =~= members@.skip(i + 1));
                    }
                    if str_eq(members[i].key.as_str(), key) {
                        proof {
                            assert(find_member(rest, key@) == Some(rest[0].value));
                        }
                        return Some(&members[i].value);
                    }
                    i = i + 1;
                }
                proof {
                    assert(members@.skip(i as int).len() == 0);
                }
                None
            },
            _ => None,
        }
    }

    pub fn as_str(&self) -> (s: Option<&str>)
        ensures
            self.text() == match s {
                Some(s) => Some(s@),
                None => None,
            },
    {
        match self {
            Json::String(s) => Some(s.as_str()),
            _ => None,
        }
    }

    /// Whether the value is an object without members.
    pub fn is_empty_object(&self) -> (empty: bool)
        ensures
            empty == (self.member_count() == Some(0nat)),
    {
        match self {
            Json::Object(members) => members.len() == 0,
            _ => false,
        }
    }
}

/// An integer, if it lies between two bounds.
pub open spec fn ranged(n: Option<int>, low: int, high: int) -> Option<int> {
    match n {
        Some(n) => if low <= n <= high {
            Some(n)
        } else {
            None
        },
        None => None,
    }
}

impl Json {
    /// The integer that a number stands for; `None` for a value that is no
    /// number, for a number with a fraction or an exponent, and for one of
    /// more than 64 bits.
    pub open spec fn integer(self) -> Option<int> {
        match self {
            Json::Number(text) => within_64_bits(integer_of(utf8(text@))),
            _ => None,
        }
    }

    pub fn as_integer(&self) -> (n: Option<i128>)
        ensures
            self.integer() == match n {
                Some(n) => Some(n as int),
                None => None,
            },
    {
        match self {
            Json::Number(text) => parse_integer(text.as_str().as_bytes()),
            _ => None,
        }
    }

    /// The number as a signed 64-bit integer, if it is one.
    pub fn as_i64(&self) -> (n: Option<i64>)
        ensures
            ranged(self.integer(), i64::MIN as int, i64::MAX as int) == match n {
                Some(n) => Some(n as int),
                None => None,
            },
    {
        match self.as_integer() {
            Some(n) => if -0x8000_0000_0000_0000 <= n && n <= 0x7fff_ffff_ffff_ffff {
                Some(n as i64)
            } else {
                None
            },
            None => None,
        }
    }

    /// The number as an unsigned 64-bit integer, if it is one.
    pub fn as_u64(&self) -> (n: Option<u64>)
        ensures
            ranged(self.integer(), 0, u64::MAX as int) == match n {
                Some(n) => Some(n as int),
                None => None,
            },
    {
        match self.as_integer() {
            Some(n) => if 0 <= n && n <= 0xffff_ffff_ffff_ffff {
                Some(n as u64)
            } else {
                None
            },
            None => None,
        }
    }

    /// The number as an unsigned 16-bit integer, if it is one.
    pub fn as_u16(&self) -> (n: Option<u16>)
        ensures
            ranged(self.integer(), 0, u16::MAX as int) == match n {
                Some(n) => Some(n as int),
                None => None,
            },
    {
        match self.as_integer() {
            Some(n) => if 0 <= n && n <= 0xffff {
                Some(n as u16)
            } else {
                None
            },
            None => None,
        }
    }
}

/// A shape that a JSON value may have. A type of this kind says which values
/// match it and what each of them decodes to.
pub trait FromJson: Sized {
    /// What a value decodes to; `None` for a value that does not match.
    spec fn decoded(json: Json) -> Option<Self>;

    fn from_json(json: &Json) -> (r: Option<Self>)
        ensures
            r == Self::decoded(*json),
    ;
}

/// A body without a tag is a success where it matches the shape of the
/// payload, else an error where it matches the shape of the error object.
impl<T: FromJson, E: FromJson> FromJson for SuccessOrError<T, E> {
    open spec fn decoded(json: Json) -> Option<Self> {
        match T::decoded(json) {
            Some(payload) => Some(SuccessOrError::Success(payload)),
            None => match E::decoded(json) {
                Some(error) => Some(SuccessOrError::Error(error)),
                None => None,
            },
        }
    }

    fn from_json(json: &Json) -> (r: Option<Self>) {
        match T::from_json(json) {
            Some(payload) => Some(SuccessOrError::Success(payload)),
            None => match E::from_json(json) {
                Some(error) => Some(SuccessOrError::Error(error)),
                None => None,
            },
        }
    }
}

/// What the bytes of a body decode to; `None` for bytes that are no JSON text
/// or match neither shape.
pub open spec fn body_value<T: FromJson, E: FromJson>(bytes: Seq<u8>) -> Option<
    SuccessOrError<T, E>,
> {
    match json_value(bytes) {
        Some(json) => SuccessOrError::<T, E>::decoded(json),
        None => None,
    }
}

/// What is reported of a body that is JSON and matches neither shape.
pub const NO_VARIANT: &'static str =
    "data did not match any variant of untagged enum SuccessOrError";

/// Decodes a body: the payload, the error object, or the failure to find
/// either in it.
pub fn from_slice<T: FromJson, E: FromJson>(bytes: &[u8]) -> (r: Result<
    SuccessOrError<T, E>,
    BodyParseError,
>)
    ensures
        r is Ok <==> body_value::<T, E>(bytes@) is Some,
        r is Ok ==> body_value::<T, E>(bytes@) == Some(r->Ok_0),
        r is Err && json_value(bytes@) is Some ==> r->Err_0.message@ == NO_VARIANT@,
{
    match parse_json(bytes) {
        Ok(json) => match SuccessOrError::<T, E>::from_json(&json) {
            Some(decoded) => Ok(decoded),
            None => Err(BodyParseError { message: NO_VARIANT.to_owned() }),
        },
        Err(e) => Err(e),
    }
}

impl Json {
    /// The truth value; `None` for a value that is neither `true` nor `false`.
    pub open spec fn truth(self) -> Option<bool> {
        match self {
            Json::Bool(b) => Some(b),
            _ => None,
        }
    }

    pub fn as_bool(&self) -> (b: Option<bool>)
        ensures
            b == self.truth(),
    {
        match self {
            Json::Bool(b) => Some(*b),
            _ => None,
        }
    }

    /// The number as a signed 32-bit integer, if it is one.
    pub fn as_i32(&self) -> (n: Option<i32>)
        ensures
            ranged(self.integer(), i32::MIN as int, i32::MAX as int) == match n {
                Some(n) => Some(n as int),
                None => None,
            },
    {
        match self.as_integer() {
            Some(n) => if -0x8000_0000 <= n && n <= 0x7fff_ffff {
                Some(n as i32)
            } else {
                None
            },
            None => None,
        }
    }

    /// The number as an unsigned 32-bit integer, if it is one.
    pub fn as_u32(&self) -> (n: Option<u32>)
        ensures
            ranged(self.integer(), 0, u32::MAX as int) == match n {
                Some(n) => Some(n as int),
                None => None,
            },
    {
        match self.as_integer() {
            Some(n) => if 0 <= n && n <= 0xffff_ffff {
                Some(n as u32)
            } else {
                None
            },
            None => None,
        }
    }
}

impl FromJson for u64 {
    open spec fn decoded(json: Json) -> Option<u64> {
        match ranged(json.integer(), 0, u64::MAX as int) {
            Some(n) => Some(n as u64),
            None => None,
        }
    }

    fn from_json(json: &Json) -> (r: Option<u64>) {
        json.as_u64()
    }
}

impl FromJson for i64 {
    open spec fn decoded(json: Json) -> Option<i64> {
        match ranged(json.integer(), i64::MIN as int, i64::MAX as int) {
            Some(n) => Some(n as i64),
            None => None,
        }
    }

    fn from_json(json: &Json) -> (r: Option<i64>) {
        json.as_i64()
    }
}

impl FromJson for u32 {
    open spec fn decoded(json: Json) -> Option<u32> {
        match ranged(json.integer(), 0, u32::MAX as int) {
            Some(n) => Some(n as u32),
            None => None,
        }
    }

    fn from_json(json: &Json) -> (r: Option<u32>) {
        json.as_u32()
    }
}

impl FromJson for i32 {
    open spec fn decoded(json: Json) -> Option<i32> {
        match ranged(json.integer(), i32::MIN as int, i32::MAX as int) {
            Some(n) => Some(n as i32),
            None => None,
        }
    }

    fn from_json(json: &Json) -> (r: Option<i32>) {
        json.as_i32()
    }
}

impl FromJson for u16 {
    open spec fn decoded(json: Json) -> Option<u16> {
        match ranged(json.integer(), 0, u16::MAX as int) {
            Some(n) => Some(n as u16),
            None => None,
        }
    }

    fn from_json(json: &Json) -> (r: Option<u16>) {
        json.as_u16()
    }
}

impl FromJson for bool {
    open spec fn decoded(json: Json) -> Option<bool> {
        json.truth()
    }

    fn from_json(json: &Json) -> (r: Option<bool>) {
        json.as_bool()
    }
}

impl FromJson for String {
    open spec fn decoded(json: Json) -> Option<String> {
        match json {
            Json::String(s) => Some(s),
            _ => None,
        }
    }

    fn from_json(json: &Json) -> (r: Option<String>) {
        match json {
            Json::String(s) => Some(s.clone()),
            _ => None,
        }
    }
}

/// What the member under a key decodes to; `None` where there is no such
/// member or it does not match.
pub open spec fn field<T: FromJson>(json: Json, key: Seq<char>) -> Option<T> {
    match json.member(key) {
        Some(value) => T::decoded(value),
        None => None,
    }
}

/// Decodes the member under a key.
pub fn get_field<T: FromJson>(json: &Json, key: &str) -> (r: Option<T>)
    ensures
        r == field::<T>(*json, key@),
{
    match json.get(key) {
        Some(value) => T::from_json(value),
        None => None,
    }
}

} // verus!
