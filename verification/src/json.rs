//! JSON documents.
//!
//! Reading and writing JSON text is the work of `serde_json`. This module
//! gives that crate's values a mathematical meaning, [`Json`], states what
//! each call used by the library does in terms of that meaning, and builds the
//! member readers that the wire formats are decoded with.

use vstd::prelude::*;

verus! {

/// A JSON document.
///
/// Numbers come in the three forms that `serde_json` stores them in: an
/// unsigned integer, a signed integer below zero, and a finite double, which
/// is identified by its bit pattern. An integer written with a fraction or an
/// exponent is of the third form. An object is a finite map: member names are
/// distinct and carry no order.
pub enum Json {
    Null,
    Bool(bool),
    Unsigned(u64),
    Negative(i64),
    Real(u64),
    Text(Seq<char>),
    Array(Seq<Json>),
    Object(Map<Seq<char>, Json>),
}

impl Json {
    /// The member `key` of an object; `None` for a document that is no object
    /// or has no such member.
    pub open spec fn member(self, key: Seq<char>) -> Option<Json> {
        match self {
            Json::Object(members) => if members.dom().contains(key) {
                Some(members[key])
            } else {
                None
            },
            _ => None,
        }
    }

    /// This object with member `key` set to `value`; a document that is no
    /// object is left as it is.
    pub open spec fn with_member(self, key: Seq<char>, value: Json) -> Json {
        match self {
            Json::Object(members) => Json::Object(members.insert(key, value)),
            _ => self,
        }
    }

    /// The object without members.
    pub open spec fn empty_object() -> Json {
        Json::Object(Map::empty())
    }

    /// The text of a string.
    pub open spec fn text(self) -> Option<Seq<char>> {
        match self {
            Json::Text(s) => Some(s),
            _ => None,
        }
    }

    /// The value of an integer from zero up.
    pub open spec fn unsigned(self) -> Option<u64> {
        match self {
            Json::Unsigned(n) => Some(n),
            _ => None,
        }
    }

    /// The value of an integer from zero up that fits 32 bits.
    pub open spec fn small_unsigned(self) -> Option<u32> {
        match self {
            Json::Unsigned(n) => if n <= u32::MAX {
                Some(n as u32)
            } else {
                None
            },
            _ => None,
        }
    }

    /// A member that must be there and be a string.
    pub open spec fn text_member(self, key: Seq<char>) -> Option<Seq<char>> {
        match self.member(key) {
            Some(found) => found.text(),
            None => None,
        }
    }

    /// A member that must be there and be an integer from zero up.
    pub open spec fn u64_member(self, key: Seq<char>) -> Option<u64> {
        match self.member(key) {
            Some(found) => found.unsigned(),
            None => None,
        }
    }

    /// A member that must be there and be an integer from zero up that fits
    /// 32 bits.
    pub open spec fn u32_member(self, key: Seq<char>) -> Option<u32> {
        match self.member(key) {
            Some(found) => found.small_unsigned(),
            None => None,
        }
    }

    /// A member that may be left out: `None` where it is missing or null,
    /// else the member.
    pub open spec fn optional_member(self, key: Seq<char>) -> Option<Json> {
        match self.member(key) {
            Some(found) => if found is Null {
                None
            } else {
                Some(found)
            },
            None => None,
        }
    }

    /// A string member that may be left out. The outer `None` stands for a
    /// member of another kind; `Some(None)` for one that is missing or null.
    pub open spec fn optional_text_member(self, key: Seq<char>) -> Option<Option<Seq<char>>> {
        match self.optional_member(key) {
            None => Some(None),
            Some(found) => match found.text() {
                Some(s) => Some(Some(s)),
                None => None,
            },
        }
    }

    /// An integer member that may be left out, read as
    /// [`Json::optional_text_member`] reads a string.
    pub open spec fn optional_u64_member(self, key: Seq<char>) -> Option<Option<u64>> {
        match self.optional_member(key) {
            None => Some(None),
            Some(found) => match found.unsigned() {
                Some(n) => Some(Some(n)),
                None => None,
            },
        }
    }
}

/// What `shape` reads from each of `items`, if it reads something from every
/// one of them.
pub open spec fn each<T>(items: Seq<Json>, shape: spec_fn(Json) -> Option<T>) -> Option<Seq<T>> {
    if forall|i: int| 0 <= i < items.len() ==> (#[trigger] shape(items[i])) is Some {
        Some(Seq::new(items.len(), |i: int| shape(items[i]).unwrap()))
    } else {
        None
    }
}

/// One element that `shape` reads nothing from leaves nothing of the whole.
pub proof fn each_fails_at<T>(items: Seq<Json>, shape: spec_fn(Json) -> Option<T>, at: int)
    requires
        0 <= at < items.len(),
        shape(items[at]) is None,
    ensures
        each(items, shape) is None,
{
}

/// Where `shape` reads `read[i]` from `items[i]` for every `i`, the whole is
/// `read`.
pub proof fn each_reads<T>(items: Seq<Json>, shape: spec_fn(Json) -> Option<T>, read: Seq<T>)
    requires
        read.len() == items.len(),
        forall|i: int| 0 <= i < items.len() ==> shape(#[trigger] items[i]) == Some(read[i]),
    ensures
        each(items, shape) == Some(read),
{
}

/// `serde_json::Value`, carried as an opaque value. What it holds is
/// [`value_json`].
#[verifier::external_type_specification]
#[verifier::external_body]
pub struct ExValue(serde_json::Value);

/// `serde_json::Error`, carried as an opaque value. Its wording is
/// [`error_text`].
#[verifier::external_type_specification]
#[verifier::external_body]
pub struct ExError(serde_json::Error);

/// The document that a `serde_json::Value` holds, variant by variant: `Null`,
/// `Bool`, `String` and `Array` by their payload, an `Object` by the map from
/// each key to the document of its value, and a `Number` by the form that
/// serde_json stores it in, not by its value: [`Json::Unsigned`] for one
/// stored as an unsigned integer, [`Json::Negative`] for one stored as a
/// signed integer, which is always below zero, and [`Json::Real`], with the
/// bits of the double, for one stored as a double. So `100` is
/// `Unsigned(100)`, and `1e2` and `100.0` are `Real` with the bits of 100.0.
pub uninterp spec fn value_json(v: serde_json::Value) -> Json;

/// The documents that a vector of values holds, one by one.
pub open spec fn values_json(items: Seq<serde_json::Value>) -> Seq<Json> {
    items.map_values(|item: serde_json::Value| value_json(item))
}

/// The `Display` text of a `serde_json::Error`.
pub uninterp spec fn error_text(e: serde_json::Error) -> Seq<char>;

/// What `serde_json::from_str::<Value>` makes of a text: the document it
/// reads, or the wording of its refusal.
pub uninterp spec fn parsed_json(text: Seq<char>) -> Result<Json, Seq<char>>;

/// The compact text that `serde_json` writes for a document. Objects are
/// kept as maps ordered by key, as the crate keeps them unless it is built
/// to preserve the order of insertion, so members are written in the order
/// of their keys and the text depends on the document alone.
pub uninterp spec fn json_text(doc: Json) -> Seq<char>;

/// `serde_json::from_str` at type `Value`. The outcome depends on the text
/// alone; it is [`parsed_json`], with a value standing for its document and
/// an error for its wording.
#[verifier::external_body]
pub(crate) fn parse(text: &str) -> (r: Result<serde_json::Value, serde_json::Error>)
    ensures
        match r {
            Ok(v) => parsed_json(text@) == Ok::<Json, Seq<char>>(value_json(v)),
            Err(e) => parsed_json(text@) == Err::<Json, Seq<char>>(error_text(e)),
        },
{
    serde_json::from_str::<serde_json::Value>(text)
}

/// `ToString::to_string` on a `serde_json::Error`: its `Display` text.
#[verifier::external_body]
pub(crate) fn complaint(e: &serde_json::Error) -> (r: String)
    ensures
        r@ == error_text(*e),
{
    e.to_string()
}

/// `ToString::to_string` on a `serde_json::Value`: the compact text of its
/// document. Objects are written in the order of their keys, so the text
/// depends on the document alone.
#[verifier::external_body]
pub(crate) fn render(v: &serde_json::Value) -> (r: String)
    ensures
        r@ == json_text(value_json(*v)),
{
    v.to_string()
}

/// `Value::get` with a string key: the value of that member of an object,
/// `None` for any other value and for a missing key.
#[verifier::external_body]
pub(crate) fn member<'a>(v: &'a serde_json::Value, key: &str) -> (r: Option<
    &'a serde_json::Value,
>)
    ensures
        match r {
            Some(found) => value_json(*v).member(key@) == Some(value_json(*found)),
            None => value_json(*v).member(key@) is None,
        },
{
    v.get(key)
}

/// `Value::as_str`: the payload of a string, `None` for any other value.
pub assume_specification<'a>[ serde_json::Value::as_str ](v: &'a serde_json::Value) -> (r: Option<
    &'a str,
>)
    ensures
        match r {
            Some(s) => value_json(*v) == Json::Text(s@),
            None => !(value_json(*v) is Text),
        },
;

/// `Value::as_u64`: the value of an integer from zero up, `None` for any
/// other value.
pub assume_specification[ serde_json::Value::as_u64 ](v: &serde_json::Value) -> (r: Option<u64>)
    ensures
        match r {
            Some(n) => value_json(*v) == Json::Unsigned(n),
            None => !(value_json(*v) is Unsigned),
        },
;

/// `Value::as_array`: the elements of an array, `None` for any other value.
pub assume_specification<'a>[ serde_json::Value::as_array ](v: &'a serde_json::Value) -> (r: Option<
    &'a Vec<serde_json::Value>,
>)
    ensures
        match r {
            Some(items) => value_json(*v) == Json::Array(values_json(items@)),
            None => !(value_json(*v) is Array),
        },
;

/// `Value::is_null`.
pub assume_specification[ serde_json::Value::is_null ](v: &serde_json::Value) -> (r: bool)
    ensures
        r == (value_json(*v) is Null),
;

/// `Clone::clone` on a `serde_json::Value`: an equal value.
pub assume_specification[ <serde_json::Value as Clone>::clone ](v: &serde_json::Value) -> (r:
    serde_json::Value)
    ensures
        value_json(r) == value_json(*v),
;

/// `Value::String`.
#[verifier::external_body]
pub(crate) fn text_value(text: String) -> (r: serde_json::Value)
    ensures
        value_json(r) == Json::Text(text@),
{
    serde_json::Value::String(text)
}

/// `Value::Bool`.
#[verifier::external_body]
pub(crate) fn bool_value(flag: bool) -> (r: serde_json::Value)
    ensures
        value_json(r) == Json::Bool(flag),
{
    serde_json::Value::Bool(flag)
}

/// `Value::from` on a `u64`: the number with that value.
#[verifier::external_body]
pub(crate) fn unsigned_value(n: u64) -> (r: serde_json::Value)
    ensures
        value_json(r) == Json::Unsigned(n),
{
    serde_json::Value::from(n)
}

/// `Value::Array`.
#[verifier::external_body]
pub(crate) fn array_value(items: Vec<serde_json::Value>) -> (r: serde_json::Value)
    ensures
        value_json(r) == Json::Array(values_json(items@)),
{
    serde_json::Value::Array(items)
}

/// `Value::Object` on `Map::new()`: the object without members.
#[verifier::external_body]
pub(crate) fn empty_object() -> (r: serde_json::Value)
    ensures
        value_json(r) == Json::empty_object(),
{
    serde_json::Value::Object(serde_json::Map::new())
}

/// `Map::insert` on the map of an object: the member `key` is set to `value`,
/// replacing what the object held under that key.
#[verifier::external_body]
pub(crate) fn set_member(target: &mut serde_json::Value, key: &str, value: serde_json::Value)
    requires
        value_json(*old(target)) is Object,
    ensures
        value_json(*final(target)) == value_json(*old(target)).with_member(key@, value_json(value)),
{
    if let serde_json::Value::Object(members) = target {
        members.insert(key.to_string(), value);
    }
}

/// Reads the string member `key` of `v`.
pub fn text_member(v: &serde_json::Value, key: &str) -> (r: Option<String>)
    ensures
        match r {
            Some(s) => value_json(*v).text_member(key@) == Some(s@),
            None => value_json(*v).text_member(key@) is None,
        },
{
    match member(v, key) {
        Some(found) => match found.as_str() {
            Some(s) => Some(s.to_owned()),
            None => None,
        },
        None => None,
    }
}

/// Reads the integer member `key` of `v`.
pub fn u64_member(v: &serde_json::Value, key: &str) -> (r: Option<u64>)
    ensures
        r == value_json(*v).u64_member(key@),
{
    match member(v, key) {
        Some(found) => found.as_u64(),
        None => None,
    }
}

/// Reads the integer member `key` of `v`, which must fit 32 bits.
pub fn u32_member(v: &serde_json::Value, key: &str) -> (r: Option<u32>)
    ensures
        r == value_json(*v).u32_member(key@),
{
    match member(v, key) {
        Some(found) => match found.as_u64() {
            Some(n) => if n <= 0xffff_ffff {
                Some(n as u32)
            } else {
                None
            },
            None => None,
        },
        None => None,
    }
}

/// Finds the member `key` of `v` where it is there and not null.
pub fn optional_member<'a>(v: &'a serde_json::Value, key: &str) -> (r: Option<
    &'a serde_json::Value,
>)
    ensures
        match r {
            Some(found) => value_json(*v).optional_member(key@) == Some(value_json(*found)),
            None => value_json(*v).optional_member(key@) is None,
        },
{
    match member(v, key) {
        Some(found) => if found.is_null() {
            None
        } else {
            Some(found)
        },
        None => None,
    }
}

/// Reads the string member `key` of `v`, which may be left out.
pub fn optional_text_member(v: &serde_json::Value, key: &str) -> (r: Option<Option<String>>)
    ensures
        match r {
            Some(Some(s)) => value_json(*v).optional_text_member(key@) == Some(Some(s@)),
            Some(None) => value_json(*v).optional_text_member(key@) == Some(None::<Seq<char>>),
            None => value_json(*v).optional_text_member(key@) is None,
        },
{
    match optional_member(v, key) {
        None => Some(None),
        Some(found) => match found.as_str() {
            Some(s) => Some(Some(s.to_owned())),
            None => None,
        },
    }
}

/// Reads the integer member `key` of `v`, which may be left out.
pub fn optional_u64_member(v: &serde_json::Value, key: &str) -> (r: Option<Option<u64>>)
    ensures
        r == value_json(*v).optional_u64_member(key@),
{
    match optional_member(v, key) {
        None => Some(None),
        Some(found) => match found.as_u64() {
            Some(n) => Some(Some(n)),
            None => None,
        },
    }
}

} // verus!
