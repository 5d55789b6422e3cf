//! JSON values: a mathematical model of `serde_json::Value`, and the few
//! operations on it that the protocol code uses.
//!
//! The functions marked `external_body` hand over to `serde_json`; what each of
//! them promises is believed, not proved.
use vstd::prelude::*;

verus! {

/// A JSON number, split the way `serde_json` stores it. A number with a
/// fraction or an exponent is known by the bits of its binary64 form.
pub enum JsonNumber {
    PosInt(u64),
    NegInt(i64),
    Float(u64),
}

/// The model of a JSON value. An object is the sequence of its entries, in the
/// order in which they are written out. `serde_json` keeps that order where its
/// feature `preserve_order` is switched on, as it is here.
pub enum Json {
    Null,
    Bool(bool),
    Number(JsonNumber),
    Str(Seq<char>),
    Array(Seq<Json>),
    Object(Seq<(Seq<char>, Json)>),
}

/// `serde_json::Value`, an opaque type here; `json_of` names what it holds.
#[verifier::external_type_specification]
#[verifier::external_body]
pub struct ExValue(serde_json::Value);

/// `serde_json::Number`, an opaque type here; `number_of` names what it holds.
#[verifier::external_type_specification]
#[verifier::external_body]
pub struct ExNumber(serde_json::Number);

/// `serde_json::Error`, carried but never looked into.
#[verifier::external_type_specification]
#[verifier::external_body]
pub struct ExJsonError(serde_json::Error);

/// What a `serde_json::Value` holds.
pub uninterp spec fn json_of(value: serde_json::Value) -> Json;

/// What a `serde_json::Number` holds.
pub uninterp spec fn number_of(number: serde_json::Number) -> JsonNumber;

/// The value that `serde_json::from_str` reads from a text, or `None` where it
/// reports an error.
pub uninterp spec fn parsed_json(text: Seq<char>) -> Option<Json>;

/// The compact text that `serde_json` writes for a value.
pub uninterp spec fn json_text(json: Json) -> Seq<char>;

/// The first entry under `key`.
pub open spec fn entry(entries: Seq<(Seq<char>, Json)>, key: Seq<char>) -> Option<Json>
    decreases entries.len(),
{
    if entries.len() == 0 {
        None
    } else if entries[0].0 == key {
        Some(entries[0].1)
    } else {
        entry(entries.drop_first(), key)
    }
}

/// The member of an object under `key`; nothing else has members.
pub open spec fn member(json: Json, key: Seq<char>) -> Option<Json> {
    match json {
        Json::Object(entries) => entry(entries, key),
        _ => None,
    }
}

/// The text in an optional value, where it is a string.
pub open spec fn as_text(json: Option<Json>) -> Option<Seq<char>> {
    match json {
        Some(Json::Str(s)) => Some(s),
        _ => None,
    }
}

/// The number in an optional value, where it is a non-negative integer.
pub open spec fn as_count(json: Option<Json>) -> Option<u64> {
    match json {
        Some(Json::Number(JsonNumber::PosInt(n))) => Some(n),
        _ => None,
    }
}

/// The truth value in an optional value, where it is one.
pub open spec fn as_flag(json: Option<Json>) -> Option<bool> {
    match json {
        Some(Json::Bool(b)) => Some(b),
        _ => None,
    }
}

/// The text of the string member under `key`.
pub open spec fn text_member(json: Json, key: Seq<char>) -> Option<Seq<char>> {
    as_text(member(json, key))
}

/// `Some` of a string or nothing: a string value, or null.
pub open spec fn text_or_null(text: Option<Seq<char>>) -> Json {
    match text {
        Some(s) => Json::Str(s),
        None => Json::Null,
    }
}

/// No key stands twice.
pub open spec fn distinct_keys(entries: Seq<(Seq<char>, Json)>) -> bool {
    forall|i: int, j: int| 0 <= i < j < entries.len() ==> #[trigger] entries[i].0 != #[trigger] entries[j].0
}

/// A key that begins with a dollar sign. Some of these have a meaning of their
/// own to `serde_json`.
pub open spec fn reserved(key: Seq<char>) -> bool {
    key.len() > 0 && key[0] == '$'
}

/// How deep `serde_json` reads: arrays and objects within one another.
pub const READING_DEPTH: u8 = 127;

/// A value without fractions and without reserved keys, in which no more than
/// `depth` arrays and objects stand within one another.
pub open spec fn exact(json: Json, depth: nat) -> bool
    decreases depth,
{
    match json {
        Json::Null => true,
        Json::Bool(_) => true,
        Json::Str(_) => true,
        Json::Number(JsonNumber::PosInt(_)) => true,
        Json::Number(JsonNumber::NegInt(n)) => n < 0,
        Json::Number(JsonNumber::Float(_)) => false,
        Json::Array(items) => {
            &&& depth > 0
            &&& forall|i: int|
                0 <= i < items.len() ==> exact(#[trigger] items[i], (depth - 1) as nat)
        },
        Json::Object(entries) => {
            &&& depth > 0
            &&& distinct_keys(entries)
            &&& forall|i: int|
                0 <= i < entries.len() ==> !reserved((#[trigger] entries[i]).0) && exact(
                    entries[i].1,
                    (depth - 1) as nat,
                )
        },
    }
}

/// A value that comes back unchanged when its text is read.
pub open spec fn readable(json: Json) -> bool {
    exact(json, READING_DEPTH as nat)
}

/// The model of a list of members.
pub open spec fn members_of(members: Seq<(String, serde_json::Value)>) -> Seq<(Seq<char>, Json)> {
    members.map_values(|m: (String, serde_json::Value)| (m.0@, json_of(m.1)))
}

/// The model of a list of values.
pub open spec fn items_of(values: Seq<serde_json::Value>) -> Seq<Json> {
    values.map_values(|v: serde_json::Value| json_of(v))
}

/// Calls `serde_json::from_str` for a `Value`. Claims that what is read, or
/// that nothing can be read, depends on the text alone.
#[verifier::external_body]
pub(crate) fn parse(text: &str) -> (r: Result<serde_json::Value, serde_json::Error>)
    ensures
        match r {
            Ok(value) => parsed_json(text@) == Some(json_of(value)),
            Err(_) => parsed_json(text@) is None,
        },
{
    serde_json::from_str(text)
}

/// Calls `Value::to_string`. Claims that the text depends on the value alone,
/// and that reading it back with `serde_json::from_str` gives the value again
/// where that is readable. Nothing is claimed of reading back other values:
/// numbers with a fraction may come back changed in the last place, deeper
/// nesting is refused, and some keys with a dollar sign have a meaning of their
/// own.
#[verifier::external_body]
pub(crate) fn to_text(value: &serde_json::Value) -> (r: String)
    ensures
        r@ == json_text(json_of(*value)),
        readable(json_of(*value)) ==> parsed_json(r@) == Some(json_of(*value)),
{
    value.to_string()
}

/// Calls `Value::get` with a string. Claims that it finds the member of an
/// object under the key, and nothing in any other value.
#[verifier::external_body]
pub(crate) fn get<'a>(value: &'a serde_json::Value, key: &str) -> (r: Option<&'a serde_json::Value>)
    ensures
        match r {
            Some(found) => member(json_of(*value), key@) == Some(json_of(*found)),
            None => member(json_of(*value), key@) is None,
        },
{
    value.get(key)
}

/// Calls `Value::as_str`. Claims that it gives the text of a string, and
/// nothing for any other value.
#[verifier::external_body]
pub(crate) fn as_str<'a>(value: &'a serde_json::Value) -> (r: Option<&'a str>)
    ensures
        match r {
            Some(s) => json_of(*value) == Json::Str(s@),
            None => !(json_of(*value) is Str),
        },
{
    value.as_str()
}

/// Calls `Value::as_u64`. Claims that it gives the value of a non-negative
/// integer, and nothing for any other value.
#[verifier::external_body]
pub(crate) fn as_u64(value: &serde_json::Value) -> (r: Option<u64>)
    ensures
        r == as_count(Some(json_of(*value))),
{
    value.as_u64()
}

/// Calls `Value::as_bool`. Claims that it gives a truth value, and nothing for
/// any other value.
#[verifier::external_body]
pub(crate) fn as_bool(value: &serde_json::Value) -> (r: Option<bool>)
    ensures
        r == as_flag(Some(json_of(*value))),
{
    value.as_bool()
}

/// Calls `Value::as_array`. Claims that it gives the items of an array, and
/// nothing for any other value.
#[verifier::external_body]
pub(crate) fn as_array<'a>(value: &'a serde_json::Value) -> (r: Option<&'a Vec<serde_json::Value>>)
    ensures
        match r {
            Some(items) => json_of(*value) == Json::Array(items_of(items@)),
            None => !(json_of(*value) is Array),
        },
{
    value.as_array()
}

/// Calls `Value::default`. Claims that it is null.
#[verifier::external_body]
pub(crate) fn null() -> (r: serde_json::Value)
    ensures
        json_of(r) == Json::Null,
{
    serde_json::Value::default()
}

/// Calls `Value::from` with a string. Claims that the result is that string.
#[verifier::external_body]
pub(crate) fn string(text: &str) -> (r: serde_json::Value)
    ensures
        json_of(r) == Json::Str(text@),
{
    serde_json::Value::from(text)
}

/// Calls `Value::from` with a truth value. Claims that the result is that value.
#[verifier::external_body]
pub(crate) fn flag(b: bool) -> (r: serde_json::Value)
    ensures
        json_of(r) == Json::Bool(b),
{
    serde_json::Value::from(b)
}

/// Calls `Value::from` with a `u64`. Claims that the result is that integer.
#[verifier::external_body]
pub(crate) fn count(n: u64) -> (r: serde_json::Value)
    ensures
        json_of(r) == Json::Number(JsonNumber::PosInt(n)),
{
    serde_json::Value::from(n)
}

/// Calls `Value::from` with a `Number`. Claims that the result is that number.
#[verifier::external_body]
pub(crate) fn number(n: serde_json::Number) -> (r: serde_json::Value)
    ensures
        json_of(r) == Json::Number(number_of(n)),
{
    serde_json::Value::from(n)
}

/// Calls `Value::from_iter` with a list of members. Claims that the result is
/// the object with these members in this order, where no key stands twice.
#[verifier::external_body]
pub(crate) fn object(members: Vec<(String, serde_json::Value)>) -> (r: serde_json::Value)
    requires
        distinct_keys(members_of(members@)),
    ensures
        json_of(r) == Json::Object(members_of(members@)),
{
    serde_json::Value::from_iter(members)
}

/// Calls `Value::from` with a list of values. Claims that the result is the
/// array of these values.
#[verifier::external_body]
pub(crate) fn array(items: Vec<serde_json::Value>) -> (r: serde_json::Value)
    ensures
        json_of(r) == Json::Array(items_of(items@)),
{
    serde_json::Value::from(items)
}

/// A member under `key`.
pub(crate) fn with_key(key: &str, value: serde_json::Value) -> (r: (String, serde_json::Value))
    ensures
        r.0@ == key@,
        r.1 == value,
{
    (key.to_string(), value)
}

/// A string, or null where there is none.
pub(crate) fn string_or_null(text: &Option<String>) -> (r: serde_json::Value)
    ensures
        json_of(r) == text_or_null(crate::text::opt_view(*text)),
{
    match text {
        Some(s) => string(s.as_str()),
        None => null(),
    }
}

/// The text of the string member under `key`.
pub(crate) fn get_str<'a>(value: &'a serde_json::Value, key: &str) -> (r: Option<&'a str>)
    ensures
        match r {
            Some(s) => text_member(json_of(*value), key@) == Some(s@),
            None => text_member(json_of(*value), key@) is None,
        },
{
    match get(value, key) {
        Some(found) => as_str(found),
        None => None,
    }
}

/// In a list without repeated keys, the entry under the key of position `i` is
/// the one at that position.
pub proof fn entry_found(entries: Seq<(Seq<char>, Json)>, i: int)
    requires
        distinct_keys(entries),
        0 <= i < entries.len(),
    ensures
        entry(entries, entries[i].0) == Some(entries[i].1),
    decreases entries.len(),
{
    if i > 0 {
        let rest = entries.drop_first();
        assert(entries[0].0 != entries[i].0);
        assert forall|a: int, b: int| 0 <= a < b < rest.len() implies #[trigger] rest[a].0
            != #[trigger] rest[b].0 by {
            assert(entries[a + 1].0 != entries[b + 1].0);
        }
        entry_found(rest, i - 1);
        assert(rest[i - 1] == entries[i]);
    }
}

/// A key that no entry bears has no entry.
pub proof fn entry_absent(entries: Seq<(Seq<char>, Json)>, key: Seq<char>)
    requires
        forall|i: int| 0 <= i < entries.len() ==> (#[trigger] entries[i]).0 != key,
    ensures
        entry(entries, key) is None,
    decreases entries.len(),
{
    if entries.len() > 0 {
        let rest = entries.drop_first();
        assert forall|i: int| 0 <= i < rest.len() implies (#[trigger] rest[i]).0 != key by {
            assert(rest[i] == entries[i + 1]);
        }
        entry_absent(rest, key);
    }
}

} // verus!
