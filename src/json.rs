//! A structured value as the remote end hands it over, and the decoding of one
//! console entry out of it.
use vstd::prelude::*;
use crate::text::text_eq;

verus! {

/// A number as the decoder tells it apart: a non-negative integer, a negative
/// one, or anything else (a fraction or an exponent).
#[derive(Debug, Clone, Copy, PartialEq, Eq, Structural)]
pub enum JsonNumber {
    PosInt(u64),
    NegInt(i64),
    Float,
}

/// A structured value: null, a boolean, a number, a string, an array, or an
/// object given as its (key, value) pairs in order.
#[derive(Debug)]
pub enum Json {
    Null,
    Bool(bool),
    Number(JsonNumber),
    Str(String),
    Array(Vec<Json>),
    Object(Vec<(String, Json)>),
}

/// One console entry. Only `message` is shown; the rest is kept as received.
#[derive(Debug)]
pub struct ConsoleItem {
    pub message: String,
    pub level: String,
    pub source: String,
    pub timestamp: u64,
}

impl Default for ConsoleItem {
    /// The zero-value entry that stands in for one that does not decode.
    fn default() -> (r: Self)
        ensures
            r.message@ == Seq::<char>::empty(),
            r.level@ == Seq::<char>::empty(),
            r.source@ == Seq::<char>::empty(),
            r.timestamp == 0,
    {
        ConsoleItem {
            message: String::new(),
            level: String::new(),
            source: String::new(),
            timestamp: 0,
        }
    }
}

/// The value under the first occurrence of `key` among the fields.
pub open spec fn field(fields: Seq<(String, Json)>, key: Seq<char>) -> Option<Json>
    decreases fields.len(),
{
    if fields.len() == 0 {
        None
    } else if fields[0].0@ == key {
        Some(fields[0].1)
    } else {
        field(fields.drop_first(), key)
    }
}

/// The string under `key`, if there is one.
pub open spec fn text_field(fields: Seq<(String, Json)>, key: Seq<char>) -> Option<Seq<char>> {
    match field(fields, key) {
        Some(Json::Str(s)) => Some(s@),
        _ => None,
    }
}

/// The non-negative integer under `key`, if there is one.
pub open spec fn count_field(fields: Seq<(String, Json)>, key: Seq<char>) -> Option<u64> {
    match field(fields, key) {
        Some(Json::Number(JsonNumber::PosInt(n))) => Some(n),
        _ => None,
    }
}

/// The string held by `v`, if it is one.
pub open spec fn text_value(v: Json) -> Option<Seq<char>> {
    match v {
        Json::Str(s) => Some(s@),
        _ => None,
    }
}

/// The non-negative integer held by `v`, if it is one.
pub open spec fn count_value(v: Json) -> Option<u64> {
    match v {
        Json::Number(JsonNumber::PosInt(n)) => Some(n),
        _ => None,
    }
}

/// Whether `v` has the shape of a console entry: either an object with string
/// fields `message`, `level` and `source` and a non-negative integer
/// `timestamp` (other fields are ignored), or an array of exactly those four
/// values in that order.
pub open spec fn is_entry(v: Json) -> bool {
    match v {
        Json::Object(fields) => {
            &&& text_field(fields@, "message"@) is Some
            &&& text_field(fields@, "level"@) is Some
            &&& text_field(fields@, "source"@) is Some
            &&& count_field(fields@, "timestamp"@) is Some
        },
        Json::Array(items) => {
            &&& items@.len() == 4
            &&& text_value(items@[0]) is Some
            &&& text_value(items@[1]) is Some
            &&& text_value(items@[2]) is Some
            &&& count_value(items@[3]) is Some
        },
        _ => false,
    }
}

/// The message of `v` when it decodes as an entry, else the zero-value
/// entry's empty message.
pub open spec fn message_of(v: Json) -> Seq<char> {
    if !is_entry(v) {
        Seq::empty()
    } else {
        match v {
            Json::Object(fields) => text_field(fields@, "message"@)->0,
            Json::Array(items) => text_value(items@[0])->0,
            _ => Seq::empty(),
        }
    }
}

/// Looks up the first field named `key`.
fn lookup<'a>(fields: &'a Vec<(String, Json)>, key: &str) -> (r: Option<&'a Json>)
    ensures
        match field(fields@, key@) {
            Some(v) => r == Some(&v),
            None => r is None,
        },
{
    let mut i: usize = 0;
    assert(fields@.subrange(0, fields@.len() as int) =~= fields@);
    while i < fields.len()
        invariant
            i <= fields@.len(),
            field(fields@, key@) == field(fields@.subrange(i as int, fields@.len() as int), key@),
        decreases fields.len() - i,
    {
        let ghost rest = fields@.subrange(i as int, fields@.len() as int);
        if text_eq(fields[i].0.as_str(), key) {
            return Some(&fields[i].1);
        }
        assert(rest.drop_first() =~= fields@.subrange(i + 1, fields@.len() as int));
        i = i + 1;
    }
    None
}

fn text_at(fields: &Vec<(String, Json)>, key: &str) -> (r: Option<String>)
    ensures
        match text_field(fields@, key@) {
            Some(s) => r is Some && r->0@ == s,
            None => r is None,
        },
{
    match lookup(fields, key) {
        Some(Json::Str(s)) => Some(s.clone()),
        _ => None,
    }
}

fn count_at(fields: &Vec<(String, Json)>, key: &str) -> (r: Option<u64>)
    ensures
        r == count_field(fields@, key@),
{
    match lookup(fields, key) {
        Some(Json::Number(JsonNumber::PosInt(n))) => Some(*n),
        _ => None,
    }
}

fn text_in(v: &Json) -> (r: Option<String>)
    ensures
        match text_value(*v) {
            Some(s) => r is Some && r->0@ == s,
            None => r is None,
        },
{
    match v {
        Json::Str(s) => Some(s.clone()),
        _ => None,
    }
}

fn count_in(v: &Json) -> (r: Option<u64>)
    ensures
        r == count_value(*v),
{
    match v {
        Json::Number(JsonNumber::PosInt(n)) => Some(*n),
        _ => None,
    }
}

/// Decodes one console entry; `None` when `v` does not have an entry's shape.
pub fn decode_entry(v: &Json) -> (r: Option<ConsoleItem>)
    ensures
        r is Some <==> is_entry(*v),
        r is Some ==> match *v {
            Json::Object(fields) => {
                &&& r->0.message@ == text_field(fields@, "message"@)->0
                &&& r->0.level@ == text_field(fields@, "level"@)->0
                &&& r->0.source@ == text_field(fields@, "source"@)->0
                &&& r->0.timestamp == count_field(fields@, "timestamp"@)->0
            },
            Json::Array(items) => {
                &&& r->0.message@ == text_value(items@[0])->0
                &&& r->0.level@ == text_value(items@[1])->0
                &&& r->0.source@ == text_value(items@[2])->0
                &&& r->0.timestamp == count_value(items@[3])->0
            },
            _ => false,
        },
{
    let (message, level, source, timestamp) = match v {
        Json::Object(fields) => (
            text_at(fields, "message"),
            text_at(fields, "level"),
            text_at(fields, "source"),
            count_at(fields, "timestamp"),
        ),
        Json::Array(items) => {
            if items.len() != 4 {
                return None;
            }
            (text_in(&items[0]), text_in(&items[1]), text_in(&items[2]), count_in(&items[3]))
        },
        _ => return None,
    };
    match (message, level, source, timestamp) {
        (Some(message), Some(level), Some(source), Some(timestamp)) => Some(
            ConsoleItem { message, level, source, timestamp },
        ),
        _ => None,
    }
}

/// Decodes one console entry, falling back to the zero-value entry.
pub fn entry_or_default(v: &Json) -> (r: ConsoleItem)
    ensures
        r.message@ == message_of(*v),
        !is_entry(*v) ==> r.message@ == Seq::<char>::empty() && r.timestamp == 0,
{
    match decode_entry(v) {
        Some(item) => item,
        None => ConsoleItem::default(),
    }
}

} // verus!
