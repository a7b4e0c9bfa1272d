//! A JSON document as the library reads it.
//!
//! Numbers are carried as the bit pattern of the `f32` nearest to their
//! value, which is all the library reads of them.
use vstd::prelude::*;
use crate::text::{chars_of, chars_eq};

verus! {

/// A JSON number.
#[derive(Debug, Clone, Copy)]
pub struct JsonNumber {
    /// The IEEE-754 bits of the number read as `f64`, then rounded to `f32`
    pub f32_bits: u32,
}

/// A JSON value.  Object members keep their order; keys are distinct.
#[derive(Debug)]
pub enum JsonValue {
    Null,
    Bool(bool),
    Number(JsonNumber),
    Str(String),
    Array(Vec<JsonValue>),
    Object(Vec<(String, JsonValue)>),
}

/// The member `key` of an object, if `v` is an object that has one.
pub open spec fn member(v: JsonValue, key: Seq<char>) -> Option<JsonValue> {
    match v {
        JsonValue::Object(entries) => member_of(entries@, key),
        _ => None,
    }
}

/// The value of the first entry named `key`.
pub open spec fn member_of(entries: Seq<(String, JsonValue)>, key: Seq<char>) -> Option<JsonValue>
    decreases entries.len(),
{
    if entries.len() == 0 {
        None
    } else if entries[0].0@ == key {
        Some(entries[0].1)
    } else {
        member_of(entries.drop_first(), key)
    }
}

/// `v[key]`: the member, or null when there is none.
pub open spec fn at_key(v: JsonValue, key: Seq<char>) -> JsonValue {
    match member(v, key) {
        Some(m) => m,
        None => JsonValue::Null,
    }
}

/// `v[i]`: the element of an array, or null when there is none.
pub open spec fn at_index(v: JsonValue, i: int) -> JsonValue {
    match v {
        JsonValue::Array(items) => if 0 <= i < items@.len() {
            items@[i]
        } else {
            JsonValue::Null
        },
        _ => JsonValue::Null,
    }
}

/// The text of a string value.
pub open spec fn as_text(v: JsonValue) -> Option<Seq<char>> {
    match v {
        JsonValue::Str(s) => Some(s@),
        _ => None,
    }
}

/// The member `key` of `v`.
pub fn get<'a>(v: &'a JsonValue, key: &str) -> (r: Option<&'a JsonValue>)
    ensures
        match r {
            Some(m) => member(*v, key@) == Some(*m),
            None => member(*v, key@) is None,
        },
{
    match v {
        JsonValue::Object(entries) => {
            let want = chars_of(key);
            let mut i: usize = 0;
            assert(entries@.skip(0) =~= entries@);
            while i < entries.len()
                invariant
                    i <= entries@.len(),
                    want@ == key@,
                    *v == JsonValue::Object(*entries),
                    member_of(entries@, key@) == member_of(entries@.skip(i as int), key@),
                decreases entries@.len() - i,
            {
                assert(entries@.skip(i as int).drop_first() =~= entries@.skip(i + 1));
                assert(entries@.skip(i as int)[0] == entries@[i as int]);
                let have = chars_of(entries[i].0.as_str());
                if chars_eq(have.as_slice(), want.as_slice()) {
                    assert(entries@[i as int].0@ == key@);
                    assert(member_of(entries@.skip(i as int), key@) == Some(entries@[i as int].1));
                    return Some(&entries[i].1);
                }
                i = i + 1;
            }
            assert(entries@.skip(i as int) =~= Seq::<(String, JsonValue)>::empty());
            None
        },
        _ => None,
    }
}

/// The text of `v[key]`, if it is a string.
pub fn text_at(v: &JsonValue, key: &str) -> (r: Option<String>)
    ensures
        match r {
            Some(t) => as_text(at_key(*v, key@)) == Some(t@),
            None => as_text(at_key(*v, key@)) is None,
        },
{
    match get(v, key) {
        Some(JsonValue::Str(s)) => Some(s.clone()),
        _ => None,
    }
}

/// `v[key]`, or null.
pub fn index_key<'a>(v: &'a JsonValue, key: &str, null: &'a JsonValue) -> (r: &'a JsonValue)
    requires
        *null == JsonValue::Null,
    ensures
        *r == at_key(*v, key@),
{
    match get(v, key) {
        Some(m) => m,
        None => null,
    }
}

/// `v[i]`, or null.
pub fn index_pos<'a>(v: &'a JsonValue, i: usize, null: &'a JsonValue) -> (r: &'a JsonValue)
    requires
        *null == JsonValue::Null,
    ensures
        *r == at_index(*v, i as int),
{
    match v {
        JsonValue::Array(items) => {
            if i < items.len() {
                &items[i]
            } else {
                null
            }
        },
        _ => null,
    }
}

/// The text of a string value.
pub fn str_of(v: &JsonValue) -> (r: Option<String>)
    ensures
        match r {
            Some(t) => as_text(*v) == Some(t@),
            None => as_text(*v) is None,
        },
{
    match v {
        JsonValue::Str(s) => Some(s.clone()),
        _ => None,
    }
}

} // verus!
