//! A JSON document as the logic reads it: the variants of a JSON value, with
//! numbers kept as their text.

use vstd::prelude::*;
use crate::text::same_text;

verus! {

/// A JSON value. Numbers are kept as their text, members of an object in
/// their order.
pub enum JsonValue {
    Null,
    Bool(bool),
    Number(String),
    Str(String),
    Array(Vec<JsonValue>),
    Object(Vec<(String, JsonValue)>),
}

/// The value of the first member of `entries` named `key`, if any.
pub open spec fn first_member(entries: Seq<(String, JsonValue)>, key: Seq<char>) -> Option<JsonValue>
    decreases entries.len(),
{
    if entries.len() == 0 {
        None
    } else if entries[0].0@ == key {
        Some(entries[0].1)
    } else {
        first_member(entries.drop_first(), key)
    }
}

/// The member `key` of `v`: `None` where `v` is no object or has no such
/// member (indexing a JSON value by a missing key gives null).
pub open spec fn json_member(v: JsonValue, key: Seq<char>) -> Option<JsonValue> {
    match v {
        JsonValue::Object(entries) => first_member(entries@, key),
        _ => None,
    }
}

/// The text of `v` where it is a JSON string.
pub open spec fn json_text(v: JsonValue) -> Option<Seq<char>> {
    match v {
        JsonValue::Str(s) => Some(s@),
        _ => None,
    }
}

/// The elements of `v` where it is a JSON array.
pub open spec fn json_elements(v: JsonValue) -> Option<Seq<JsonValue>> {
    match v {
        JsonValue::Array(items) => Some(items@),
        _ => None,
    }
}

impl JsonValue {
    /// The member `key` of this value (see `json_member`).
    pub fn member(&self, key: &str) -> (m: Option<&JsonValue>)
        ensures
            match m {
                Some(x) => json_member(*self, key@) == Some(*x),
                None => json_member(*self, key@) is None,
            },
    {
        match self {
            JsonValue::Object(entries) => {
                let mut i: usize = 0;
                assert(entries@.skip(0) =~= entries@);
                while i < entries.len()
                    invariant
                        i <= entries@.len(),
                        json_member(*self, key@) == first_member(entries@, key@),
                        first_member(entries@, key@) == first_member(entries@.skip(i as int), key@),
                    decreases entries@.len() - i,
                {
                    let ghost rest = entries@.skip(i as int);
                    assert(rest[0] == entries@[i as int]);
                    assert(rest.drop_first() =~= entries@.skip(i + 1));
                    if same_text(entries[i].0.as_str(), key) {
                        return Some(&entries[i].1);
                    }
                    i = i + 1;
                }
                None
            },
            _ => None,
        }
    }

    /// The elements of this value where it is an array.
    pub fn as_array(&self) -> (a: Option<&Vec<JsonValue>>)
        ensures
            match a {
                Some(x) => json_elements(*self) == Some(x@),
                None => json_elements(*self) is None,
            },
    {
        match self {
            JsonValue::Array(items) => Some(items),
            _ => None,
        }
    }

    /// The text of this value where it is a string.
    pub fn as_str(&self) -> (t: Option<&str>)
        ensures
            match t {
                Some(x) => json_text(*self) == Some(x@),
                None => json_text(*self) is None,
            },
    {
        match self {
            JsonValue::Str(s) => Some(s.as_str()),
            _ => None,
        }
    }
}

} // verus!
