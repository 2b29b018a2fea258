//! A JSON document as plain values, and the lookups that the GitHub
//! responses are read with.
use vstd::prelude::*;

use crate::text::text_eq;

verus! {

/// A JSON value. Numbers are kept as their text; object members keep their
/// order and the first member of a name is the one that counts.
pub enum JsonValue {
    Null,
    Bool(bool),
    Number(String),
    Str(String),
    Array(Vec<JsonValue>),
    Object(Vec<(String, JsonValue)>),
}

/// The index of the first member named `key`, or -1.
pub open spec fn member_index(fields: Seq<(String, JsonValue)>, key: Seq<char>) -> int
    decreases fields.len(),
{
    if fields.len() == 0 {
        -1
    } else if member_index(fields.drop_last(), key) >= 0 {
        member_index(fields.drop_last(), key)
    } else if fields.last().0@ == key {
        fields.len() - 1
    } else {
        -1
    }
}

pub proof fn lemma_member_index(fields: Seq<(String, JsonValue)>, key: Seq<char>)
    ensures
        -1 <= member_index(fields, key) < fields.len(),
        member_index(fields, key) >= 0 ==> fields[member_index(fields, key)].0@ == key,
        forall|k: int|
            0 <= k < fields.len() && (member_index(fields, key) < 0 || k < member_index(
                fields,
                key,
            )) ==> (#[trigger] fields[k]).0@ != key,
    decreases fields.len(),
{
    if fields.len() > 0 {
        lemma_member_index(fields.drop_last(), key);
        let prev = fields.drop_last();
        assert forall|k: int|
            0 <= k < prev.len() implies #[trigger] fields[k] == prev[k] by {}
    }
}

/// The member `key` of an object; none for other values or a missing member.
pub open spec fn get_member(v: JsonValue, key: Seq<char>) -> Option<JsonValue> {
    match v {
        JsonValue::Object(fields) => {
            let i = member_index(fields@, key);
            if i >= 0 {
                Some(fields@[i].1)
            } else {
                None
            }
        },
        _ => None,
    }
}

/// The member `key` of an optional value.
pub open spec fn get_opt(v: Option<JsonValue>, key: Seq<char>) -> Option<JsonValue> {
    match v {
        Some(x) => get_member(x, key),
        None => None,
    }
}

/// The text of a string value.
pub open spec fn str_of(v: Option<JsonValue>) -> Option<Seq<char>> {
    match v {
        Some(JsonValue::Str(s)) => Some(s@),
        _ => None,
    }
}

/// A boolean value, false when absent or of another kind.
pub open spec fn bool_or_false(v: Option<JsonValue>) -> bool {
    match v {
        Some(JsonValue::Bool(b)) => b,
        _ => false,
    }
}

/// The items of an array value.
pub open spec fn items_of(v: Option<JsonValue>) -> Option<Seq<JsonValue>> {
    match v {
        Some(JsonValue::Array(items)) => Some(items@),
        _ => None,
    }
}

impl JsonValue {
    /// The member `key` of an object (`Value::get` with a name).
    pub fn get(&self, key: &str) -> (r: Option<&JsonValue>)
        ensures
            match r {
                Some(x) => get_member(*self, key@) == Some(*x),
                None => get_member(*self, key@) is None,
            },
    {
        match self {
            JsonValue::Object(fields) => {
                let mut i: usize = 0;
                proof {
                    lemma_member_index(fields@, key@);
                }
                while i < fields.len()
                    invariant
                        *self == JsonValue::Object(*fields),
                        i <= fields.len(),
                        -1 <= member_index(fields@, key@) < fields.len(),
                        member_index(fields@, key@) >= 0 ==> fields@[member_index(
                            fields@,
                            key@,
                        )].0@ == key@,
                        forall|k: int|
                            0 <= k < fields.len() && (member_index(fields@, key@) < 0 || k
                                < member_index(fields@, key@)) ==> (#[trigger] fields@[k]).0@
                                != key@,
                        member_index(fields@, key@) < 0 || i <= member_index(fields@, key@),
                    decreases fields.len() - i,
                {
                    if text_eq(fields[i].0.as_str(), key) {
                        assert(fields@[i as int].0@ == key@);
                        return Some(&fields[i].1);
                    }
                    i = i + 1;
                }
                None
            },
            _ => None,
        }
    }

    /// The text of a string value (`Value::as_str`).
    pub fn as_str(&self) -> (r: Option<&str>)
        ensures
            match r {
                Some(s) => str_of(Some(*self)) == Some(s@),
                None => str_of(Some(*self)) is None,
            },
    {
        match self {
            JsonValue::Str(s) => Some(s.as_str()),
            _ => None,
        }
    }

    /// The value of a boolean (`Value::as_bool`).
    pub fn as_bool(&self) -> (r: Option<bool>)
        ensures
            r == (match *self {
                JsonValue::Bool(b) => Some(b),
                _ => None,
            }),
    {
        match self {
            JsonValue::Bool(b) => Some(*b),
            _ => None,
        }
    }

    /// The items of an array (`Value::as_array`).
    pub fn as_array(&self) -> (r: Option<&Vec<JsonValue>>)
        ensures
            match r {
                Some(items) => items_of(Some(*self)) == Some(items@),
                None => items_of(Some(*self)) is None,
            },
    {
        match self {
            JsonValue::Array(items) => Some(items),
            _ => None,
        }
    }
}

/// The member `key` of an optional value.
pub fn get_in<'a>(v: Option<&'a JsonValue>, key: &str) -> (r: Option<&'a JsonValue>)
    ensures
        match r {
            Some(x) => get_opt(opt_value(v), key@) == Some(*x),
            None => get_opt(opt_value(v), key@) is None,
        },
{
    match v {
        Some(x) => x.get(key),
        None => None,
    }
}

/// The value behind an optional reference.
pub open spec fn opt_value(v: Option<&JsonValue>) -> Option<JsonValue> {
    match v {
        Some(x) => Some(*x),
        None => None,
    }
}

/// The text of an optional string value.
pub fn str_in<'a>(v: Option<&'a JsonValue>) -> (r: Option<&'a str>)
    ensures
        match r {
            Some(s) => str_of(opt_value(v)) == Some(s@),
            None => str_of(opt_value(v)) is None,
        },
{
    match v {
        Some(x) => x.as_str(),
        None => None,
    }
}

/// An optional boolean value, false when absent.
pub fn bool_in(v: Option<&JsonValue>) -> (r: bool)
    ensures
        r == bool_or_false(opt_value(v)),
{
    match v {
        Some(x) => match x.as_bool() {
            Some(b) => b,
            None => false,
        },
        None => false,
    }
}

/// The items of an optional array value.
pub fn items_in<'a>(v: Option<&'a JsonValue>) -> (r: Option<&'a Vec<JsonValue>>)
    ensures
        match r {
            Some(items) => items_of(opt_value(v)) == Some(items@),
            None => items_of(opt_value(v)) is None,
        },
{
    match v {
        Some(x) => x.as_array(),
        None => None,
    }
}

} // verus!
