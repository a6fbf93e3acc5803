//! A JSON value as the router reads it: the parsed form of one incoming message.
use vstd::prelude::*;

verus! {

/// A JSON number, in the three forms a parser yields.
#[derive(Clone, Debug, PartialEq, Eq, Structural)]
pub enum JsonNumber {
    /// A non-negative integer.
    PosInt(u64),
    /// A negative integer.
    NegInt(i64),
    /// A finite floating-point number, held as the bits of its IEEE 754 double.
    Float(u64),
}

/// A JSON value. An object keeps its members in order, each key once.
#[derive(Debug)]
pub enum Json {
    Null,
    Bool(bool),
    Number(JsonNumber),
    String(String),
    Array(Vec<Json>),
    Object(Vec<(String, Json)>),
}

/// The value of the first member named `key`.
pub open spec fn member(entries: Seq<(String, Json)>, key: Seq<char>) -> Option<Json>
    decreases entries.len(),
{
    if entries.len() == 0 {
        None
    } else if entries[0].0@ == key {
        Some(entries[0].1)
    } else {
        member(entries.skip(1), key)
    }
}

/// The member `key` of `v`, when `v` is an object that has one.
pub open spec fn field(v: Json, key: Seq<char>) -> Option<Json> {
    match v {
        Json::Object(entries) => member(entries@, key),
        _ => None,
    }
}

/// `v` read as a `u32`, when it is an integer in its range.
pub open spec fn as_u32(v: Json) -> Option<u32> {
    match v {
        Json::Number(JsonNumber::PosInt(u)) => if u <= u32::MAX {
            Some(u as u32)
        } else {
            None
        },
        _ => None,
    }
}

/// `v` read as an `i32`, when it is an integer in its range.
pub open spec fn as_i32(v: Json) -> Option<i32> {
    match v {
        Json::Number(JsonNumber::PosInt(u)) => if u <= i32::MAX {
            Some(u as i32)
        } else {
            None
        },
        Json::Number(JsonNumber::NegInt(i)) => if i32::MIN <= i <= i32::MAX {
            Some(i as i32)
        } else {
            None
        },
        _ => None,
    }
}

/// `v` read as a `usize`, when it is an integer in its range.
pub open spec fn as_usize(v: Json) -> Option<usize> {
    match v {
        Json::Number(JsonNumber::PosInt(u)) => if u <= usize::MAX {
            Some(u as usize)
        } else {
            None
        },
        _ => None,
    }
}

/// `v` read as a string.
pub open spec fn as_string(v: Json) -> Option<String> {
    match v {
        Json::String(s) => Some(s),
        _ => None,
    }
}

/// Looks up the member `key` of `v`.
pub fn get_field<'a>(v: &'a Json, key: &str) -> (r: Option<&'a Json>)
    ensures
        match r {
            Some(x) => field(*v, key@) == Some(*x),
            None => field(*v, key@) is None,
        },
{
    match v {
        Json::Object(entries) => {
            let wanted = key.to_owned();
            let mut i: usize = 0;
            assert(entries@.skip(0) == entries@);
            while i < entries.len()
                invariant
                    i <= entries@.len(),
                    wanted@ == key@,
                    field(*v, key@) == member(entries@, key@),
                    member(entries@, key@) == member(entries@.skip(i as int), key@),
                decreases entries.len() - i,
            {
                assert(entries@.skip(i as int)[0] == entries@[i as int]);
                if entries[i].0 == wanted {
                    assert(entries@.skip(i as int)[0].0@ == key@);
                    return Some(&entries[i].1);
                }
                assert(entries@.skip(i as int).skip(1) == entries@.skip(i + 1));
                i += 1;
            }
            None
        },
        _ => None,
    }
}

/// Reads `v` as a `u32`.
pub fn json_u32(v: &Json) -> (r: Option<u32>)
    ensures
        r == as_u32(*v),
{
    match v {
        Json::Number(JsonNumber::PosInt(u)) => if *u <= u32::MAX as u64 {
            Some(*u as u32)
        } else {
            None
        },
        _ => None,
    }
}

/// Reads `v` as an `i32`.
pub fn json_i32(v: &Json) -> (r: Option<i32>)
    ensures
        r == as_i32(*v),
{
    match v {
        Json::Number(JsonNumber::PosInt(u)) => if *u <= i32::MAX as u64 {
            Some(*u as i32)
        } else {
            None
        },
        Json::Number(JsonNumber::NegInt(i)) => if i32::MIN as i64 <= *i && *i <= i32::MAX as i64 {
            Some(*i as i32)
        } else {
            None
        },
        _ => None,
    }
}

/// Reads `v` as a `usize`.
pub fn json_usize(v: &Json) -> (r: Option<usize>)
    ensures
        r == as_usize(*v),
{
    match v {
        Json::Number(JsonNumber::PosInt(u)) => if *u <= usize::MAX as u64 {
            Some(*u as usize)
        } else {
            None
        },
        _ => None,
    }
}

/// Reads `v` as a string.
pub fn json_string_value(v: &Json) -> (r: Option<String>)
    ensures
        r == as_string(*v),
{
    match v {
        Json::String(s) => Some(s.clone()),
        _ => None,
    }
}

} // verus!
