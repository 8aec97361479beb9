//! JSON values as the tool parsers read them: the arguments the narrator
//! model passes with a tool call, already decoded.

use vstd::prelude::*;
use crate::text::{opt_view, str_eq, strings_view};

verus! {

/// A JSON number, by what the parsers read of it.
#[derive(Debug, Clone, Copy)]
pub struct JsonNumber {
    /// Its value when it was written as a whole number (no fraction, no
    /// exponent); a decoder keeps these within `i64::MIN..=u64::MAX`.
    pub whole: Option<i128>,
    /// The bits of the `f32` nearest to it.
    pub f32_bits: u32,
}

/// A decoded JSON value. An object keeps its entries in order.
#[derive(Debug)]
pub enum JsonValue {
    Null,
    Bool(bool),
    Number(JsonNumber),
    String(String),
    Array(Vec<JsonValue>),
    Object(Vec<(String, JsonValue)>),
}

/// The value of the first entry at or after `i` whose key is `key`.
pub open spec fn entry_from(entries: Seq<(String, JsonValue)>, key: Seq<char>, i: int) -> Option<JsonValue>
    decreases entries.len() - i,
{
    if i < 0 || i >= entries.len() {
        None
    } else if entries[i].0@ == key {
        Some(entries[i].1)
    } else {
        entry_from(entries, key, i + 1)
    }
}

/// The value under `key`, when `v` is an object with that key.
pub open spec fn json_field(v: JsonValue, key: Seq<char>) -> Option<JsonValue> {
    match v {
        JsonValue::Object(entries) => entry_from(entries@, key, 0),
        _ => None,
    }
}

/// The string under `key`, if that is a string.
pub open spec fn field_str_of(v: JsonValue, key: Seq<char>) -> Option<Seq<char>> {
    match json_field(v, key) {
        Some(JsonValue::String(s)) => Some(s@),
        _ => None,
    }
}

/// The number under `key`, if it is whole and fits in a `u64`.
pub open spec fn field_u64_of(v: JsonValue, key: Seq<char>) -> Option<u64> {
    match json_field(v, key) {
        Some(JsonValue::Number(n)) => match n.whole {
            Some(w) => if 0 <= w <= u64::MAX { Some(w as u64) } else { None },
            None => None,
        },
        _ => None,
    }
}

/// The number under `key`, if it is whole and fits in an `i64`.
pub open spec fn field_i64_of(v: JsonValue, key: Seq<char>) -> Option<i64> {
    match json_field(v, key) {
        Some(JsonValue::Number(n)) => match n.whole {
            Some(w) => if i64::MIN <= w <= i64::MAX { Some(w as i64) } else { None },
            None => None,
        },
        _ => None,
    }
}

/// The boolean under `key`, if that is a boolean.
pub open spec fn field_bool_of(v: JsonValue, key: Seq<char>) -> Option<bool> {
    match json_field(v, key) {
        Some(JsonValue::Bool(b)) => Some(b),
        _ => None,
    }
}

/// The bits of the `f32` nearest to the number under `key`, if that is a
/// number of any kind.
pub open spec fn field_f32_bits_of(v: JsonValue, key: Seq<char>) -> Option<u32> {
    match json_field(v, key) {
        Some(JsonValue::Number(n)) => Some(n.f32_bits),
        _ => None,
    }
}

/// The strings of a list, in order, skipping whatever is not a string.
pub open spec fn string_items(items: Seq<JsonValue>) -> Seq<Seq<char>>
    decreases items.len(),
{
    if items.len() == 0 {
        Seq::empty()
    } else {
        let rest = string_items(items.drop_last());
        match items.last() {
            JsonValue::String(s) => rest.push(s@),
            _ => rest,
        }
    }
}

/// The strings of the list under `key`; none when there is no list there.
pub open spec fn field_strings_of(v: JsonValue, key: Seq<char>) -> Seq<Seq<char>> {
    match json_field(v, key) {
        Some(JsonValue::Array(items)) => string_items(items@),
        _ => Seq::empty(),
    }
}

impl JsonValue {
    /// The value under `key`, when this is an object with that key.
    pub fn get(&self, key: &str) -> (r: Option<&JsonValue>)
        ensures
            match r {
                Some(x) => json_field(*self, key@) == Some(*x),
                None => json_field(*self, key@) is None,
            },
    {
        match self {
            JsonValue::Object(entries) => {
                let mut i: usize = 0;
                assert(json_field(*self, key@) == entry_from(entries@, key@, 0));
                while i < entries.len()
                    invariant
                        0 <= i <= entries@.len(),
                        json_field(*self, key@) == entry_from(entries@, key@, i as int),
                    decreases entries@.len() - i,
                {
                    if str_eq(entries[i].0.as_str(), key) {
                        assert(entry_from(entries@, key@, i as int) == Some(entries@[i as int].1));
                        return Some(&entries[i].1);
                    }
                    i = i + 1;
                }
                None
            },
            _ => None,
        }
    }
}

/// A copy of the string under `key`.
pub fn field_str(v: &JsonValue, key: &str) -> (r: Option<String>)
    ensures
        opt_view(r) == field_str_of(*v, key@),
{
    match v.get(key) {
        Some(JsonValue::String(s)) => Some(s.clone()),
        _ => None,
    }
}

/// The whole number under `key`, if it fits in a `u64`.
pub fn field_u64(v: &JsonValue, key: &str) -> (r: Option<u64>)
    ensures
        r == field_u64_of(*v, key@),
{
    match v.get(key) {
        Some(JsonValue::Number(n)) => match n.whole {
            Some(w) => if 0 <= w && w <= 0xffff_ffff_ffff_ffffi128 { Some(w as u64) } else { None },
            None => None,
        },
        _ => None,
    }
}

/// The whole number under `key`, if it fits in an `i64`.
pub fn field_i64(v: &JsonValue, key: &str) -> (r: Option<i64>)
    ensures
        r == field_i64_of(*v, key@),
{
    match v.get(key) {
        Some(JsonValue::Number(n)) => match n.whole {
            Some(w) => if -0x8000_0000_0000_0000i128 <= w && w <= 0x7fff_ffff_ffff_ffffi128 {
                Some(w as i64)
            } else {
                None
            },
            None => None,
        },
        _ => None,
    }
}

/// The boolean under `key`.
pub fn field_bool(v: &JsonValue, key: &str) -> (r: Option<bool>)
    ensures
        r == field_bool_of(*v, key@),
{
    match v.get(key) {
        Some(JsonValue::Bool(b)) => Some(*b),
        _ => None,
    }
}

/// The `f32` bits of the number under `key`.
pub fn field_f32_bits(v: &JsonValue, key: &str) -> (r: Option<u32>)
    ensures
        r == field_f32_bits_of(*v, key@),
{
    match v.get(key) {
        Some(JsonValue::Number(n)) => Some(n.f32_bits),
        _ => None,
    }
}

fn string_items_in(items: &Vec<JsonValue>) -> (r: Vec<String>)
    ensures
        strings_view(r@) == string_items(items@),
{
    let mut r: Vec<String> = Vec::new();
    let mut i: usize = 0;
    while i < items.len()
        invariant
            0 <= i <= items@.len(),
            strings_view(r@) == string_items(items@.take(i as int)),
        decreases items@.len() - i,
    {
        proof {
            assert(items@.take(i + 1).drop_last() =~= items@.take(i as int));
            assert(items@.take(i + 1).last() == items@[i as int]);
        }
        match &items[i] {
            JsonValue::String(s) => {
                let ghost before = r@;
                r.push(s.clone());
                assert(strings_view(r@) =~= strings_view(before).push(s@));
            },
            _ => {},
        }
        i = i + 1;
    }
    assert(items@.take(items@.len() as int) =~= items@);
    r
}

/// The strings of the list under `key`, in order; other items are skipped,
/// and there are none when no list is there.
pub fn field_strings(v: &JsonValue, key: &str) -> (r: Vec<String>)
    ensures
        strings_view(r@) == field_strings_of(*v, key@),
{
    match v.get(key) {
        Some(JsonValue::Array(items)) => string_items_in(items),
        _ => {
            let r: Vec<String> = Vec::new();
            assert(strings_view(r@) =~= Seq::<Seq<char>>::empty());
            r
        },
    }
}

} // verus!
