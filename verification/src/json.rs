//! A plain model of the loosely-typed documents some upstream endpoints
//! return: only what the gateway reads is represented. Numbers upstream
//! reports within `u64` stand as `UInt`, negative integers as `Int`, and any
//! other number as its decimal text, so no field of the profile merge is
//! lost even when upstream sends a fraction.

use vstd::prelude::*;
use vstd::string::*;

use crate::strutil::{dec_rep, int_dec_rep, str_eq, i64_to_string, u64_to_string};

verus! {

/// One node of an upstream document.
#[derive(Debug)]
pub enum JsonValue {
    Null,
    Bool(bool),
    /// A number within `u64`, the only kind read as a count.
    UInt(u64),
    /// A negative integer.
    Int(i64),
    /// Any other number, as its decimal text.
    Num(String),
    Str(String),
    Arr(Vec<JsonValue>),
    Obj(Vec<(String, JsonValue)>),
}

/// The value under the first field named `k`, or `Null` when absent.
pub open spec fn spec_obj_get(fields: Seq<(String, JsonValue)>, k: Seq<char>) -> JsonValue
    decreases fields.len(),
{
    if fields.len() == 0 {
        JsonValue::Null
    } else if fields[0].0@ == k {
        fields[0].1
    } else {
        spec_obj_get(fields.drop_first(), k)
    }
}

/// Indexing as the permissive reads do: a missing field, or indexing into
/// anything but an object, yields `Null`.
pub open spec fn spec_index(v: JsonValue, k: Seq<char>) -> JsonValue {
    match v {
        JsonValue::Obj(fields) => spec_obj_get(fields@, k),
        _ => JsonValue::Null,
    }
}

/// The value as a count: a number within `u64`, or the default.
pub open spec fn spec_as_u64_or(v: JsonValue, d: u64) -> u64 {
    match v {
        JsonValue::UInt(u) => u,
        _ => d,
    }
}

/// The value as text: a string, or the default.
pub open spec fn spec_as_str_or(v: JsonValue, d: Seq<char>) -> Seq<char> {
    match v {
        JsonValue::Str(s) => s@,
        _ => d,
    }
}

/// The value as a number's decimal text, with `0` standing in for anything
/// that is not a number — the permissive zero default of the profile merge.
pub open spec fn spec_num_text(v: JsonValue) -> Seq<char> {
    match v {
        JsonValue::UInt(u) => dec_rep(u as nat),
        JsonValue::Int(i) => int_dec_rep(i as int),
        JsonValue::Num(t) => t@,
        _ => "0"@,
    }
}

proof fn lemma_obj_get_found(fields: Seq<(String, JsonValue)>, k: Seq<char>, i: int)
    requires
        0 <= i < fields.len(),
        forall|j: int| 0 <= j < i ==> fields[j].0@ != k,
        fields[i].0@ == k,
    ensures
        spec_obj_get(fields, k) == fields[i].1,
    decreases fields.len(),
{
    if i > 0 {
        lemma_obj_get_found(fields.drop_first(), k, i - 1);
    }
}

proof fn lemma_obj_get_missing(fields: Seq<(String, JsonValue)>, k: Seq<char>)
    requires
        forall|j: int| 0 <= j < fields.len() ==> fields[j].0@ != k,
    ensures
        spec_obj_get(fields, k) == JsonValue::Null,
    decreases fields.len(),
{
    if fields.len() > 0 {
        lemma_obj_get_missing(fields.drop_first(), k);
    }
}

/// The node under field `k` of `v`, with the caller's `Null` standing in
/// when `v` is not an object or has no such field.
pub fn index_of<'a>(v: &'a JsonValue, k: &str, absent: &'a JsonValue) -> (r: &'a JsonValue)
    requires
        *absent == JsonValue::Null,
    ensures
        *r == spec_index(*v, k@),
{
    match v {
        JsonValue::Obj(fields) => {
            proof {
                assert(*v == JsonValue::Obj(*fields));
            }
            let n = fields.len();
            let mut i: usize = 0;
            while i < n
                invariant
                    i <= n,
                    n == fields@.len(),
                    *v == JsonValue::Obj(*fields),
                    forall|j: int| 0 <= j < i ==> fields@[j].0@ != k@,
                decreases n - i,
            {
                if str_eq(fields[i].0.as_str(), k) {
                    proof {
                        lemma_obj_get_found(fields@, k@, i as int);
                        assert(spec_index(*v, k@) == spec_obj_get(fields@, k@));
                    }
                    return &fields[i].1;
                }
                i = i + 1;
            }
            proof {
                lemma_obj_get_missing(fields@, k@);
            }
            absent
        },
        _ => absent,
    }
}

impl JsonValue {
    /// This node as a count, defaulting when it is not a number within `u64`.
    pub fn as_u64_or(&self, d: u64) -> (r: u64)
        ensures
            r == spec_as_u64_or(*self, d),
    {
        match self {
            JsonValue::UInt(u) => *u,
            _ => d,
        }
    }

    /// This node as text, defaulting when it is not a string.
    pub fn as_str_or(&self, d: &str) -> (r: String)
        ensures
            r@ == spec_as_str_or(*self, d@),
    {
        match self {
            JsonValue::Str(s) => s.clone(),
            _ => String::from_str(d),
        }
    }

    /// This node as a number's decimal text, `0` when it is not a number.
    pub fn num_text(&self) -> (r: String)
        ensures
            r@ == spec_num_text(*self),
    {
        match self {
            JsonValue::UInt(u) => u64_to_string(*u),
            JsonValue::Int(i) => i64_to_string(*i),
            JsonValue::Num(t) => t.clone(),
            _ => String::from_str("0"),
        }
    }
}

} // verus!
