use vstd::prelude::*;
use crate::text::str_eq;

verus! {

/// A JSON document as plain data. Numbers that are not 64-bit signed
/// integers (fractions, or integers out of that range) are kept only as
/// `NumOther`: no telemetry field may hold one, so decoding rejects them
/// as wrong-typed without looking further.
#[derive(Debug)]
pub enum Json {
    Null,
    Bool(bool),
    Int(i64),
    NumOther,
    Str(String),
    Arr(Vec<Json>),
    Obj(Vec<(String, Json)>),
}

/// The first value bound to `key` in an entry list.
pub open spec fn entries_get(entries: Seq<(String, Json)>, key: Seq<char>) -> Option<Json>
    decreases entries.len(),
{
    if entries.len() == 0 {
        None
    } else if entries[0].0@ == key {
        Some(entries[0].1)
    } else {
        entries_get(entries.skip(1), key)
    }
}

/// The value under `key`: `None` for a missing key or a non-object.
pub open spec fn spec_get(j: Json, key: Seq<char>) -> Option<Json> {
    match j {
        Json::Obj(entries) => entries_get(entries@, key),
        _ => None,
    }
}

impl Json {
    /// Looks `key` up in an object, first binding wins.
    pub fn get<'a>(&'a self, key: &str) -> (r: Option<&'a Json>)
        ensures
            match r {
                Some(v) => spec_get(*self, key@) == Some(*v),
                None => spec_get(*self, key@) is None,
            },
    {
        match *self {
            Json::Obj(ref entries) => {
                let n = entries.len();
                let mut i: usize = 0;
                proof {
                    assert(entries@.skip(0) =~= entries@);
                }
                while i < n
                    invariant
                        n == entries@.len(),
                        i <= n,
                        spec_get(*self, key@) == entries_get(entries@, key@),
                        entries_get(entries@, key@) == entries_get(entries@.skip(i as int), key@),
                    decreases n - i,
                {
                    if str_eq(entries[i].0.as_str(), key) {
                        proof {
                            assert(entries@.skip(i as int)[0] == entries@[i as int]);
                            assert(entries_get(entries@.skip(i as int), key@)
                                == Some(entries@[i as int].1));
                        }
                        return Some(&entries[i].1);
                    }
                    proof {
                        assert(entries@.skip(i as int).skip(1) =~= entries@.skip(i as int + 1));
                    }
                    i += 1;
                }
                proof {
                    assert(entries@.skip(n as int) =~= Seq::<(String, Json)>::empty());
                }
                None
            },
            _ => None,
        }
    }

    /// The element count of an array; `None` for anything else. Elements are
    /// counted, never inspected.
    pub fn array_count(&self) -> (r: Option<usize>)
        ensures
            match r {
                Some(n) => self matches Json::Arr(items) && n == items@.len(),
                None => !(self matches Json::Arr(_)),
            },
    {
        match self {
            Json::Arr(items) => Some(items.len()),
            _ => None,
        }
    }
}

/// What `parse_json` yields on a given text: a document for valid JSON,
/// nothing for a syntax error.
pub uninterp spec fn json_parse(s: Seq<char>) -> Option<Json>;

#[verifier::external_type_specification]
#[verifier::external_body]
pub struct ExJsonValue(serde_json::Value);

/// Relies on `serde_json::Value`'s variants: rebuilds the parsed document as
/// plain data, variant by variant. Numbers that `as_i64` cannot give become
/// `NumOther`.
#[verifier::external_body]
fn value_to_json(v: &serde_json::Value) -> Json {
    match v {
        serde_json::Value::Null => Json::Null,
        serde_json::Value::Bool(b) => Json::Bool(*b),
        serde_json::Value::Number(n) => match n.as_i64() {
            Some(i) => Json::Int(i),
            None => Json::NumOther,
        },
        serde_json::Value::String(s) => Json::Str(s.clone()),
        serde_json::Value::Array(a) => Json::Arr(a.iter().map(value_to_json).collect()),
        serde_json::Value::Object(o) => Json::Obj(
            o.iter().map(|(k, x)| (k.clone(), value_to_json(x))).collect(),
        ),
    }
}

/// Relies on `serde_json::from_str::<serde_json::Value>`: whether a text is
/// valid JSON, and what document it denotes, is a function of the text alone.
#[verifier::external_body]
pub(crate) fn parse_json(s: &str) -> (r: Option<Json>)
    ensures
        r == json_parse(s@),
{
    match serde_json::from_str::<serde_json::Value>(s) {
        Ok(v) => Some(value_to_json(&v)),
        Err(_) => None,
    }
}

} // verus!
