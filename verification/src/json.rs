//! JSON documents as the parsers read them: a tree that holds what
//! `serde_json::Value` holds (a number as the `u64` it stands for, if any),
//! and the lookups `get`, `as_bool`, `as_u64` and `as_str` on it.
use vstd::prelude::*;

use crate::text::same_text;

verus! {

/// A JSON value. An object keeps its entries in key order, each key once.
#[derive(Debug, PartialEq, Eq)]
pub enum Json {
    Null,
    Bool(bool),
    /// A number, with the `u64` it equals when it is a non-negative integer.
    Number(Option<u64>),
    Str(String),
    Array(Vec<Json>),
    Object(Vec<(String, Json)>),
}

/// A parsed document: its tree, and its compact rendering (`Value`'s
/// `to_string`).
#[derive(Debug)]
pub struct JsonDoc {
    pub tree: Json,
    pub text: String,
}

/// The value that `entries` hold under `key` (the first such entry).
pub open spec fn entry_of(entries: Seq<(String, Json)>, key: Seq<char>) -> Option<Json>
    decreases entries.len(),
{
    if entries.len() == 0 {
        None
    } else if entries[0].0@ == key {
        Some(entries[0].1)
    } else {
        entry_of(entries.drop_first(), key)
    }
}

/// `Value::get` with a key: the member `key` of an object, `None` for any
/// other value.
pub open spec fn json_get(v: Json, key: Seq<char>) -> Option<Json> {
    match v {
        Json::Object(entries) => entry_of(entries@, key),
        _ => None,
    }
}

/// `Value::as_bool`.
pub open spec fn json_bool(v: Option<Json>) -> Option<bool> {
    match v {
        Some(Json::Bool(b)) => Some(b),
        _ => None,
    }
}

/// `Value::as_u64`.
pub open spec fn json_u64(v: Option<Json>) -> Option<u64> {
    match v {
        Some(Json::Number(n)) => n,
        _ => None,
    }
}

/// `Value::as_str`, as characters.
pub open spec fn json_str(v: Option<Json>) -> Option<Seq<char>> {
    match v {
        Some(Json::Str(s)) => Some(s@),
        _ => None,
    }
}

/// The member `key` of `v`, when `v` is an object that has one.
pub fn get<'a>(v: &'a Json, key: &str) -> (r: Option<&'a Json>)
    ensures
        match r {
            Some(x) => json_get(*v, key@) == Some(*x),
            None => json_get(*v, key@) is None,
        },
{
    match v {
        Json::Object(entries) => {
            let mut i: usize = 0;
            assert(entries@.skip(0) =~= entries@);
            while i < entries.len()
                invariant
                    i <= entries.len(),
                    json_get(*v, key@) == entry_of(entries@, key@),
                    entry_of(entries@, key@) == entry_of(entries@.skip(i as int), key@),
                decreases entries.len() - i,
            {
                assert(entries@.skip(i as int)[0] == entries@[i as int]);
                if same_text(entries[i].0.as_str(), key) {
                    assert(entry_of(entries@.skip(i as int), key@) == Some(entries@[i as int].1));
                    return Some(&entries[i].1);
                }
                assert(entries@.skip(i as int).drop_first() =~= entries@.skip(i + 1));
                i = i + 1;
            }
            None
        },
        _ => None,
    }
}

/// `Value::as_bool` on an optional member.
pub fn as_bool(v: Option<&Json>) -> (r: Option<bool>)
    ensures
        r == json_bool(
            match v {
                Some(x) => Some(*x),
                None => None,
            },
        ),
{
    match v {
        Some(Json::Bool(b)) => Some(*b),
        _ => None,
    }
}

/// `Value::as_u64` on an optional member.
pub fn as_u64(v: Option<&Json>) -> (r: Option<u64>)
    ensures
        r == json_u64(
            match v {
                Some(x) => Some(*x),
                None => None,
            },
        ),
{
    match v {
        Some(Json::Number(n)) => *n,
        _ => None,
    }
}

/// `Value::as_str` on an optional member, copied out.
pub fn as_string(v: Option<&Json>) -> (r: Option<String>)
    ensures
        match r {
            Some(s) => json_str(
                match v {
                    Some(x) => Some(*x),
                    None => None,
                },
            ) == Some(s@),
            None => json_str(
                match v {
                    Some(x) => Some(*x),
                    None => None,
                },
            ) is None,
        },
{
    match v {
        Some(Json::Str(s)) => Some(s.clone()),
        _ => None,
    }
}

/// What `serde_json::from_slice` reads from `bytes` as a `Value`, as a tree, or
/// nothing when the bytes are no JSON document.
pub uninterp spec fn json_decode(bytes: Seq<u8>) -> Option<Json>;

/// What `Value`'s `to_string` renders of the `Value` that
/// `serde_json::from_slice` reads from `bytes`, or nothing when the bytes are no
/// JSON document.
pub uninterp spec fn json_render(bytes: Seq<u8>) -> Option<Seq<char>>;

/// `serde_json::from_slice::<Value>` followed by `Value`'s `to_string`: the
/// document in `bytes` and its compact rendering, or `None` when parsing fails.
#[verifier::external_body]
pub(crate) fn parse_json(bytes: &[u8]) -> (r: Option<JsonDoc>)
    ensures
        match r {
            Some(d) => json_decode(bytes@) == Some(d.tree) && json_render(bytes@) == Some(d.text@),
            None => json_decode(bytes@) is None && json_render(bytes@) is None,
        },
{
    serde_json::from_slice::<serde_json::Value>(bytes).ok().map(
        |v| {
            let text = v.to_string();
            JsonDoc { tree: tree_of(v), text }
        },
    )
}

/// `serde_json::Value`, carried opaquely into the conversion below.
#[verifier::external_type_specification]
#[verifier::external_body]
pub struct ExJsonValue(serde_json::Value);

/// The conversion of a `serde_json::Value` into a `Json` tree, variant by
/// variant (a number becomes what `Number::as_u64` returns). It serves
/// `parse_json` alone, whose contract covers it.
#[verifier::external_body]
fn tree_of(v: serde_json::Value) -> Json {
    match v {
        serde_json::Value::Null => Json::Null,
        serde_json::Value::Bool(b) => Json::Bool(b),
        serde_json::Value::Number(n) => Json::Number(n.as_u64()),
        serde_json::Value::String(s) => Json::Str(s),
        serde_json::Value::Array(a) => Json::Array(a.into_iter().map(tree_of).collect()),
        serde_json::Value::Object(m) => Json::Object(
            m.into_iter().map(|(k, x)| (k, tree_of(x))).collect(),
        ),
    }
}

} // verus!
