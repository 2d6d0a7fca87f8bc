//! A plain tree model of JSON values, together with the trusted boundary to
//! the `serde_json` parser and verified field lookups over the tree.
//!
//! Numbers are kept as their rendered text so that the tree holds only plain
//! values; the decoders in this crate never do arithmetic on JSON numbers
//! beyond reading integer error codes.

use vstd::prelude::*;

use crate::text::str_eq;

verus! {

/// A parsed JSON value as a plain tree.
///
/// `Number` holds the number's rendered text; `Text` holds a JSON string.
#[derive(Debug, PartialEq)]
pub enum Json {
    Null,
    Bool(bool),
    Number(String),
    Text(String),
    Array(Vec<Json>),
    Object(Vec<(String, Json)>),
}

/// The first value bound to `key` in an object's entry list, if any.
pub open spec fn spec_entries_lookup(entries: Seq<(String, Json)>, key: Seq<char>) -> Option<Json>
    decreases entries.len(),
{
    if entries.len() == 0 {
        None
    } else if entries[0].0@ == key {
        Some(entries[0].1)
    } else {
        spec_entries_lookup(entries.drop_first(), key)
    }
}

/// The value of field `key` when `j` is an object that has it.
pub open spec fn spec_get(j: Json, key: Seq<char>) -> Option<Json> {
    match j {
        Json::Object(entries) => spec_entries_lookup(entries@, key),
        _ => None,
    }
}

/// The character content of field `key` when it is present and is a string.
pub open spec fn spec_get_str(j: Json, key: Seq<char>) -> Option<Seq<char>> {
    match spec_get(j, key) {
        Some(Json::Text(s)) => Some(s@),
        _ => None,
    }
}

#[verifier::external_type_specification]
#[verifier::external_body]
pub struct ExValue(serde_json::Value);

/// The tree that `serde_json` parses `text` into, rebuilt as the library's
/// `Json`; `None` when the text is not valid JSON.
pub uninterp spec fn spec_json_of(text: Seq<char>) -> Option<Json>;

/// The library's `Json` tree holding the same data as a `serde_json::Value`.
pub uninterp spec fn spec_value_tree(v: serde_json::Value) -> Json;

/// The description `serde_json` renders for a text that fails to parse, as a
/// function of the text alone.
pub uninterp spec fn spec_json_err_of(text: Seq<char>) -> Seq<char>;

/// Relies on `serde_json::from_str::<Value>`: parses the text as JSON,
/// deterministically, accepting exactly the texts `spec_json_of` accepts. A
/// failure is rendered as text by the parse error's `Display`, which depends
/// on the text alone.
#[verifier::external_body]
fn parse_value(text: &str) -> (r: Result<serde_json::Value, String>)
    ensures
        r matches Ok(v) ==> Some(spec_value_tree(v)) == spec_json_of(text@),
        r is Err ==> spec_json_of(text@) is None,
        r matches Err(e) ==> e@ == spec_json_err_of(text@),
{
    serde_json::from_str::<serde_json::Value>(text).map_err(|e| e.to_string())
}

/// Relies on `serde_json::Value`'s variants: rebuilds the value, variant by
/// variant, as the library's tree, rendering numbers with `Number`'s
/// `Display`.
#[verifier::external_body]
fn value_to_json(v: serde_json::Value) -> (r: Json)
    ensures
        r == spec_value_tree(v),
{
    match v {
        serde_json::Value::Null => Json::Null,
        serde_json::Value::Bool(b) => Json::Bool(b),
        serde_json::Value::Number(n) => Json::Number(n.to_string()),
        serde_json::Value::String(s) => Json::Text(s),
        serde_json::Value::Array(a) => Json::Array(a.into_iter().map(value_to_json).collect()),
        serde_json::Value::Object(o) => Json::Object(
            o.into_iter().map(|(k, inner)| (k, value_to_json(inner))).collect(),
        ),
    }
}

/// Parses `text` as JSON into the library's tree; on failure returns the
/// parser's error rendered as text.
pub fn parse_json(text: &str) -> (r: Result<Json, String>)
    ensures
        r matches Ok(j) ==> Some(j) == spec_json_of(text@),
        r is Ok <==> spec_json_of(text@) is Some,
        r matches Err(e) ==> e@ == spec_json_err_of(text@),
{
    match parse_value(text) {
        Ok(v) => Ok(value_to_json(v)),
        Err(e) => Err(e),
    }
}

impl Json {
    /// Looks up field `key` in an object, returning a reference to its value.
    pub fn get<'a>(&'a self, key: &str) -> (r: Option<&'a Json>)
        ensures
            match r {
                Some(v) => spec_get(*self, key@) == Some(*v),
                None => spec_get(*self, key@) is None,
            },
    {
        match self {
            Json::Object(entries) => {
                let n = entries.len();
                assert(spec_get(*self, key@) == spec_entries_lookup(entries@, key@));
                assert(entries@.skip(0) =~= entries@);
                for i in 0..n
                    invariant
                        n == entries.len(),
                        spec_get(*self, key@) == spec_entries_lookup(entries@, key@),
                        spec_entries_lookup(entries@, key@) == spec_entries_lookup(
                            entries@.skip(i as int),
                            key@,
                        ),
                {
                    assert(entries@.skip(i as int)[0] == entries@[i as int]);
                    if str_eq(entries[i].0.as_str(), key) {
                        assert(spec_entries_lookup(entries@.skip(i as int), key@) == Some(
                            entries@[i as int].1,
                        ));
                        return Some(&entries[i].1);
                    }
                    assert(entries@.skip(i as int).drop_first() =~= entries@.skip(i + 1));
                }
                assert(entries@.skip(n as int).len() == 0);
                None
            },
            _ => None,
        }
    }

    /// Looks up field `key` and returns its text when it is a string.
    pub fn get_str<'a>(&'a self, key: &str) -> (r: Option<&'a String>)
        ensures
            match r {
                Some(s) => spec_get_str(*self, key@) == Some(s@),
                None => spec_get_str(*self, key@) is None,
            },
    {
        match self.get(key) {
            Some(Json::Text(s)) => Some(s),
            _ => None,
        }
    }

    /// Looks up field `key` and returns its value when it is a boolean.
    pub fn get_bool(&self, key: &str) -> (r: Option<bool>)
        ensures
            match r {
                Some(b) => spec_get(*self, key@) == Some(Json::Bool(b)),
                None => match spec_get(*self, key@) {
                    Some(v) => !(v is Bool),
                    None => true,
                },
            },
    {
        match self.get(key) {
            Some(Json::Bool(b)) => Some(*b),
            _ => None,
        }
    }

    /// Consumes an object and moves the value of field `key` out of it.
    pub fn take_field(self, key: &str) -> (r: Option<Json>)
        ensures
            r == spec_get(self, key@),
    {
        match self {
            Json::Object(mut entries) => {
                let n = entries.len();
                assert(entries@.skip(0) =~= entries@);
                for i in 0..n
                    invariant
                        n == entries.len(),
                        spec_get(self, key@) == spec_entries_lookup(entries@, key@),
                        spec_entries_lookup(entries@, key@) == spec_entries_lookup(
                            entries@.skip(i as int),
                            key@,
                        ),
                {
                    assert(entries@.skip(i as int)[0] == entries@[i as int]);
                    if str_eq(entries[i].0.as_str(), key) {
                        assert(spec_entries_lookup(entries@.skip(i as int), key@) == Some(
                            entries@[i as int].1,
                        ));
                        let pair = entries.remove(i);
                        return Some(pair.1);
                    }
                    assert(entries@.skip(i as int).drop_first() =~= entries@.skip(i + 1));
                }
                assert(entries@.skip(n as int).len() == 0);
                None
            },
            _ => None,
        }
    }
}

} // verus!
