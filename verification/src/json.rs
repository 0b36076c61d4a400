//! An owned model of decoded JSON documents.
//!
//! A fetched response body is decoded once into [`Json`], a tree of plain
//! values that the projection engine can inspect directly.  Numbers are kept
//! only when they are integers; any other scalar the service could send is
//! collapsed into [`Json::Other`], which no field shape accepts.

use vstd::prelude::*;

verus! {

/// One decoded JSON value.
pub enum Json {
    /// An explicit `null`.
    Null,
    /// A boolean.
    Bool(bool),
    /// A number with an exact integer value.
    Int(i64),
    /// A string.
    Str(String),
    /// An array, in source order.
    Arr(Vec<Json>),
    /// An object, as a sequence of key/value entries.
    Obj(Vec<(String, Json)>),
    /// A value the model does not represent (a non-integer number).
    Other,
}

/// The value bound to `key` in an entry sequence: the first entry whose key
/// matches, if any.
pub open spec fn obj_lookup(entries: Seq<(String, Json)>, key: Seq<char>) -> Option<Json>
    decreases entries.len(),
{
    if entries.len() == 0 {
        None
    } else if entries[0].0@ == key {
        Some(entries[0].1)
    } else {
        obj_lookup(entries.drop_first(), key)
    }
}

/// The member named `key` of `j`, when `j` is an object that has it.
pub open spec fn json_member(j: Json, key: Seq<char>) -> Option<Json> {
    match j {
        Json::Obj(entries) => obj_lookup(entries@, key),
        _ => None,
    }
}

/// Skipping entries whose keys all differ from `key` does not change the
/// lookup result.
proof fn lemma_obj_lookup_skip(entries: Seq<(String, Json)>, key: Seq<char>, i: int)
    requires
        0 <= i <= entries.len(),
        forall|k: int| 0 <= k < i ==> entries[k].0@ != key,
    ensures
        obj_lookup(entries, key) == obj_lookup(entries.skip(i), key),
    decreases i,
{
    if i > 0 {
        lemma_obj_lookup_skip(entries.drop_first(), key, i - 1);
        assert(entries.drop_first().skip(i - 1) =~= entries.skip(i));
    } else {
        assert(entries.skip(0) =~= entries);
    }
}

impl Json {
    /// Looks up a member of an object by key; `None` when `self` is not an
    /// object or the key is absent.
    pub fn get<'a>(&'a self, key: &str) -> (r: Option<&'a Json>)
        ensures
            match r {
                Some(v) => json_member(*self, key@) == Some(*v),
                None => json_member(*self, key@) is None,
            },
    {
        match self {
            Json::Obj(entries) => {
                let n = entries.len();
                let mut i: usize = 0;
                while i < n
                    invariant
                        *self == Json::Obj(*entries),
                        n == entries.len(),
                        i <= n,
                        forall|k: int| 0 <= k < i ==> entries@[k].0@ != key@,
                    decreases n - i,
                {
                    if crate::text::str_eq(entries[i].0.as_str(), key) {
                        proof {
                            lemma_obj_lookup_skip(entries@, key@, i as int);
                            let rest = entries@.skip(i as int);
                            assert(rest[0] == entries@[i as int]);
                            assert(rest.len() > 0);
                            assert(obj_lookup(rest, key@) == Some(rest[0].1));
                            assert(json_member(*self, key@) == Some(entries@[i as int].1));
                        }
                        return Some(&entries[i].1);
                    }
                    i += 1;
                }
                proof {
                    lemma_obj_lookup_skip(entries@, key@, n as int);
                }
                None
            },
            _ => None,
        }
    }
}

#[verifier::external_type_specification]
#[verifier::external_body]
pub struct ExValue(serde_json::Value);

/// The library's model of the tree a `serde_json::Value` holds.  Objects are
/// listed in the order the value iterates them; non-integer numbers become
/// [`Json::Other`].
pub uninterp spec fn value_rep(v: serde_json::Value) -> Json;

/// What decoding a JSON document yields: the model of the decoded tree, or
/// nothing when the text is not valid JSON.
pub uninterp spec fn json_of(s: Seq<char>) -> Option<Json>;

/// Relies on `serde_json::from_str::<serde_json::Value>`: the text decodes
/// exactly when it is one valid JSON document, and the decoded value is a
/// function of the text alone.
#[verifier::external_body]
fn parse_value(s: &str) -> (r: Option<serde_json::Value>)
    ensures
        (r is Some) == (json_of(s@) is Some),
        r matches Some(v) ==> json_of(s@) == Some(value_rep(v)),
{
    serde_json::from_str::<serde_json::Value>(s).ok()
}

/// Relies on `serde_json::Value`'s variants and `Number::as_i64`: rebuilds
/// the decoded tree, arm by arm, as the library's own model.
#[verifier::external_body]
fn model_of_value(v: &serde_json::Value) -> (r: Json)
    ensures
        r == value_rep(*v),
{
    match v {
        serde_json::Value::Null => Json::Null,
        serde_json::Value::Bool(b) => Json::Bool(*b),
        serde_json::Value::Number(n) => match n.as_i64() {
            Some(i) => Json::Int(i),
            None => Json::Other,
        },
        serde_json::Value::String(s) => Json::Str(s.clone()),
        serde_json::Value::Array(a) => Json::Arr(a.iter().map(model_of_value).collect()),
        serde_json::Value::Object(m) => Json::Obj(
            m.iter().map(|(k, w)| (k.clone(), model_of_value(w))).collect(),
        ),
    }
}

/// Decodes one JSON document into the library's model; `None` when the text
/// is not valid JSON.
pub fn decode(s: &str) -> (r: Option<Json>)
    ensures
        (r is Some) == (json_of(s@) is Some),
        r matches Some(j) ==> json_of(s@) == Some(j),
{
    match parse_value(s) {
        Some(v) => Some(model_of_value(&v)),
        None => None,
    }
}

} // verus!
