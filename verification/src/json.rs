//! What the library assumes of `serde_json`.
//!
//! A parsed document is opaque to the verifier. The names below stand for
//! what a document holds; the specifications say, for each accessor that the
//! library calls, what it hands out in terms of those names. None of this is
//! proved: it restates the accessors' documented behaviour.

use vstd::prelude::*;

verus! {

/// `serde_json::Value`, carried through as an opaque value.
#[verifier::external_type_specification]
#[verifier::external_body]
pub struct ExValue(serde_json::Value);

/// `serde_json::Map`, carried through as an opaque value.
#[verifier::external_type_specification]
#[verifier::external_body]
#[verifier::reject_recursive_types(K)]
#[verifier::reject_recursive_types(V)]
pub struct ExMap<K, V>(serde_json::Map<K, V>);

/// The map that a document holds when it is a JSON object, `None` when it is
/// anything else.
pub uninterp spec fn value_object(v: serde_json::Value) -> Option<
    serde_json::Map<String, serde_json::Value>,
>;

/// The elements, in order, that a document holds when it is a JSON array,
/// `None` when it is anything else.
pub uninterp spec fn value_array(v: serde_json::Value) -> Option<Seq<serde_json::Value>>;

/// The characters that a document holds when it is a JSON string, `None`
/// when it is anything else.
pub uninterp spec fn value_text(v: serde_json::Value) -> Option<Seq<char>>;

/// The entries of a JSON object: each key, as its characters, with the
/// document stored under it.
pub uninterp spec fn object_members(m: serde_json::Map<String, serde_json::Value>) -> Map<
    Seq<char>,
    serde_json::Value,
>;

/// `Value::as_object` returns the map of an object and `None` for every
/// other kind of document.
pub assume_specification<'a>[ serde_json::Value::as_object ](v: &'a serde_json::Value) -> (r:
    Option<&'a serde_json::Map<String, serde_json::Value>>)
    ensures
        match r {
            Some(m) => value_object(*v) == Some(*m),
            None => value_object(*v) is None,
        },
;

/// `Value::as_array` returns the vector of an array, whose elements are the
/// array's elements in order, and `None` for every other kind of document.
pub assume_specification<'a>[ serde_json::Value::as_array ](v: &'a serde_json::Value) -> (r:
    Option<&'a Vec<serde_json::Value>>)
    ensures
        match r {
            Some(items) => value_array(*v) == Some(items@),
            None => value_array(*v) is None,
        },
;

/// `Value::as_str` returns the text of a string and `None` for every other
/// kind of document.
pub assume_specification<'a>[ serde_json::Value::as_str ](v: &'a serde_json::Value) -> (r:
    Option<&'a str>)
    ensures
        match r {
            Some(s) => value_text(*v) == Some(s@),
            None => value_text(*v) is None,
        },
;

/// `Map::get` with a text key: the document stored under that key, or `None`
/// when the object has no such key.
#[verifier::external_body]
pub(crate) fn member<'a>(
    m: &'a serde_json::Map<String, serde_json::Value>,
    key: &str,
) -> (r: Option<&'a serde_json::Value>)
    ensures
        match r {
            Some(v) => object_members(*m).contains_key(key@) && object_members(*m)[key@] == *v,
            None => !object_members(*m).contains_key(key@),
        },
{
    m.get(key)
}

} // verus!
