//! From a parsed response to the manufacturers that it lists.

use vstd::prelude::*;
use serde_json::{Map as JsonObject, Value};
use crate::failure::{Failure, Shape};
use crate::json::{member, object_members, value_array, value_object, value_text};
use crate::record::{
    field_view, views, AutoManufacturer, Record, MANUFACTURER_COMMON_NAME, MANUFACTURER_COUNTRY,
    MANUFACTURER_NAME,
};

verus! {

/// Key of the list of manufacturers in a registry response.
pub const RESULTS: &'static str = "Results";

/// The text that an entry has under a key: absent where the entry has no
/// such key, and where what it has there is not a JSON string.
pub open spec fn field_of(members: Map<Seq<char>, Value>, key: Seq<char>) -> Option<Seq<char>> {
    if members.contains_key(key) {
        value_text(members[key])
    } else {
        None
    }
}

/// The record that an element of the results list stands for, if the
/// element is a JSON object. Keys other than the three that a record reads
/// play no part.
pub open spec fn entry_record(entry: Value) -> Option<Record> {
    match value_object(entry) {
        Some(object) => Some(
            Record {
                name: field_of(object_members(object), MANUFACTURER_NAME@),
                common_name: field_of(object_members(object), MANUFACTURER_COMMON_NAME@),
                country: field_of(object_members(object), MANUFACTURER_COUNTRY@),
            },
        ),
        None => None,
    }
}

/// Every element of the list is a JSON object.
pub open spec fn all_objects(entries: Seq<Value>) -> bool {
    forall|i: int| 0 <= i < entries.len() ==> (#[trigger] entry_record(entries[i])) is Some
}

/// The records of a list of objects, one for each element, in order.
pub open spec fn entry_records(entries: Seq<Value>) -> Seq<Record>
    recommends
        all_objects(entries),
{
    Seq::new(entries.len(), |i: int| entry_record(entries[i]).unwrap())
}

/// What a response lists: the records of the elements of its results list,
/// in order.
///
/// A response that is not an object, an object without the results key, a
/// value under that key that is not a list, and a list with an element that
/// is not an object are each a shape failure of their own.
pub open spec fn extraction(response: Value) -> Result<Seq<Record>, Failure> {
    match value_object(response) {
        None => Err(Failure::Shape(Shape::NotAnObject)),
        Some(top) => {
            if !object_members(top).contains_key(RESULTS@) {
                Err(Failure::Shape(Shape::ResultsMissing))
            } else {
                match value_array(object_members(top)[RESULTS@]) {
                    None => Err(Failure::Shape(Shape::ResultsNotAList)),
                    Some(entries) => {
                        if all_objects(entries) {
                            Ok(entry_records(entries))
                        } else {
                            Err(Failure::Shape(Shape::EntryNotAnObject))
                        }
                    },
                }
            }
        },
    }
}

/// Reads the text under a key of an entry.
fn field<'a>(entry: &'a JsonObject<String, Value>, key: &str) -> (text: Option<&'a str>)
    ensures
        field_view(text) == field_of(object_members(*entry), key@),
{
    match member(entry, key) {
        Some(value) => value.as_str(),
        None => None,
    }
}

/// Projects one element of the results list to a manufacturer. `None`
/// exactly when the element is not a JSON object.
pub fn manufacturer<'a>(entry: &'a Value) -> (r: Option<AutoManufacturer<'a>>)
    ensures
        match r {
            Some(m) => entry_record(*entry) == Some(m@),
            None => entry_record(*entry) is None,
        },
{
    match entry.as_object() {
        Some(object) => Some(
            AutoManufacturer {
                name: field(object, MANUFACTURER_NAME),
                common_name: field(object, MANUFACTURER_COMMON_NAME),
                country: field(object, MANUFACTURER_COUNTRY),
            },
        ),
        None => None,
    }
}

/// Projects every element of a results list, in order. Fails exactly when
/// some element is not a JSON object.
pub fn manufacturers_of<'a>(entries: &'a Vec<Value>) -> (r: Result<
    Vec<AutoManufacturer<'a>>,
    Failure,
>)
    ensures
        match r {
            Ok(found) => all_objects(entries@) && views(found@) == entry_records(entries@),
            Err(e) => !all_objects(entries@) && e == Failure::Shape(Shape::EntryNotAnObject),
        },
{
    let mut found: Vec<AutoManufacturer<'a>> = Vec::new();
    let mut i: usize = 0;
    while i < entries.len()
        invariant
            i <= entries.len(),
            found.len() == i,
            forall|j: int|
                0 <= j < i ==> (#[trigger] entry_record(entries@[j])) == Some(found@[j]@),
        decreases entries.len() - i,
    {
        match manufacturer(&entries[i]) {
            Some(m) => {
                found.push(m);
            },
            None => {
                assert(entry_record(entries@[i as int]) is None);
                return Err(Failure::Shape(Shape::EntryNotAnObject));
            },
        }
        i += 1;
    }
    assert(views(found@) =~= entry_records(entries@));
    Ok(found)
}

/// Reads the manufacturers that a response lists.
pub fn manufacturers<'a>(response: &'a Value) -> (r: Result<Vec<AutoManufacturer<'a>>, Failure>)
    ensures
        match r {
            Ok(found) => extraction(*response) == Ok::<Seq<Record>, Failure>(views(found@)),
            Err(e) => extraction(*response) == Err::<Seq<Record>, Failure>(e),
        },
{
    match response.as_object() {
        None => Err(Failure::Shape(Shape::NotAnObject)),
        Some(top) => match member(top, RESULTS) {
            None => Err(Failure::Shape(Shape::ResultsMissing)),
            Some(results) => match results.as_array() {
                None => Err(Failure::Shape(Shape::ResultsNotAList)),
                Some(entries) => manufacturers_of(entries),
            },
        },
    }
}

} // verus!
