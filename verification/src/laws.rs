//! What holds of every run, stated over the same functions that the
//! contracts of the library use.

use vstd::prelude::*;
use serde_json::Value;
use crate::args::filter_of;
use crate::extract::{all_objects, entry_record, entry_records, extraction, RESULTS};
use crate::failure::{Failure, Shape};
use crate::json::{object_members, value_array, value_object};
use crate::listing::{
    empty_filter_keeps_all, kept, kept_all, keeps, listing_of, listing_text, report_of,
};
use crate::record::Record;
use crate::text::decimal;

verus! {

/// A response is an object that holds, under the results key, the list
/// `entries`.
pub open spec fn lists(response: Value, entries: Seq<Value>) -> bool {
    &&& value_object(response) matches Some(top)
    &&& object_members(top).contains_key(RESULTS@)
    &&& value_array(object_members(top)[RESULTS@]) == Some(entries)
}

/// Without a filter, a response that lists objects, at least one, is shown
/// whole: the listing counts as many records as the list has elements, and
/// each record holds the three texts of its element as they are, a field
/// being absent where the element has no text under its key.
pub proof fn unfiltered_listing_is_complete(response: Value, entries: Seq<Value>)
    requires
        lists(response, entries),
        all_objects(entries),
        entries.len() > 0,
    ensures
        report_of(response, Seq::empty()) == Ok::<Seq<char>, Failure>(
            listing_text(entry_records(entries)),
        ),
        entry_records(entries).len() == entries.len(),
        forall|i: int|
            0 <= i < entries.len() ==> entry_record(entries[i]) == Some(
                #[trigger] entry_records(entries)[i],
            ),
{
    empty_filter_keeps_all(entry_records(entries));
}

/// A filter keeps exactly the records whose legal name contains the filter
/// text: every kept record passes the test, every record of the run that
/// passes it is kept, and nothing is kept that the run does not hold.
pub proof fn kept_is_exact(records: Seq<Record>, needle: Seq<char>)
    ensures
        forall|i: int|
            0 <= i < kept(records, needle).len() ==> (#[trigger] kept(records, needle)[i]).matches(
                needle,
            ),
        forall|record: Record| #[trigger]
            kept(records, needle).contains(record) <==> records.contains(record) && record.matches(
                needle,
            ),
{
    let test = keeps(needle);
    let out = kept(records, needle);
    assert forall|i: int| 0 <= i < out.len() implies (#[trigger] out[i]).matches(needle) by {
        records.lemma_filter_pred(test, i);
    }
    assert forall|record: Record| #[trigger]
        out.contains(record) <==> records.contains(record) && record.matches(needle) by {
        if out.contains(record) {
            records.lemma_filter_contains_rev(test, record);
            let i = choose|i: int| 0 <= i < out.len() && out[i] == record;
            assert(out[i].matches(needle));
        }
        if records.contains(record) && record.matches(needle) {
            let i = choose|i: int| 0 <= i < records.len() && records[i] == record;
            records.lemma_filter_contains(test, i);
        }
    }
}

/// Filtering what a filter has kept, with the same filter text, changes
/// nothing.
pub proof fn kept_is_idempotent(records: Seq<Record>, needle: Seq<char>)
    ensures
        kept(kept(records, needle), needle) == kept(records, needle),
{
    kept_is_exact(records, needle);
    kept_all(kept(records, needle), needle);
}

/// More than one filter on the command line is a usage error, whatever the
/// arguments are; no response plays any part in it.
pub proof fn too_many_arguments_is_usage_failure(args: Seq<Seq<char>>)
    requires
        args.len() > 2,
    ensures
        filter_of(args) == Err::<Seq<char>, Failure>(Failure::Usage),
{
}

/// A response object without the results key is a shape failure, whatever
/// the filter.
pub proof fn missing_results_is_shape_failure(response: Value, needle: Seq<char>)
    requires
        value_object(response) matches Some(top) && !object_members(top).contains_key(RESULTS@),
    ensures
        report_of(response, needle) == Err::<Seq<char>, Failure>(
            Failure::Shape(Shape::ResultsMissing),
        ),
{
}

/// A response object whose value under the results key is not a list is a
/// shape failure, whatever the filter: no run ends in success with nothing
/// shown.
pub proof fn results_not_a_list_is_shape_failure(response: Value, needle: Seq<char>)
    requires
        value_object(response) matches Some(top) && object_members(top).contains_key(RESULTS@)
            && value_array(object_members(top)[RESULTS@]) is None,
    ensures
        report_of(response, needle) == Err::<Seq<char>, Failure>(
            Failure::Shape(Shape::ResultsNotAList),
        ),
{
}

/// Whatever the response and the filter, a run that succeeds shows a text
/// that is not empty: it begins with the count of the records kept.
pub proof fn shown_text_is_never_empty(response: Value, needle: Seq<char>)
    ensures
        report_of(response, needle) matches Ok(text) ==> text.len() > 0,
{
    if let Ok(text) = report_of(response, needle) {
        let records = kept(extraction(response).unwrap(), needle);
        assert(text == listing_text(records));
        assert(decimal(records.len()).len() > 0);
    }
}

/// A results list of which the filter keeps nothing ends the run with the
/// empty-result failure, and a listing is shown only where something is
/// kept.
pub proof fn nothing_kept_is_failure(response: Value, entries: Seq<Value>, needle: Seq<char>)
    requires
        lists(response, entries),
        all_objects(entries),
    ensures
        kept(entry_records(entries), needle).len() == 0 ==> report_of(response, needle) == Err::<
            Seq<char>,
            Failure,
        >(Failure::NoneFound),
        report_of(response, needle) is Ok ==> kept(entry_records(entries), needle).len() > 0,
        forall|records: Seq<Record>|
            #![trigger listing_of(records, needle)]
            listing_of(records, needle) is Ok <==> kept(records, needle).len() > 0,
{
}

} // verus!
