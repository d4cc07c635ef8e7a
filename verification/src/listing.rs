//! Filtering the manufacturers and laying out the listing.

use vstd::prelude::*;
use vstd::string::StringExecFns;
use serde_json::Value;
use crate::extract::{extraction, manufacturers};
use crate::failure::Failure;
use crate::record::{shown, views, AutoManufacturer, Record};
use crate::text::{decimal, decimal_text, empty_occurs_everywhere};

verus! {

/// The test that a filter text puts to each record.
pub open spec fn keeps(needle: Seq<char>) -> spec_fn(Record) -> bool {
    |record: Record| record.matches(needle)
}

/// The records that a filter keeps: those whose legal name contains the
/// filter text, in the order of the run.
pub open spec fn kept(records: Seq<Record>, needle: Seq<char>) -> Seq<Record> {
    records.filter(keeps(needle))
}

/// The lines of one entry of the listing: its ordinal, then its block.
pub open spec fn entry_text(ordinal: nat, record: Record) -> Seq<char> {
    "Manufacturer #"@ + decimal(ordinal) + "\n"@ + record.block()
}

/// The entries of the listing, numbered from one, in order.
pub open spec fn entries_text(records: Seq<Record>) -> Seq<char>
    decreases records.len(),
{
    if records.len() == 0 {
        Seq::empty()
    } else {
        entries_text(records.drop_last()) + entry_text(records.len(), records.last())
    }
}

/// The whole listing: the count of records, then one entry for each.
pub open spec fn listing_text(records: Seq<Record>) -> Seq<char> {
    decimal(records.len()) + " manufacturers found\n"@ + entries_text(records)
}

/// What a run shows for a set of records and a filter: the listing of the
/// kept records, or a failure where none is kept.
pub open spec fn listing_of(records: Seq<Record>, needle: Seq<char>) -> Result<
    Seq<char>,
    Failure,
> {
    if kept(records, needle).len() == 0 {
        Err(Failure::NoneFound)
    } else {
        Ok(listing_text(kept(records, needle)))
    }
}

/// What a run shows for a response and a filter: the failure of the
/// response's shape, or what its records and the filter give.
pub open spec fn report_of(response: Value, needle: Seq<char>) -> Result<Seq<char>, Failure> {
    match extraction(response) {
        Err(e) => Err(e),
        Ok(records) => listing_of(records, needle),
    }
}

/// Filtering a run extended by one record: the record joins the kept ones
/// exactly when it passes the test.
pub proof fn kept_push(records: Seq<Record>, last: Record, needle: Seq<char>)
    ensures
        kept(records.push(last), needle) == if last.matches(needle) {
            kept(records, needle).push(last)
        } else {
            kept(records, needle)
        },
{
    reveal(Seq::filter);
    assert(records.push(last).drop_last() =~= records);
}

/// A filter that every record passes keeps the run as it is.
pub proof fn kept_all(records: Seq<Record>, needle: Seq<char>)
    requires
        forall|i: int| 0 <= i < records.len() ==> (#[trigger] records[i]).matches(needle),
    ensures
        kept(records, needle) == records,
    decreases records.len(),
{
    if records.len() == 0 {
        reveal(Seq::filter);
    } else {
        let front = records.drop_last();
        kept_all(front, needle);
        kept_push(front, records.last(), needle);
        assert(front.push(records.last()) =~= records);
    }
}

/// The empty filter keeps every record.
pub proof fn empty_filter_keeps_all(records: Seq<Record>)
    ensures
        kept(records, Seq::empty()) == records,
{
    assert forall|i: int| 0 <= i < records.len() implies (#[trigger] records[i]).matches(
        Seq::empty(),
    ) by {
        empty_occurs_everywhere(shown(records[i].name));
    }
    kept_all(records, Seq::empty());
}

/// Keeps the manufacturers whose legal name contains the filter text. The
/// empty filter keeps them all.
pub fn select<'a>(found: Vec<AutoManufacturer<'a>>, needle: &str) -> (out: Vec<
    AutoManufacturer<'a>,
>)
    ensures
        views(out@) == kept(views(found@), needle@),
        needle@.len() == 0 ==> views(out@) == views(found@),
{
    if needle.is_empty() {
        proof {
            assert(needle@ =~= Seq::<char>::empty());
            empty_filter_keeps_all(views(found@));
        }
        return found;
    }
    let mut out: Vec<AutoManufacturer<'a>> = Vec::new();
    let mut i: usize = 0;
    proof {
        reveal(Seq::filter);
        assert(views(found@.take(0)) =~= Seq::<Record>::empty());
    }
    while i < found.len()
        invariant
            i <= found.len(),
            views(out@) == kept(views(found@.take(i as int)), needle@),
        decreases found.len() - i,
    {
        let m = found[i];
        proof {
            kept_push(views(found@.take(i as int)), m@, needle@);
            assert(views(found@.take(i as int)).push(m@) =~= views(found@.take(i + 1)));
        }
        if m.contains(needle) {
            proof {
                assert(views(out@).push(m@) =~= views(out@.push(m)));
            }
            out.push(m);
        }
        i += 1;
    }
    assert(found@.take(found.len() as int) =~= found@);
    out
}

/// Lays out the listing of the given manufacturers: the count, then the
/// entries, numbered from one.
pub fn result_text<'a>(found: &Vec<AutoManufacturer<'a>>) -> (out: String)
    ensures
        out@ == listing_text(views(found@)),
{
    let mut out = decimal_text(found.len());
    out.append(" manufacturers found\n");
    let mut i: usize = 0;
    proof {
        assert(views(found@.take(0)) =~= Seq::<Record>::empty());
    }
    while i < found.len()
        invariant
            i <= found.len(),
            out@ == decimal(found.len() as nat) + " manufacturers found\n"@ + entries_text(
                views(found@.take(i as int)),
            ),
        decreases found.len() - i,
    {
        let block = found[i].display();
        let ordinal = decimal_text(i + 1);
        proof {
            let before = views(found@.take(i as int));
            let after = views(found@.take(i + 1));
            assert(after.drop_last() =~= before);
            assert(after.last() == found@[i as int]@);
            assert(entries_text(after) == entries_text(before) + entry_text(
                (i + 1) as nat,
                found@[i as int]@,
            ));
        }
        out.append("Manufacturer #");
        out.append(ordinal.as_str());
        out.append("\n");
        out.append(block.as_str());
        i += 1;
    }
    assert(found@.take(found.len() as int) =~= found@);
    out
}

/// Filters the manufacturers and lays out the listing of those kept. Fails
/// exactly when none is kept.
pub fn listing<'a>(found: Vec<AutoManufacturer<'a>>, needle: &str) -> (r: Result<String, Failure>)
    ensures
        match r {
            Ok(text) => listing_of(views(found@), needle@) == Ok::<Seq<char>, Failure>(text@),
            Err(e) => listing_of(views(found@), needle@) == Err::<Seq<char>, Failure>(e),
        },
{
    let chosen = select(found, needle);
    if chosen.len() == 0 {
        Err(Failure::NoneFound)
    } else {
        Ok(result_text(&chosen))
    }
}

/// What to show for a response and a filter text: the listing of the
/// manufacturers that the filter keeps, or the failure that ends the run.
pub fn report(response: &Value, needle: &str) -> (r: Result<String, Failure>)
    ensures
        match r {
            Ok(text) => report_of(*response, needle@) == Ok::<Seq<char>, Failure>(text@),
            Err(e) => report_of(*response, needle@) == Err::<Seq<char>, Failure>(e),
        },
{
    match manufacturers(response) {
        Err(e) => Err(e),
        Ok(found) => listing(found, needle),
    }
}

} // verus!
