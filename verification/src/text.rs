//! Texts as sequences of characters: occurrence of one text inside another,
//! and the decimal form of a count.

use vstd::prelude::*;

verus! {

/// `needle` stands in `hay` at position `at`, character for character.
pub open spec fn occurs_at(needle: Seq<char>, hay: Seq<char>, at: int) -> bool {
    &&& 0 <= at
    &&& at + needle.len() <= hay.len()
    &&& hay.subrange(at, at + needle.len()) == needle
}

/// `needle` occurs somewhere in `hay`. The comparison is literal: no case
/// folding, no normalisation.
pub open spec fn is_substring(needle: Seq<char>, hay: Seq<char>) -> bool {
    exists|at: int| occurs_at(needle, hay, at)
}

/// The character of one decimal digit.
pub open spec fn digit(d: nat) -> char
    recommends
        d < 10,
{
    seq!['0', '1', '2', '3', '4', '5', '6', '7', '8', '9'][d as int]
}

/// The decimal form of a number, most significant digit first, without
/// leading zeros.
pub open spec fn decimal(n: nat) -> Seq<char>
    decreases n,
{
    if n < 10 {
        seq![digit(n)]
    } else {
        decimal(n / 10).push(digit(n % 10))
    }
}

/// The empty text occurs in every text.
pub proof fn empty_occurs_everywhere(hay: Seq<char>)
    ensures
        is_substring(Seq::empty(), hay),
{
    assert(hay.subrange(0, 0) =~= Seq::<char>::empty());
    assert(occurs_at(Seq::empty(), hay, 0));
}

/// `str::contains` with a text pattern: whether the pattern occurs in the
/// text as a contiguous run of characters.
#[verifier::external_body]
pub(crate) fn str_contains(hay: &str, needle: &str) -> (found: bool)
    ensures
        found == is_substring(needle@, hay@),
{
    hay.contains(needle)
}

/// `usize::to_string`: the number written in decimal.
#[verifier::external_body]
pub(crate) fn decimal_text(n: usize) -> (s: String)
    ensures
        s@ == decimal(n as nat),
{
    n.to_string()
}

} // verus!
