//! Text as sequences of characters: when one text occurs inside another.

use vstd::prelude::*;

verus! {

/// Whether `needle` occurs in `hay` as a run of adjacent characters. The
/// empty text occurs in every text.
pub open spec fn occurs_in(needle: Seq<char>, hay: Seq<char>) -> bool {
    exists|from: int, to: int|
        0 <= from <= to <= hay.len() && #[trigger] hay.subrange(from, to) == needle
}

/// Whether `needle` occurs in `hay`, as `str::contains` of the standard
/// library finds it. Trusted: that `contains`, given a string as its pattern,
/// answers `true` exactly when some run of adjacent characters of `hay`
/// equals `needle`.
#[verifier::external_body]
pub(crate) fn contains_text(hay: &str, needle: &str) -> (found: bool)
    ensures
        found == occurs_in(needle@, hay@),
{
    hay.contains(needle)
}

} // verus!
