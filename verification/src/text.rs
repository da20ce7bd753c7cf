//! Small text operations that the rest of the library builds labels from.

use vstd::prelude::*;

verus! {

/// The character that stands for a single decimal digit.
pub open spec fn digit_char(d: nat) -> char
    recommends
        d < 10,
{
    if d == 0 {
        '0'
    } else if d == 1 {
        '1'
    } else if d == 2 {
        '2'
    } else if d == 3 {
        '3'
    } else if d == 4 {
        '4'
    } else if d == 5 {
        '5'
    } else if d == 6 {
        '6'
    } else if d == 7 {
        '7'
    } else if d == 8 {
        '8'
    } else {
        '9'
    }
}

/// The decimal notation of a number, without sign or leading zeros.
pub open spec fn decimal_digits(n: nat) -> Seq<char>
    decreases n,
{
    if n < 10 {
        seq![digit_char(n)]
    } else {
        decimal_digits(n / 10).push(digit_char(n % 10))
    }
}

/// Calls `u64::to_string`, which writes the number in decimal notation with
/// no sign and no leading zeros.
#[verifier::external_body]
pub(crate) fn decimal_text(n: u64) -> (text: String)
    ensures
        text@ == decimal_digits(n as nat),
{
    n.to_string()
}

/// Calls the slice method `concat` on the two texts: the result is the first
/// followed by the second.
#[verifier::external_body]
pub(crate) fn append(first: &str, second: &str) -> (joined: String)
    ensures
        joined@ == first@ + second@,
{
    [first, second].concat()
}

/// The uppercase form of a text as `str::to_uppercase` computes it.
pub uninterp spec fn uppercase_of(text: Seq<char>) -> Seq<char>;

/// Calls `str::to_uppercase`. The result is the uppercase form of the
/// argument, which depends on the argument alone.
#[verifier::external_body]
pub(crate) fn uppercase(text: &str) -> (upper: String)
    ensures
        upper@ == uppercase_of(text@),
{
    text.to_uppercase()
}

/// The text without leading and trailing whitespace, as `str::trim` gives it.
pub uninterp spec fn trimmed_of(text: Seq<char>) -> Seq<char>;

/// Calls `str::trim`. The trimmed text depends on the argument alone.
#[verifier::external_body]
pub(crate) fn trimmed(text: &str) -> (rest: &str)
    ensures
        rest@ == trimmed_of(text@),
{
    text.trim()
}

/// Whether one text comes before another in the order of texts: at the
/// first place where they differ the one with the lower code point comes
/// first, and a text comes before every longer text it begins.
pub open spec fn text_before(a: Seq<char>, b: Seq<char>) -> bool
    decreases a.len(),
{
    if b.len() == 0 {
        false
    } else if a.len() == 0 {
        true
    } else if a[0] != b[0] {
        (a[0] as u32) < (b[0] as u32)
    } else {
        text_before(a.subrange(1, a.len() as int), b.subrange(1, b.len() as int))
    }
}

/// Calls the `<` of `str`, which orders texts by their bytes and thereby
/// by code points: whether the first text comes before the second.
#[verifier::external_body]
pub(crate) fn text_precedes(a: &str, b: &str) -> (before: bool)
    ensures
        before == text_before(a@, b@),
{
    a < b
}

} // verus!
