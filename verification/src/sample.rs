//! The sample data that is searched where no search provider is there.

use vstd::prelude::*;
use crate::chars::{chars_of, contains_text, extend, holds_text, string_of};
use crate::config::{lowercase, lowercase_of};
use crate::list_file::texts_of;
use crate::text::{decimal_digits, decimal_text, trimmed, trimmed_of};

verus! {

/// The number of sample files.
pub const SAMPLE_COUNT: u32 = 100_000;

/// A number in decimal notation, with zeros before it up to a width.
pub open spec fn zero_padded(n: nat, width: nat) -> Seq<char> {
    let digits = decimal_digits(n);
    if digits.len() >= width {
        digits
    } else {
        Seq::new((width - digits.len()) as nat, |i: int| '0') + digits
    }
}

/// The name of the sample file of a number.
pub open spec fn sample_name_of(number: nat) -> Seq<char> {
    "File_"@ + zero_padded(number, 6) + ".txt"@
}

/// The path of the sample file of a number.
pub open spec fn sample_path_of(number: nat) -> Seq<char> {
    "C:\\Users\\Example\\Documents\\"@ + sample_name_of(number)
}

/// Writes a number with zeros before it up to six digits.
fn padded_number(number: u32) -> (digits: Vec<char>)
    ensures
        digits@ == zero_padded(number as nat, 6),
{
    let number_text = decimal_text(number as u64);
    let plain = chars_of(number_text.as_str());
    let mut digits: Vec<char> = Vec::new();
    if plain.len() < 6 {
        let missing: usize = 6 - plain.len();
        let mut k: usize = 0;
        while k < missing
            invariant
                k <= missing,
                digits@ == Seq::new(k as nat, |i: int| '0'),
            decreases missing - k,
        {
            digits.push('0');
            proof {
                assert(digits@ =~= Seq::new((k + 1) as nat, |i: int| '0'));
            }
            k = k + 1;
        }
    }
    extend(&mut digits, &plain);
    proof {
        if plain@.len() >= 6 {
            assert(digits@ =~= plain@);
        }
    }
    digits
}

/// The name of the sample file of a number.
pub fn sample_name(number: u32) -> (name: String)
    ensures
        name@ == sample_name_of(number as nat),
{
    let mut out = chars_of("File_");
    extend(&mut out, &padded_number(number));
    extend(&mut out, &chars_of(".txt"));
    string_of(&out)
}

/// The path of the sample file of a number.
pub fn sample_path(number: u32) -> (path: String)
    ensures
        path@ == sample_path_of(number as nat),
{
    let mut out = chars_of("C:\\Users\\Example\\Documents\\");
    extend(&mut out, &chars_of(sample_name(number).as_str()));
    string_of(&out)
}

/// Whether the sample file of a number matches a query in lowercase: its
/// name or its path holds the query, regardless of letter case.
pub open spec fn sample_matches(number: nat, lowered: Seq<char>) -> bool {
    holds_text(lowercase_of(sample_name_of(number)), lowered) || holds_text(
        lowercase_of(sample_path_of(number)),
        lowered,
    )
}

/// The paths of the sample files below a number that a query finds: all of
/// them for a blank query, else those that match the query in lowercase.
pub open spec fn sample_hits(blank: bool, lowered: Seq<char>, below: nat) -> Seq<Seq<char>>
    decreases below,
{
    if below == 0 {
        Seq::<Seq<char>>::empty()
    } else if blank || sample_matches((below - 1) as nat, lowered) {
        sample_hits(blank, lowered, (below - 1) as nat).push(sample_path_of((below - 1) as nat))
    } else {
        sample_hits(blank, lowered, (below - 1) as nat)
    }
}

/// Picks the paths of the sample files that a query in lowercase finds.
pub fn sample_filter(blank: bool, lowered: &str) -> (found: Vec<String>)
    ensures
        texts_of(found@) == sample_hits(blank, lowered@, SAMPLE_COUNT as nat),
{
    let pattern = chars_of(lowered);
    let mut found: Vec<String> = Vec::new();
    let mut number: u32 = 0;
    proof {
        assert(texts_of(found@) =~= sample_hits(blank, lowered@, 0));
    }
    while number < SAMPLE_COUNT
        invariant
            number <= SAMPLE_COUNT,
            pattern@ == lowered@,
            texts_of(found@) == sample_hits(blank, lowered@, number as nat),
        decreases SAMPLE_COUNT - number,
    {
        let ghost before = found@;
        let path = sample_path(number);
        let hit = if blank {
            true
        } else {
            let name = chars_of(lowercase(sample_name(number).as_str()).as_str());
            if contains_text(&name, &pattern) {
                true
            } else {
                let whole = chars_of(lowercase(path.as_str()).as_str());
                contains_text(&whole, &pattern)
            }
        };
        if hit {
            found.push(path);
            proof {
                assert(texts_of(found@) =~= texts_of(before).push(sample_path_of(number as nat)));
            }
        }
        number = number + 1;
    }
    found
}

/// Searches the sample data: a blank query finds every sample file, any
/// other those whose name or path holds it, regardless of letter case.
pub fn sample_search(query: &str) -> (found: Vec<String>)
    ensures
        texts_of(found@) == sample_hits(
            trimmed_of(query@).len() == 0,
            lowercase_of(query@),
            SAMPLE_COUNT as nat,
        ),
{
    let blank = trimmed(query).is_empty();
    let lowered = lowercase(query);
    sample_filter(blank, lowered.as_str())
}

} // verus!
