//! Texts as sequences of characters, and the few operations on them that
//! reading and writing list files takes.

use vstd::prelude::*;

verus! {

/// Whether a character is whitespace, as `char::is_whitespace` tells.
pub uninterp spec fn space_char(c: char) -> bool;

/// Calls `char::is_whitespace`, which depends on the character alone.
#[verifier::external_body]
pub(crate) fn is_space(c: char) -> (space: bool)
    ensures
        space == space_char(c),
{
    c.is_whitespace()
}

/// Calls `String::from_iter` on the characters: the text that consists of
/// them.
#[verifier::external_body]
pub(crate) fn string_of(chars: &Vec<char>) -> (text: String)
    ensures
        text@ == chars@,
{
    String::from_iter(chars.iter())
}

/// The characters of a text.
pub fn chars_of(text: &str) -> (chars: Vec<char>)
    ensures
        chars@ == text@,
{
    broadcast use vstd::string::axiom_spec_iter;

    let mut chars: Vec<char> = Vec::new();
    for c in it: text.chars()
        invariant
            it.seq() == text@,
            chars@ == it.seq().take(it.index()),
    {
        chars.push(c);
    }
    chars
}

/// A kind of character that is stripped from the ends of a text.
#[derive(Debug, Clone, Copy, PartialEq, Eq, Structural)]
pub enum CharClass {
    /// Whitespace.
    Space,
    /// The double quote.
    Quote,
}

/// Whether a character is of a class.
pub open spec fn in_class(c: char, class: CharClass) -> bool {
    match class {
        CharClass::Space => space_char(c),
        CharClass::Quote => c == '"',
    }
}

/// Tells whether a character is of a class.
pub fn is_in_class(c: char, class: CharClass) -> (inside: bool)
    ensures
        inside == in_class(c, class),
{
    match class {
        CharClass::Space => is_space(c),
        CharClass::Quote => c == '"',
    }
}

/// A text without the characters of a class at its start.
pub open spec fn strip_start(s: Seq<char>, class: CharClass) -> Seq<char>
    decreases s.len(),
{
    if s.len() > 0 && in_class(s[0], class) {
        strip_start(s.subrange(1, s.len() as int), class)
    } else {
        s
    }
}

/// A text without the characters of a class at its end.
pub open spec fn strip_end(s: Seq<char>, class: CharClass) -> Seq<char>
    decreases s.len(),
{
    if s.len() > 0 && in_class(s.last(), class) {
        strip_end(s.drop_last(), class)
    } else {
        s
    }
}

/// A text without the characters of a class at either end.
pub open spec fn stripped(s: Seq<char>, class: CharClass) -> Seq<char> {
    strip_end(strip_start(s, class), class)
}

/// Copies the characters from `from` up to `to`.
pub fn copy_range(s: &Vec<char>, from: usize, to: usize) -> (part: Vec<char>)
    requires
        from <= to <= s@.len(),
    ensures
        part@ == s@.subrange(from as int, to as int),
{
    let mut part: Vec<char> = Vec::new();
    let mut i: usize = from;
    while i < to
        invariant
            from <= i <= to <= s@.len(),
            part@ == s@.subrange(from as int, i as int),
        decreases to - i,
    {
        part.push(s[i]);
        proof {
            assert(s@.subrange(from as int, i as int).push(s@[i as int]) =~= s@.subrange(
                from as int,
                i + 1,
            ));
        }
        i = i + 1;
    }
    part
}

/// Strips the characters of a class from both ends of a text.
pub fn strip(s: &Vec<char>, class: CharClass) -> (rest: Vec<char>)
    ensures
        rest@ == stripped(s@, class),
{
    let len: usize = s.len();
    let mut lo: usize = 0;
    proof {
        assert(s@.subrange(0, len as int) =~= s@);
    }
    while lo < len && is_in_class(s[lo], class)
        invariant
            lo <= len == s@.len(),
            strip_start(s@, class) == strip_start(s@.subrange(lo as int, len as int), class),
        decreases len - lo,
    {
        proof {
            let here = s@.subrange(lo as int, len as int);
            assert(here[0] == s@[lo as int]);
            assert(here.subrange(1, here.len() as int) =~= s@.subrange(lo + 1, len as int));
        }
        lo = lo + 1;
    }
    proof {
        let here = s@.subrange(lo as int, len as int);
        if lo < len {
            assert(here[0] == s@[lo as int]);
        }
        assert(strip_start(s@, class) == here);
    }
    let mut hi: usize = len;
    while hi > lo && is_in_class(s[hi - 1], class)
        invariant
            lo <= hi <= len == s@.len(),
            stripped(s@, class) == strip_end(s@.subrange(lo as int, hi as int), class),
        decreases hi - lo,
    {
        proof {
            let here = s@.subrange(lo as int, hi as int);
            assert(here.last() == s@[hi - 1]);
            assert(here.drop_last() =~= s@.subrange(lo as int, hi - 1));
        }
        hi = hi - 1;
    }
    proof {
        let here = s@.subrange(lo as int, hi as int);
        if hi > lo {
            assert(here.last() == s@[hi - 1]);
        }
        assert(strip_end(here, class) == here);
    }
    copy_range(s, lo, hi)
}

/// The position of the first occurrence of a character in a text, or the
/// length of the text where it does not occur.
pub open spec fn first_index(s: Seq<char>, c: char) -> int
    decreases s.len(),
{
    if s.len() == 0 {
        0
    } else if s[0] == c {
        0
    } else {
        1 + first_index(s.subrange(1, s.len() as int), c)
    }
}

/// The first occurrence of a character is a position of the text or its
/// length, holds the character, and nothing before it does.
pub proof fn lemma_first_index(s: Seq<char>, c: char)
    ensures
        0 <= first_index(s, c) <= s.len(),
        first_index(s, c) < s.len() ==> s[first_index(s, c)] == c,
        forall|i: int| 0 <= i < first_index(s, c) ==> s[i] != c,
    decreases s.len(),
{
    if s.len() > 0 && s[0] != c {
        let rest = s.subrange(1, s.len() as int);
        lemma_first_index(rest, c);
        assert forall|i: int| 0 <= i < first_index(s, c) implies s[i] != c by {
            if i > 0 {
                assert(rest[i - 1] == s[i]);
            }
        }
    }
}

/// Finds the first occurrence of a character at or after `from`; gives the
/// length of the text where there is none.
pub fn find_char(s: &Vec<char>, from: usize, c: char) -> (at: usize)
    requires
        from <= s@.len(),
    ensures
        at == from + first_index(s@.subrange(from as int, s@.len() as int), c),
        from <= at <= s@.len(),
{
    let len: usize = s.len();
    let mut i: usize = from;
    while i < len && s[i] != c
        invariant
            from <= i <= len == s@.len(),
            from + first_index(s@.subrange(from as int, len as int), c) == i + first_index(
                s@.subrange(i as int, len as int),
                c,
            ),
        decreases len - i,
    {
        proof {
            let here = s@.subrange(i as int, len as int);
            assert(here[0] == s@[i as int]);
            assert(here.subrange(1, here.len() as int) =~= s@.subrange(i + 1, len as int));
        }
        i = i + 1;
    }
    proof {
        let here = s@.subrange(i as int, len as int);
        if i < len {
            assert(here[0] == s@[i as int]);
        }
    }
    i
}

/// The pieces of a text between the occurrences of a separator. A text
/// without the separator is one piece; a separator at the end is followed
/// by an empty piece.
pub open spec fn split_on(s: Seq<char>, sep: char) -> Seq<Seq<char>>
    decreases s.len(),
{
    let at = first_index(s, sep);
    if at < 0 || at >= s.len() {
        seq![s]
    } else {
        seq![s.subrange(0, at)] + split_on(s.subrange(at + 1, s.len() as int), sep)
    }
}

/// The texts that some vectors of characters hold.
pub open spec fn views_of(parts: Seq<Vec<char>>) -> Seq<Seq<char>> {
    Seq::new(parts.len(), |i: int| parts[i]@)
}

/// Splits a text at every occurrence of a separator.
pub fn split(s: &Vec<char>, sep: char) -> (parts: Vec<Vec<char>>)
    ensures
        views_of(parts@) == split_on(s@, sep),
{
    let len: usize = s.len();
    let mut parts: Vec<Vec<char>> = Vec::new();
    let mut start: usize = 0;
    proof {
        assert(s@.subrange(0, len as int) =~= s@);
        assert(views_of(parts@) + split_on(s@, sep) =~= split_on(s@, sep));
    }
    loop
        invariant_except_break
            split_on(s@, sep) == views_of(parts@) + split_on(
                s@.subrange(start as int, len as int),
                sep,
            ),
        invariant
            start <= len == s@.len(),
        ensures
            views_of(parts@) == split_on(s@, sep),
        decreases len - start,
    {
        let ghost here = s@.subrange(start as int, len as int);
        let ghost before = parts@;
        let at = find_char(s, start, sep);
        let piece = copy_range(s, start, at);
        parts.push(piece);
        proof {
            lemma_first_index(here, sep);
            assert(s@.subrange(start as int, at as int) =~= here.subrange(0, at - start));
            assert(views_of(parts@) =~= views_of(before) + seq![piece@]);
        }
        if at >= len {
            proof {
                assert(here.subrange(0, here.len() as int) =~= here);
                assert(views_of(before) + seq![here] =~= views_of(parts@));
            }
            break ;
        }
        proof {
            assert(here.subrange(at - start + 1, here.len() as int) =~= s@.subrange(
                at + 1,
                len as int,
            ));
            assert(views_of(before) + (seq![piece@] + split_on(s@.subrange(at + 1, len as int), sep))
                =~= views_of(parts@) + split_on(s@.subrange(at + 1, len as int), sep));
        }
        start = at + 1;
    }
    parts
}

/// Whether a pattern stands in a text at a position.
pub open spec fn stands_at(s: Seq<char>, at: int, pattern: Seq<char>) -> bool {
    0 <= at && at + pattern.len() <= s.len() && s.subrange(at, at + pattern.len()) == pattern
}

/// Tells whether a pattern stands in a text at a position.
pub fn matches_at(s: &Vec<char>, at: usize, pattern: &Vec<char>) -> (found: bool)
    requires
        at <= s@.len(),
    ensures
        found == stands_at(s@, at as int, pattern@),
{
    let plen: usize = pattern.len();
    let len: usize = s.len();
    if plen > len - at {
        return false;
    }
    let mut k: usize = 0;
    while k < plen
        invariant
            k <= plen == pattern@.len(),
            at + plen <= len == s@.len(),
            forall|j: int| 0 <= j < k ==> s@[at + j] == pattern@[j],
        decreases plen - k,
    {
        if s[at + k] != pattern[k] {
            proof {
                assert(s@.subrange(at as int, at + plen)[k as int] == s@[at + k]);
            }
            return false;
        }
        k = k + 1;
    }
    proof {
        assert(s@.subrange(at as int, at + plen) =~= pattern@);
    }
    true
}

/// Whether a text begins with a pattern.
pub open spec fn begins_with(s: Seq<char>, pattern: Seq<char>) -> bool {
    stands_at(s, 0, pattern)
}

/// Whether a pattern stands somewhere in a text.
pub open spec fn holds_text(s: Seq<char>, pattern: Seq<char>) -> bool {
    exists|at: int| stands_at(s, at, pattern)
}

/// Tells whether a pattern stands somewhere in a text.
pub fn contains_text(s: &Vec<char>, pattern: &Vec<char>) -> (found: bool)
    ensures
        found == holds_text(s@, pattern@),
{
    let len: usize = s.len();
    let mut at: usize = 0;
    loop
        invariant
            at <= len == s@.len(),
            forall|j: int| 0 <= j < at ==> !stands_at(s@, j, pattern@),
        decreases len - at,
    {
        if matches_at(s, at, pattern) {
            return true;
        }
        if at == len {
            return false;
        }
        at = at + 1;
    }
}

/// A text in which every occurrence of a pattern is replaced, from the
/// left and without overlap.
pub open spec fn replaced(s: Seq<char>, pattern: Seq<char>, with: Seq<char>) -> Seq<char>
    decreases s.len(),
{
    if pattern.len() == 0 || s.len() == 0 {
        s
    } else if stands_at(s, 0, pattern) {
        with + replaced(s.subrange(pattern.len() as int, s.len() as int), pattern, with)
    } else {
        seq![s[0]] + replaced(s.subrange(1, s.len() as int), pattern, with)
    }
}

/// Replaces every occurrence of a pattern in a text.
pub fn replace(s: &Vec<char>, pattern: &Vec<char>, with: &Vec<char>) -> (out: Vec<char>)
    requires
        pattern@.len() > 0,
    ensures
        out@ == replaced(s@, pattern@, with@),
{
    let len: usize = s.len();
    let plen: usize = pattern.len();
    let mut out: Vec<char> = Vec::new();
    let mut i: usize = 0;
    proof {
        assert(s@.subrange(0, len as int) =~= s@);
        assert(out@ + replaced(s@, pattern@, with@) =~= replaced(s@, pattern@, with@));
    }
    while i < len
        invariant
            i <= len == s@.len(),
            plen == pattern@.len(),
            plen > 0,
            replaced(s@, pattern@, with@) == out@ + replaced(
                s@.subrange(i as int, len as int),
                pattern@,
                with@,
            ),
        decreases len - i,
    {
        let ghost here = s@.subrange(i as int, len as int);
        let ghost before = out@;
        if matches_at(s, i, pattern) {
            let mut k: usize = 0;
            while k < with.len()
                invariant
                    k <= with@.len(),
                    out@ == before + with@.subrange(0, k as int),
                decreases with@.len() - k,
            {
                out.push(with[k]);
                proof {
                    assert(with@.subrange(0, k as int).push(with@[k as int]) =~= with@.subrange(
                        0,
                        k + 1,
                    ));
                    assert(out@ =~= before + with@.subrange(0, k + 1));
                }
                k = k + 1;
            }
            proof {
                assert(with@.subrange(0, with@.len() as int) =~= with@);
                assert(here.subrange(0, plen as int) =~= s@.subrange(i as int, i + plen));
                assert(here.subrange(plen as int, here.len() as int) =~= s@.subrange(
                    i + plen,
                    len as int,
                ));
                assert(before + (with@ + replaced(
                    s@.subrange(i + plen, len as int),
                    pattern@,
                    with@,
                )) =~= out@ + replaced(s@.subrange(i + plen, len as int), pattern@, with@));
            }
            i = i + plen;
        } else {
            out.push(s[i]);
            proof {
                if i + plen <= len {
                    assert(here.subrange(0, plen as int) =~= s@.subrange(i as int, i + plen));
                }
                assert(here[0] == s@[i as int]);
                assert(here.subrange(1, here.len() as int) =~= s@.subrange(i + 1, len as int));
                assert(before + (seq![here[0]] + replaced(
                    s@.subrange(i + 1, len as int),
                    pattern@,
                    with@,
                )) =~= out@ + replaced(s@.subrange(i + 1, len as int), pattern@, with@));
            }
            i = i + 1;
        }
    }
    proof {
        assert(s@.subrange(len as int, len as int).len() == 0);
        assert(out@ + Seq::<char>::empty() =~= out@);
    }
    out
}

/// Appends the characters of a second text to a first.
pub fn extend(out: &mut Vec<char>, more: &Vec<char>)
    ensures
        final(out)@ == old(out)@ + more@,
{
    let mut k: usize = 0;
    proof {
        assert(out@ + more@.subrange(0, 0) =~= out@);
    }
    while k < more.len()
        invariant
            k <= more@.len(),
            out@ == old(out)@ + more@.subrange(0, k as int),
        decreases more@.len() - k,
    {
        out.push(more[k]);
        proof {
            assert(more@.subrange(0, k as int).push(more@[k as int]) =~= more@.subrange(0, k + 1));
            assert(out@ =~= old(out)@ + more@.subrange(0, k + 1));
        }
        k = k + 1;
    }
    proof {
        assert(more@.subrange(0, more@.len() as int) =~= more@);
    }
}

} // verus!
