//! File lists: reading the paths out of a list file, writing a list out,
//! and searching within a loaded list.

use vstd::prelude::*;
use crate::chars::{
    chars_of,
    contains_text,
    copy_range,
    extend,
    find_char,
    first_index,
    holds_text,
    split,
    split_on,
    string_of,
    strip,
    stripped,
    views_of,
    CharClass,
};
use crate::config::{lowercase, lowercase_of};
use crate::file_result::FileResult;
use crate::text::{decimal_digits, decimal_text, trimmed, trimmed_of};

verus! {

/// Seconds from the epoch to the start of the year 2000.
pub const YEAR_2000: u64 = 946_684_800;

/// The path that a line of a list file names. A line of nothing but
/// whitespace names none. Of a line with commas the first field counts. The
/// path is taken without surrounding whitespace and double quotes.
pub open spec fn line_path(line: Seq<char>) -> Option<Seq<char>> {
    let text = stripped(line, CharClass::Space);
    let comma = first_index(text, ',');
    if text.len() == 0 {
        None
    } else if 0 <= comma < text.len() {
        Some(stripped(stripped(text.subrange(0, comma), CharClass::Space), CharClass::Quote))
    } else {
        Some(stripped(text, CharClass::Quote))
    }
}

/// Reads the path out of a line of a list file.
pub fn parse_list_line(line: &Vec<char>) -> (path: Option<Vec<char>>)
    ensures
        match path {
            Some(p) => line_path(line@) == Some(p@),
            None => line_path(line@) is None,
        },
{
    let text = strip(line, CharClass::Space);
    if text.len() == 0 {
        return None;
    }
    proof {
        assert(text@.subrange(0, text@.len() as int) =~= text@);
    }
    let comma = find_char(&text, 0, ',');
    if comma < text.len() {
        let field = copy_range(&text, 0, comma);
        let inner = strip(&field, CharClass::Space);
        Some(strip(&inner, CharClass::Quote))
    } else {
        Some(strip(&text, CharClass::Quote))
    }
}

/// The paths that the lines of a list file name, in the order of the lines.
pub open spec fn paths_of(lines: Seq<Seq<char>>) -> Seq<Seq<char>>
    decreases lines.len(),
{
    if lines.len() == 0 {
        Seq::<Seq<char>>::empty()
    } else {
        match line_path(lines.last()) {
            Some(p) => paths_of(lines.drop_last()).push(p),
            None => paths_of(lines.drop_last()),
        }
    }
}

/// The texts that some strings hold.
pub open spec fn texts_of(strings: Seq<String>) -> Seq<Seq<char>> {
    Seq::new(strings.len(), |i: int| strings[i]@)
}

/// Reads the paths out of the text of a list file: one path a line, or
/// comma-separated lines whose first field is the path.
pub fn list_file_paths(content: &str) -> (paths: Vec<String>)
    ensures
        texts_of(paths@) == paths_of(split_on(content@, '\n')),
{
    let chars = chars_of(content);
    let lines = split(&chars, '\n');
    let mut paths: Vec<String> = Vec::new();
    let mut i: usize = 0;
    proof {
        assert(texts_of(paths@) =~= paths_of(views_of(lines@).subrange(0, 0)));
    }
    while i < lines.len()
        invariant
            i <= lines@.len(),
            views_of(lines@) == split_on(content@, '\n'),
            texts_of(paths@) == paths_of(views_of(lines@).subrange(0, i as int)),
        decreases lines@.len() - i,
    {
        let ghost before = paths@;
        let ghost next = views_of(lines@).subrange(0, i + 1);
        proof {
            assert(next.last() == lines@[i as int]@);
            assert(next.drop_last() =~= views_of(lines@).subrange(0, i as int));
        }
        match parse_list_line(&lines[i]) {
            Some(p) => {
                let text = string_of(&p);
                paths.push(text);
                proof {
                    assert(texts_of(paths@) =~= texts_of(before).push(p@));
                }
            },
            None => {},
        }
        i = i + 1;
    }
    proof {
        assert(views_of(lines@).subrange(0, i as int) =~= views_of(lines@));
    }
    paths
}

/// The line of a saved list for one entry: the path in double quotes, the
/// size and the time of modification, separated by commas.
pub open spec fn saved_line(entry: FileResult) -> Seq<char> {
    "\""@ + entry.path@ + "\","@ + decimal_digits(entry.size as nat) + ","@ + decimal_digits(
        entry.modified_time as nat,
    ) + "\n"@
}

/// The lines of a saved list for some entries.
pub open spec fn saved_lines(entries: Seq<FileResult>) -> Seq<char>
    decreases entries.len(),
{
    if entries.len() == 0 {
        Seq::<char>::empty()
    } else {
        saved_lines(entries.drop_last()) + saved_line(entries.last())
    }
}

/// The text of a saved list: two lines of comment and a line for each
/// entry.
pub open spec fn saved_list(entries: Seq<FileResult>) -> Seq<char> {
    "# File List Export\n"@ + "# Format: \"Path\",Size,Modified\n"@ + saved_lines(entries)
}

/// Writes a list out with sizes and times of modification.
pub fn file_list_text(entries: &Vec<FileResult>) -> (text: String)
    ensures
        text@ == saved_list(entries@),
{
    let mut out: Vec<char> = chars_of("# File List Export\n");
    let comment = chars_of("# Format: \"Path\",Size,Modified\n");
    extend(&mut out, &comment);
    let ghost head = out@;
    let quote = chars_of("\"");
    let quote_comma = chars_of("\",");
    let comma = chars_of(",");
    let newline = chars_of("\n");
    let mut i: usize = 0;
    proof {
        assert(out@ =~= head + saved_lines(entries@.subrange(0, 0)));
    }
    while i < entries.len()
        invariant
            i <= entries@.len(),
            head == "# File List Export\n"@ + "# Format: \"Path\",Size,Modified\n"@,
            quote@ == "\""@,
            quote_comma@ == "\","@,
            comma@ == ","@,
            newline@ == "\n"@,
            out@ == head + saved_lines(entries@.subrange(0, i as int)),
        decreases entries@.len() - i,
    {
        let ghost before = out@;
        let ghost next = entries@.subrange(0, i + 1);
        let entry = &entries[i];
        let path = chars_of(entry.path.as_str());
        let size = chars_of(decimal_text(entry.size).as_str());
        let modified = chars_of(decimal_text(entry.modified_time).as_str());
        extend(&mut out, &quote);
        extend(&mut out, &path);
        extend(&mut out, &quote_comma);
        extend(&mut out, &size);
        extend(&mut out, &comma);
        extend(&mut out, &modified);
        extend(&mut out, &newline);
        proof {
            assert(next.last() == entries@[i as int]);
            assert(next.drop_last() =~= entries@.subrange(0, i as int));
            assert(out@ =~= before + saved_line(entries@[i as int]));
            assert(out@ =~= head + saved_lines(next));
        }
        i = i + 1;
    }
    proof {
        assert(entries@.subrange(0, i as int) =~= entries@);
    }
    string_of(&out)
}

/// The text of a plain list: the path of each entry on a line of its own.
pub open spec fn plain_list(entries: Seq<FileResult>) -> Seq<char>
    decreases entries.len(),
{
    if entries.len() == 0 {
        Seq::<char>::empty()
    } else {
        plain_list(entries.drop_last()) + entries.last().path@ + "\n"@
    }
}

/// Writes the paths of a list out, one a line.
pub fn simple_list_text(entries: &Vec<FileResult>) -> (text: String)
    ensures
        text@ == plain_list(entries@),
{
    let mut out: Vec<char> = Vec::new();
    let newline = chars_of("\n");
    let mut i: usize = 0;
    proof {
        assert(out@ =~= plain_list(entries@.subrange(0, 0)));
    }
    while i < entries.len()
        invariant
            i <= entries@.len(),
            newline@ == "\n"@,
            out@ == plain_list(entries@.subrange(0, i as int)),
        decreases entries@.len() - i,
    {
        let ghost next = entries@.subrange(0, i + 1);
        let path = chars_of(entries[i].path.as_str());
        extend(&mut out, &path);
        extend(&mut out, &newline);
        proof {
            assert(next.last() == entries@[i as int]);
            assert(next.drop_last() =~= entries@.subrange(0, i as int));
        }
        i = i + 1;
    }
    proof {
        assert(entries@.subrange(0, i as int) =~= entries@);
    }
    string_of(&out)
}

/// Whether an entry matches a query that is already in lowercase: its name
/// or its path holds the query, regardless of letter case.
pub open spec fn entry_matches(entry: FileResult, lowered: Seq<char>) -> bool {
    holds_text(lowercase_of(entry.name@), lowered) || holds_text(
        lowercase_of(entry.path@),
        lowered,
    )
}

/// The entries of a list that match a query in lowercase, in their order.
pub open spec fn matching(entries: Seq<FileResult>, lowered: Seq<char>) -> Seq<FileResult>
    decreases entries.len(),
{
    if entries.len() == 0 {
        Seq::<FileResult>::empty()
    } else if entry_matches(entries.last(), lowered) {
        matching(entries.drop_last(), lowered).push(entries.last())
    } else {
        matching(entries.drop_last(), lowered)
    }
}

/// A search finds no more entries than the list holds.
pub proof fn lemma_matching_is_shorter(entries: Seq<FileResult>, lowered: Seq<char>)
    ensures
        matching(entries, lowered).len() <= entries.len(),
    decreases entries.len(),
{
    if entries.len() > 0 {
        lemma_matching_is_shorter(entries.drop_last(), lowered);
    }
}

/// A copy of an entry.
pub fn copy_entry(entry: &FileResult) -> (copy: FileResult)
    ensures
        copy == *entry,
{
    FileResult {
        name: entry.name.clone(),
        path: entry.path.clone(),
        size: entry.size,
        modified_time: entry.modified_time,
        file_type: entry.file_type.clone(),
        extension: entry.extension.clone(),
    }
}

/// A copy of a list.
pub fn copy_entries(entries: &Vec<FileResult>) -> (copy: Vec<FileResult>)
    ensures
        copy@ == entries@,
{
    let mut copy: Vec<FileResult> = Vec::new();
    let mut i: usize = 0;
    while i < entries.len()
        invariant
            i <= entries@.len(),
            copy@ == entries@.subrange(0, i as int),
        decreases entries@.len() - i,
    {
        copy.push(copy_entry(&entries[i]));
        proof {
            assert(entries@.subrange(0, i as int).push(entries@[i as int]) =~= entries@.subrange(
                0,
                i + 1,
            ));
        }
        i = i + 1;
    }
    proof {
        assert(entries@.subrange(0, i as int) =~= entries@);
    }
    copy
}

/// Picks the entries that match a query which is already in lowercase.
pub fn filter_lowered(entries: &Vec<FileResult>, lowered: &str) -> (found: Vec<FileResult>)
    ensures
        found@ == matching(entries@, lowered@),
{
    let pattern = chars_of(lowered);
    let mut found: Vec<FileResult> = Vec::new();
    let mut i: usize = 0;
    proof {
        assert(found@ =~= matching(entries@.subrange(0, 0), lowered@));
    }
    while i < entries.len()
        invariant
            i <= entries@.len(),
            pattern@ == lowered@,
            found@ == matching(entries@.subrange(0, i as int), lowered@),
        decreases entries@.len() - i,
    {
        let ghost next = entries@.subrange(0, i + 1);
        proof {
            assert(next.last() == entries@[i as int]);
            assert(next.drop_last() =~= entries@.subrange(0, i as int));
        }
        let entry = &entries[i];
        let name = chars_of(lowercase(entry.name.as_str()).as_str());
        let hit = if contains_text(&name, &pattern) {
            true
        } else {
            let path = chars_of(lowercase(entry.path.as_str()).as_str());
            contains_text(&path, &pattern)
        };
        if hit {
            found.push(copy_entry(entry));
        }
        i = i + 1;
    }
    proof {
        assert(entries@.subrange(0, i as int) =~= entries@);
    }
    found
}

/// The entries that a query finds in a list: all of them for a blank
/// query, else those whose name or path holds the query, regardless of
/// letter case.
pub open spec fn found_in(entries: Seq<FileResult>, query: Seq<char>) -> Seq<FileResult> {
    if trimmed_of(query).len() == 0 {
        entries
    } else {
        matching(entries, lowercase_of(query))
    }
}

/// Searches a list.
pub fn search_entries(entries: &Vec<FileResult>, query: &str) -> (found: Vec<FileResult>)
    ensures
        found@ == found_in(entries@, query@),
{
    if trimmed(query).is_empty() {
        copy_entries(entries)
    } else {
        let lowered = lowercase(query);
        filter_lowered(entries, lowered.as_str())
    }
}

/// Whether a text looks like a date of a list file: it holds a slash and
/// one of the marks `AM` and `PM`.
pub open spec fn looks_like_date(text: Seq<char>) -> bool {
    holds_text(text, "/"@) && (holds_text(text, "AM"@) || holds_text(text, "PM"@))
}

/// Reads a date of a list file. The date itself is not worked out: a text
/// that looks like a date stands for the start of the year 2000, any other
/// is an error.
pub fn parse_efu_date(date_str: &str) -> (date: Result<u64, ()>)
    ensures
        looks_like_date(date_str@) ==> date == Ok::<u64, ()>(YEAR_2000),
        !looks_like_date(date_str@) ==> date is Err,
{
    let text = chars_of(date_str);
    let slash = chars_of("/");
    let am = chars_of("AM");
    let pm = chars_of("PM");
    if contains_text(&text, &slash) && (contains_text(&text, &am) || contains_text(&text, &pm)) {
        Ok(YEAR_2000)
    } else {
        Err(())
    }
}

} // verus!
