//! Language files: one `key=value` pair a line, with comments and quoted
//! values.

use vstd::prelude::*;
use crate::chars::{
    begins_with,
    chars_of,
    contains_text,
    copy_range,
    extend,
    find_char,
    first_index,
    holds_text,
    matches_at,
    replace,
    replaced,
    split,
    split_on,
    string_of,
    strip,
    stripped,
    views_of,
    CharClass,
};
use crate::lang::Language;
use crate::order::{pairs_sorted_from, sort_pairs};

verus! {

/// Whether a value stands in double quotes.
pub open spec fn is_quoted(value: Seq<char>) -> bool {
    value.len() >= 2 && value[0] == '"' && value.last() == '"'
}

/// A quoted value without its quotes and with its escapes resolved: `\n`,
/// `\r`, `\t` and `\"`, in this order.
pub open spec fn unescaped(value: Seq<char>) -> Seq<char> {
    let inner = value.subrange(1, value.len() - 1);
    replaced(
        replaced(replaced(replaced(inner, "\\n"@, "\n"@), "\\r"@, "\r"@), "\\t"@, "\t"@),
        "\\\""@,
        "\""@,
    )
}

/// The value that the text after the equals sign stands for.
pub open spec fn value_of(text: Seq<char>) -> Seq<char> {
    let value = stripped(text, CharClass::Space);
    if is_quoted(value) {
        unescaped(value)
    } else {
        value
    }
}

/// The pair that a line of a language file holds. Empty lines and lines
/// that begin with `#` or `//` are comments; a line without an equals sign,
/// or with nothing before it, holds no pair. The key is what stands before
/// the first equals sign, the value what stands after it, both without
/// surrounding whitespace.
pub open spec fn line_pair(line: Seq<char>) -> Option<(Seq<char>, Seq<char>)> {
    let text = stripped(line, CharClass::Space);
    let eq = first_index(text, '=');
    if text.len() == 0 || begins_with(text, "#"@) || begins_with(text, "//"@) {
        None
    } else if !(0 <= eq < text.len()) {
        None
    } else if stripped(text.subrange(0, eq), CharClass::Space).len() == 0 {
        None
    } else {
        Some(
            (
                stripped(text.subrange(0, eq), CharClass::Space),
                value_of(text.subrange(eq + 1, text.len() as int)),
            ),
        )
    }
}

/// Resolves the value that stands after the equals sign.
pub fn parse_value(text: &Vec<char>) -> (value: Vec<char>)
    ensures
        value@ == value_of(text@),
{
    let value = strip(text, CharClass::Space);
    let len: usize = value.len();
    if len >= 2 && value[0] == '"' && value[len - 1] == '"' {
        let inner = copy_range(&value, 1, len - 1);
        proof {
            reveal_strlit("\\n");
            reveal_strlit("\\r");
            reveal_strlit("\\t");
            reveal_strlit("\\\"");
        }
        let a = replace(&inner, &chars_of("\\n"), &chars_of("\n"));
        let b = replace(&a, &chars_of("\\r"), &chars_of("\r"));
        let c = replace(&b, &chars_of("\\t"), &chars_of("\t"));
        replace(&c, &chars_of("\\\""), &chars_of("\""))
    } else {
        value
    }
}

/// Reads the pair out of a line of a language file.
pub fn parse_language_line(line: &Vec<char>) -> (pair: Option<(Vec<char>, Vec<char>)>)
    ensures
        match pair {
            Some(p) => line_pair(line@) == Some((p.0@, p.1@)),
            None => line_pair(line@) is None,
        },
{
    let text = strip(line, CharClass::Space);
    let len: usize = text.len();
    if len == 0 || matches_at(&text, 0, &chars_of("#")) || matches_at(&text, 0, &chars_of("//")) {
        return None;
    }
    proof {
        assert(text@.subrange(0, len as int) =~= text@);
    }
    let eq = find_char(&text, 0, '=');
    if eq >= len {
        return None;
    }
    let key = strip(&copy_range(&text, 0, eq), CharClass::Space);
    if key.len() == 0 {
        return None;
    }
    let value = parse_value(&copy_range(&text, eq + 1, len));
    Some((key, value))
}

/// The pairs that the lines of a language file hold, in the order of the
/// lines.
pub open spec fn pairs_of(lines: Seq<Seq<char>>) -> Seq<(Seq<char>, Seq<char>)>
    decreases lines.len(),
{
    if lines.len() == 0 {
        Seq::<(Seq<char>, Seq<char>)>::empty()
    } else {
        match line_pair(lines.last()) {
            Some(p) => pairs_of(lines.drop_last()).push(p),
            None => pairs_of(lines.drop_last()),
        }
    }
}

/// The texts that some pairs of strings hold.
pub open spec fn pair_texts(pairs: Seq<(String, String)>) -> Seq<(Seq<char>, Seq<char>)> {
    Seq::new(pairs.len(), |i: int| (pairs[i].0@, pairs[i].1@))
}

/// Reads the translations out of the text of a language file.
pub fn parse_language_text(content: &str) -> (pairs: Vec<(String, String)>)
    ensures
        pair_texts(pairs@) == pairs_of(split_on(content@, '\n')),
{
    let chars = chars_of(content);
    let lines = split(&chars, '\n');
    let mut pairs: Vec<(String, String)> = Vec::new();
    let mut i: usize = 0;
    proof {
        assert(pair_texts(pairs@) =~= pairs_of(views_of(lines@).subrange(0, 0)));
    }
    while i < lines.len()
        invariant
            i <= lines@.len(),
            views_of(lines@) == split_on(content@, '\n'),
            pair_texts(pairs@) == pairs_of(views_of(lines@).subrange(0, i as int)),
        decreases lines@.len() - i,
    {
        let ghost before = pairs@;
        let ghost next = views_of(lines@).subrange(0, i + 1);
        proof {
            assert(next.last() == lines@[i as int]@);
            assert(next.drop_last() =~= views_of(lines@).subrange(0, i as int));
        }
        match parse_language_line(&lines[i]) {
            Some(p) => {
                let key = string_of(&p.0);
                let value = string_of(&p.1);
                pairs.push((key, value));
                proof {
                    assert(pair_texts(pairs@) =~= pair_texts(before).push((p.0@, p.1@)));
                }
            },
            None => {},
        }
        i = i + 1;
    }
    proof {
        assert(views_of(lines@).subrange(0, i as int) =~= views_of(lines@));
    }
    pairs
}

/// Whether a value is written in quotes: it holds a line break or a double
/// quote, or begins or ends with a blank.
pub open spec fn needs_quotes(value: Seq<char>) -> bool {
    ||| holds_text(value, "\n"@)
    ||| holds_text(value, "\r"@)
    ||| holds_text(value, "\""@)
    ||| (value.len() > 0 && value[0] == ' ')
    ||| (value.len() > 0 && value.last() == ' ')
}

/// A value with its double quotes and line breaks written as escapes.
pub open spec fn escaped(value: Seq<char>) -> Seq<char> {
    replaced(replaced(replaced(value, "\""@, "\\\""@), "\n"@, "\\n"@), "\r"@, "\\r"@)
}

/// The line of a language file for a pair.
pub open spec fn pair_line(key: Seq<char>, value: Seq<char>) -> Seq<char> {
    if needs_quotes(value) {
        key + "=\""@ + escaped(value) + "\"\n"@
    } else {
        key + "="@ + value + "\n"@
    }
}

/// The lines of a language file for some pairs, in their order.
pub open spec fn pair_lines(pairs: Seq<(String, String)>) -> Seq<char>
    decreases pairs.len(),
{
    if pairs.len() == 0 {
        Seq::<char>::empty()
    } else {
        pair_lines(pairs.drop_last()) + pair_line(pairs.last().0@, pairs.last().1@)
    }
}

/// The comment at the head of the language file of a language.
pub open spec fn file_head(language: Language) -> Seq<char> {
    "# "@ + language.spec_display_name() + " Language File\n"@ + "# Format: key=value\n"@
        + "# Use quotes for values with spaces or special characters\n"@
        + "# Use \\n for newlines, \\r for carriage returns\n\n"@
}

/// Writes the line of a language file for a pair.
pub fn write_pair_line(out: &mut Vec<char>, key: &str, value: &str)
    ensures
        final(out)@ == old(out)@ + pair_line(key@, value@),
{
    let text = chars_of(value);
    let len: usize = text.len();
    let quote = chars_of("\"");
    let quoted = contains_text(&text, &chars_of("\n")) || contains_text(&text, &chars_of("\r"))
        || contains_text(&text, &quote) || (len > 0 && text[0] == ' ') || (len > 0 && text[len - 1]
        == ' ');
    let ghost before = out@;
    extend(out, &chars_of(key));
    if quoted {
        proof {
            reveal_strlit("\"");
            reveal_strlit("\n");
            reveal_strlit("\r");
        }
        let a = replace(&text, &quote, &chars_of("\\\""));
        let b = replace(&a, &chars_of("\n"), &chars_of("\\n"));
        let c = replace(&b, &chars_of("\r"), &chars_of("\\r"));
        extend(out, &chars_of("=\""));
        extend(out, &c);
        extend(out, &chars_of("\"\n"));
        proof {
            assert(out@ =~= before + (key@ + "=\""@ + escaped(value@) + "\"\n"@));
        }
    } else {
        extend(out, &chars_of("="));
        extend(out, &text);
        extend(out, &chars_of("\n"));
        proof {
            assert(out@ =~= before + (key@ + "="@ + value@ + "\n"@));
        }
    }
}

/// Writes the language file of a language from pairs that are in the order
/// they are to be written in.
pub fn language_file_text(language: Language, pairs: &Vec<(String, String)>) -> (text: String)
    ensures
        text@ == file_head(language) + pair_lines(pairs@),
{
    let mut out: Vec<char> = chars_of("# ");
    extend(&mut out, &chars_of(language.display_name()));
    extend(&mut out, &chars_of(" Language File\n"));
    extend(&mut out, &chars_of("# Format: key=value\n"));
    extend(&mut out, &chars_of("# Use quotes for values with spaces or special characters\n"));
    extend(&mut out, &chars_of("# Use \\n for newlines, \\r for carriage returns\n\n"));
    let ghost head = out@;
    let mut i: usize = 0;
    proof {
        assert(head =~= file_head(language));
        assert(out@ =~= head + pair_lines(pairs@.subrange(0, 0)));
    }
    while i < pairs.len()
        invariant
            i <= pairs@.len(),
            head == file_head(language),
            out@ == head + pair_lines(pairs@.subrange(0, i as int)),
        decreases pairs@.len() - i,
    {
        let ghost before = out@;
        let ghost next = pairs@.subrange(0, i + 1);
        write_pair_line(&mut out, pairs[i].0.as_str(), pairs[i].1.as_str());
        proof {
            assert(next.last() == pairs@[i as int]);
            assert(next.drop_last() =~= pairs@.subrange(0, i as int));
            assert(out@ =~= head + pair_lines(next));
        }
        i = i + 1;
    }
    proof {
        assert(pairs@.subrange(0, i as int) =~= pairs@);
    }
    string_of(&out)
}

/// Writes the language file of a language: the comment at its head and
/// the translations in the order of their keys.
pub fn generate_language_file(language: Language, translations: Vec<(String, String)>) -> (text:
    String)
    ensures
        exists|sorted: Seq<(String, String)>|
            pairs_sorted_from(sorted, translations@) && text@ == file_head(language) + pair_lines(
                sorted,
            ),
{
    let pairs = sort_pairs(&translations);
    language_file_text(language, &pairs)
}

} // verus!
