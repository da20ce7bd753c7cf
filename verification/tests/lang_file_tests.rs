use everything_browser::lang::{Language, LanguageManager};
use everything_browser::lang_file::{
    generate_language_file, language_file_text, parse_language_line, parse_language_text,
    parse_value, write_pair_line,
};

fn c(s: &str) -> Vec<char> {
    s.chars().collect()
}

fn pair(k: &str, v: &str) -> (String, String) {
    (k.to_string(), v.to_string())
}

const HEAD_EN: &str = "# English Language File\n# Format: key=value\n# Use quotes for values with spaces or special characters\n# Use \\n for newlines, \\r for carriage returns\n\n";

#[test]
fn plain_pair() {
    assert_eq!(parse_language_line(&c("menu_view=View")), Some((c("menu_view"), c("View"))));
    assert_eq!(parse_language_line(&c("  a  =  b c  \r")), Some((c("a"), c("b c"))));
    assert_eq!(parse_language_line(&c("a=b=c")), Some((c("a"), c("b=c"))));
    assert_eq!(parse_language_line(&c("a=")), Some((c("a"), c(""))));
}

#[test]
fn comments_and_broken_lines_hold_no_pair() {
    assert_eq!(parse_language_line(&c("")), None);
    assert_eq!(parse_language_line(&c("   ")), None);
    assert_eq!(parse_language_line(&c("# a=b")), None);
    assert_eq!(parse_language_line(&c("  // a=b")), None);
    assert_eq!(parse_language_line(&c("no equals sign")), None);
    assert_eq!(parse_language_line(&c("=value")), None);
    assert_eq!(parse_language_line(&c("  =value")), None);
}

#[test]
fn quoted_values_are_unescaped() {
    assert_eq!(parse_value(&c(" \"a\\nb\" ")), c("a\nb"));
    assert_eq!(parse_value(&c("\"\\r\\n\\t\\\"\"")), c("\r\n\t\""));
    assert_eq!(parse_value(&c("\" padded \"")), c(" padded "));
    assert_eq!(parse_value(&c("\"\"")), c(""));
    assert_eq!(parse_value(&c("\"")), c("\""));
    assert_eq!(parse_value(&c("a\\nb")), c("a\\nb"));
    assert_eq!(parse_value(&c("\"open")), c("\"open"));
}

#[test]
fn text_of_a_language_file() {
    let text = "# comment\nmenu_view=View\n\nbad line\nwarn=\"a\\nb\"\r\n// other\nmenu_view=Again\n";
    assert_eq!(
        parse_language_text(text),
        vec![pair("menu_view", "View"), pair("warn", "a\nb"), pair("menu_view", "Again")]
    );
    assert_eq!(parse_language_text(""), Vec::<(String, String)>::new());
}

#[test]
fn pair_lines_quote_where_needed() {
    let mut out = Vec::new();
    write_pair_line(&mut out, "a", "plain value");
    write_pair_line(&mut out, "b", " lead");
    write_pair_line(&mut out, "c", "trail ");
    write_pair_line(&mut out, "d", "two\nlines\r");
    write_pair_line(&mut out, "e", "say \"hi\"");
    write_pair_line(&mut out, "f", "");
    let text: String = out.iter().collect();
    assert_eq!(
        text,
        "a=plain value\nb=\" lead\"\nc=\"trail \"\nd=\"two\\nlines\\r\"\ne=\"say \\\"hi\\\"\"\nf=\n"
    );
}

#[test]
fn file_text_keeps_the_given_order() {
    let pairs = vec![pair("b", "2"), pair("a", "1")];
    assert_eq!(language_file_text(Language::English, &pairs), format!("{}b=2\na=1\n", HEAD_EN));
    assert_eq!(language_file_text(Language::English, &Vec::new()), HEAD_EN);
}

#[test]
fn generated_file_is_sorted_by_key() {
    let pairs = vec![pair("b", "2"), pair("c", "3"), pair("a", "1"), pair("B", "0")];
    assert_eq!(
        generate_language_file(Language::English, pairs),
        format!("{}B=0\na=1\nb=2\nc=3\n", HEAD_EN)
    );
}

#[test]
fn chinese_file_names_the_language() {
    let text = generate_language_file(Language::Chinese, vec![pair("menu_view", "查看")]);
    assert!(text.starts_with("# 中文 Language File\n# Format: key=value\n"));
    assert!(text.ends_with("\n\nmenu_view=查看\n"));
}

#[test]
fn generated_english_file_reads_back() {
    let manager = LanguageManager::new("languages");
    let table = manager.get_english_translations();
    let text = generate_language_file(Language::English, table.clone());
    let mut read = parse_language_text(&text);
    let mut expected = table;
    read.sort();
    expected.sort();
    assert_eq!(read, expected);
}

#[test]
fn generated_chinese_file_keeps_its_escapes() {
    let manager = LanguageManager::new("languages");
    let table = manager.get_chinese_translations();
    let text = generate_language_file(Language::Chinese, table.clone());
    let read = parse_language_text(&text);
    assert_eq!(read.len(), 59);
    let warning = table.iter().find(|p| p.0 == "warning_thumbnail_mode").unwrap();
    let back = read.iter().find(|p| p.0 == "warning_thumbnail_mode").unwrap();
    assert_eq!(back.1, warning.1);
}
