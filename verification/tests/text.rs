use eveicongenerator::lines::{blank, fields_of, lines_of, parse_number};
use eveicongenerator::order::{name_le, sort_strings};
use eveicongenerator::text::{
    chars_of, decimal, ends_with, join_strings, same_text, split_entries, starts_with, string_from_utf8,
    string_of, trimmed_len,
};

fn cs(s: &str) -> Vec<char> {
    s.chars().collect()
}

#[test]
fn chars_and_strings() {
    assert_eq!(chars_of("aé\u{1e}"), vec!['a', 'é', '\u{1e}']);
    assert_eq!(string_of(&vec!['x', 'ß']), "xß");
    assert_eq!(string_of(&Vec::new()), "");
}

#[test]
fn decimal_numerals() {
    assert_eq!(decimal(0), "0");
    assert_eq!(decimal(9), "9");
    assert_eq!(decimal(10), "10");
    assert_eq!(decimal(100), "100");
    assert_eq!(decimal(4294967295), "4294967295");
    assert_eq!(decimal(u64::MAX), "18446744073709551615");
}

#[test]
fn join_and_split() {
    let parts = vec!["a".to_string(), String::new(), "bc".to_string()];
    assert_eq!(join_strings(&parts, ';'), "a;;bc");
    assert_eq!(join_strings(&Vec::new(), ';'), "");
    assert_eq!(join_strings(&vec!["x".to_string()], ';'), "x");
    assert_eq!(split_entries("a;;bc", ';'), parts);
    assert_eq!(split_entries("", ';'), Vec::<String>::new());
    assert_eq!(split_entries("a;", ';'), vec!["a".to_string()]);
    assert_eq!(split_entries(";", ';'), vec![String::new()]);
    assert_eq!(split_entries(";a", ';'), vec![String::new(), "a".to_string()]);
}

#[test]
fn prefixes_suffixes_and_trimming() {
    assert!(ends_with(&cs("a/b.png"), &cs(".png")));
    assert!(!ends_with(&cs("a/b.png"), &cs(".jpg")));
    assert!(!ends_with(&cs("png"), &cs(".png")));
    assert!(ends_with(&cs("x"), &cs("")));
    assert!(starts_with(&cs("build = 12"), &cs("build = ")));
    assert!(!starts_with(&cs("build"), &cs("build = ")));
    assert_eq!(trimmed_len(&cs("a/b///"), '/'), 3);
    assert_eq!(trimmed_len(&cs("///"), '/'), 0);
    assert_eq!(trimmed_len(&cs("a/b"), '/'), 3);
    assert!(same_text("abc", "abc"));
    assert!(!same_text("abc", "abd"));
    assert!(!same_text("abc", "ab"));
}

#[test]
fn utf8_is_checked() {
    assert_eq!(string_from_utf8("aé".as_bytes()), Some("aé".to_string()));
    assert_eq!(string_from_utf8(&[0xff]), None);
    assert_eq!(string_from_utf8(&[]), Some(String::new()));
}

#[test]
fn names_are_ordered_by_characters() {
    assert!(name_le(&cs(""), &cs("a")));
    assert!(name_le(&cs("a"), &cs("a")));
    assert!(name_le(&cs("a"), &cs("ab")));
    assert!(!name_le(&cs("ab"), &cs("a")));
    assert!(name_le(&cs("B"), &cs("a")));
    assert!(name_le(&cs("z"), &cs("é")));
    assert!(!name_le(&cs("b"), &cs("a;")));
}

#[test]
fn sort_agrees_with_the_order_of_strings() {
    let names: Vec<String> =
        ["pear", "Apple", "", "fig", "apple", "é", "fig", "a;b", "a", "zz", "z"].iter().map(|s| s.to_string()).collect();
    let mut expected = names.clone();
    expected.sort();
    assert_eq!(sort_strings(&names), expected);
    assert_eq!(sort_strings(&Vec::new()), Vec::<String>::new());
}

#[test]
fn lines_end_at_line_feeds() {
    let lines: Vec<String> = lines_of("a\r\nb\n\nc\r").iter().map(string_of).collect();
    assert_eq!(lines, vec!["a", "b", "", "c\r"]);
    let std_lines: Vec<&str> = "a\r\nb\n\nc\r".lines().collect();
    assert_eq!(lines, std_lines);
    assert!(lines_of("").is_empty());
    assert_eq!(lines_of("x\n").len(), 1);
    assert_eq!(lines_of("\n").len(), 1);
    assert_eq!(lines_of("\r\n").iter().map(string_of).collect::<Vec<_>>(), vec![""]);
}

#[test]
fn blank_lines_hold_white_space_only() {
    assert!(blank(&cs("")));
    assert!(blank(&cs(" \t\u{a0}\u{3000}")));
    assert!(!blank(&cs(" x ")));
    assert!(!blank(&cs("\u{200b}")));
}

#[test]
fn fields_between_commas() {
    let got = fields_of(&cs("a,b,,d,e,f,g"), ',', 5).unwrap();
    assert_eq!(got.iter().map(string_of).collect::<Vec<_>>(), vec!["a", "b", "", "d", "e"]);
    let got = fields_of(&cs("a,b,c,d,e"), ',', 5).unwrap();
    assert_eq!(got.iter().map(string_of).collect::<Vec<_>>(), vec!["a", "b", "c", "d", "e"]);
    assert!(fields_of(&cs("a,b,c,d"), ',', 5).is_none());
    assert_eq!(fields_of(&cs("a,b"), ',', 0).unwrap().len(), 0);
    assert_eq!(fields_of(&cs(""), ',', 1).unwrap().len(), 1);
}

#[test]
fn numbers_are_digits_with_an_optional_plus() {
    assert_eq!(parse_number(&cs("0")), Some(0));
    assert_eq!(parse_number(&cs("+17")), Some(17));
    assert_eq!(parse_number(&cs("007")), Some(7));
    assert_eq!(parse_number(&cs("18446744073709551615")), Some(u64::MAX));
    assert_eq!(parse_number(&cs("18446744073709551616")), None);
    assert_eq!(parse_number(&cs("99999999999999999999999")), None);
    assert_eq!(parse_number(&cs("")), None);
    assert_eq!(parse_number(&cs("+")), None);
    assert_eq!(parse_number(&cs("-1")), None);
    assert_eq!(parse_number(&cs("1 ")), None);
    assert_eq!(parse_number(&cs("12a")), None);
    assert_eq!(parse_number(&cs("++1")), None);
}
