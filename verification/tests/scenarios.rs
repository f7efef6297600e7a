use regex::Regex;
use rextract::extract::{declares_line, json_line_numbers, Extractor, Format};
use rextract::serializers::{capture_groups_names, ColumnsSerializer, JsonSerializer, Serializer};
use rextract::utils::unescape;

const DIGITS: &str = r"([0-9]{3})-([0-9]{2})-([0-9]{3})";
const LINE: &str = "prefix 111-22-333 suffix abc 123";

#[test]
fn names_count_all_groups_not_only_the_unnamed() {
    let regex = Regex::new(r"([^ ]+) xyz (?<B>[0-9])([a-z])").unwrap();
    assert_eq!(capture_groups_names(&regex), vec!["1", "B", "3"]);
}

#[test]
fn separator_escapes_are_decoded() {
    assert_eq!(unescape(String::from("\\t")), "\t");
    assert_eq!(unescape(String::from("\\\\")), "\\");
    assert_eq!(unescape(String::from("\\")), "\\");
    assert_eq!(unescape(String::from("\\a")), "\\a");
    assert_eq!(unescape(String::from("a\\nb\\rc")), "a\nb\rc");
}

#[test]
fn columns_without_line_numbers() {
    let regex = Regex::new(DIGITS).unwrap();
    let serializer = ColumnsSerializer::new(&regex, false, String::from("\t"));
    let captures = regex.captures(LINE).unwrap();
    assert_eq!(serializer.to_string(&captures, 42), "111\t22\t333");
}

#[test]
fn json_with_line_numbers() {
    let regex = Regex::new(DIGITS).unwrap();
    let serializer = JsonSerializer::new(&regex, true);
    let captures = regex.captures(LINE).unwrap();
    assert_eq!(
        serializer.to_string(&captures, 42),
        r#"{"1":"111","2":"22","3":"333","line":"42"}"#
    );
}

#[test]
fn json_of_a_pattern_without_groups() {
    let regex = Regex::new(r"[a-z]+[0-9]+").unwrap();
    let serializer = JsonSerializer::new(&regex, false);
    let captures = regex.captures("abc123").unwrap();
    assert_eq!(serializer.to_string(&captures, 42), r#"{"match":"abc123"}"#);
}

#[test]
fn columns_of_a_pattern_without_groups() {
    let regex = Regex::new(r"[a-z]+[0-9]+").unwrap();
    let serializer = ColumnsSerializer::new(&regex, true, String::from(";"));
    let captures = regex.captures("  abc123  ").unwrap();
    assert_eq!(serializer.to_string(&captures, 3), "3;abc123");
}

#[test]
fn a_group_named_line_keeps_its_own_value() {
    let regex = Regex::new(r"(?<line>[0-9]+):(?<text>.*)").unwrap();
    assert!(!json_line_numbers(&regex, true));
    assert!(!json_line_numbers(&regex, false));
    let extractor = Extractor::new(regex, true, true, String::from("\\t"));
    assert_eq!(
        extractor.extract("17:hello", 42),
        Some(String::from(r#"{"line":"17","text":"hello"}"#))
    );
}

#[test]
fn line_numbers_are_granted_without_a_group_named_line() {
    let regex = Regex::new(r"(?<lines>[0-9]+)").unwrap();
    assert!(json_line_numbers(&regex, true));
    assert!(!json_line_numbers(&regex, false));
    let plain = Regex::new(r"line").unwrap();
    assert!(json_line_numbers(&plain, true));
}

#[test]
fn declares_line_looks_at_every_slot() {
    assert!(!declares_line(&Vec::new()));
    assert!(!declares_line(&vec![None, Some(String::from("lin")), Some(String::from("linee"))]));
    assert!(declares_line(&vec![None, None, Some(String::from("line"))]));
    assert!(declares_line(&vec![None, Some(String::from("line")), None]));
}

#[test]
fn extractor_columns_decodes_the_separator() {
    let regex = Regex::new(DIGITS).unwrap();
    let extractor = Extractor::new(regex, false, true, String::from("\\t"));
    assert_eq!(extractor.extract(LINE, 42), Some(String::from("42\t111\t22\t333")));
    assert_eq!(extractor.extract("no digits here", 43), None);
}

#[test]
fn extractor_json_ignores_the_separator() {
    let regex = Regex::new(DIGITS).unwrap();
    let extractor = Extractor::new(regex, true, false, String::from(","));
    assert_eq!(
        extractor.extract(LINE, 1),
        Some(String::from(r#"{"1":"111","2":"22","3":"333"}"#))
    );
    assert_eq!(extractor.extract("", 2), None);
}

#[test]
fn format_select_picks_the_serializer() {
    let regex = Regex::new(r"(a)(b)?").unwrap();
    let columns = Format::select(&regex, false, false, String::from("\\\\"));
    assert!(matches!(columns, Format::Columns(_)));
    let json = Format::select(&regex, true, false, String::from("\\\\"));
    assert!(matches!(json, Format::Json(_)));
    let slots = vec![Some(String::from("a")), Some(String::from("a")), None];
    assert_eq!(columns.to_record(&slots, 1), "a\\");
    assert_eq!(json.to_record(&slots, 1), r#"{"1":"a"}"#);
    let captures = regex.captures("a").unwrap();
    assert_eq!(columns.to_string(&captures, 1), "a\\");
    assert_eq!(json.to_string(&captures, 1), r#"{"1":"a"}"#);
}

#[test]
fn extractor_gives_the_same_record_twice() {
    let regex = Regex::new(r"(\w+)@(\w+)").unwrap();
    let extractor = Extractor::new(regex, true, true, String::new());
    let first = extractor.extract("mail bob@example now", 8);
    let second = extractor.extract("mail bob@example now", 8);
    assert_eq!(first, second);
    assert_eq!(first, Some(String::from(r#"{"1":"bob","2":"example","line":"8"}"#)));
}

#[test]
fn extractor_keeps_a_match_of_length_zero() {
    let regex = Regex::new(r"x*").unwrap();
    let extractor = Extractor::new(regex, false, false, String::from("\t"));
    assert_eq!(extractor.extract("abc", 1), Some(String::new()));
    let regex = Regex::new(r"x*").unwrap();
    let extractor = Extractor::new(regex, true, true, String::from("\t"));
    assert_eq!(extractor.extract("abc", 1), Some(String::from(r#"{"line":"1","match":""}"#)));
}

#[test]
fn flag_follows_the_pattern_not_the_line() {
    let regex = Regex::new(r"(a)?b").unwrap();
    let columns = ColumnsSerializer::new(&regex, false, String::from("\t"));
    let json = JsonSerializer::new(&regex, false);
    let captures = regex.captures("b").unwrap();
    assert_eq!(columns.to_string(&captures, 1), "");
    assert_eq!(json.to_string(&captures, 1), "{}");
}
