use regex::Regex;
use rextract::serializers::{capture_groups_names, derive_names};

fn check(pattern: &str, expected: Vec<&str>) {
    let regex = Regex::new(pattern).unwrap();
    let expected: Vec<String> = expected.into_iter().map(String::from).collect();
    assert_eq!(capture_groups_names(&regex), expected);
}

#[test]
fn capture_groups_names_empty_regex() {
    check(r"", vec![]);
}

#[test]
fn capture_groups_names_no_matching_groups() {
    check(r"[a-z0-9]* [a-z]{1,3}", vec![]);
}

#[test]
fn capture_groups_names_empty_group() {
    check(r"()", vec!["1"]);
}

#[test]
fn capture_groups_names_unnamed_group() {
    check(r"([^ ]+) xyz", vec!["1"]);
}

#[test]
fn capture_groups_names_many_unnamed_groups() {
    check(r"([^ ]+) xyz ([0-9])([a-z])", vec!["1", "2", "3"]);
}

#[test]
fn capture_groups_names_named_group() {
    check(r"(?<AAA>[^ ]+) xyz", vec!["AAA"]);
}

#[test]
fn capture_groups_names_many_named_groups() {
    check(r"(?<aaa>[^ ]+) xyz (?<bbb>[0-9])(?<ccc>[a-z])", vec!["aaa", "bbb", "ccc"]);
}

#[test]
fn capture_groups_names_mixed_named_and_unnamed_groups() {
    check(r"([^ ]+) xyz (?<BBB>[0-9])([a-z])", vec!["1", "BBB", "3"]);
}

#[test]
fn capture_groups_names_ordinal_counts_all_groups() {
    check(r"([^ ]+) xyz (?<B>[0-9])([a-z])", vec!["1", "B", "3"]);
}

#[test]
fn derive_names_skips_the_whole_match_and_numbers_by_position() {
    let declared = vec![None, None, Some(String::from("B")), None];
    assert_eq!(derive_names(&declared), vec!["1", "B", "3"]);
}

#[test]
fn derive_names_of_nothing_is_empty() {
    assert_eq!(derive_names(&Vec::new()), Vec::<String>::new());
    assert_eq!(derive_names(&vec![None]), Vec::<String>::new());
}

#[test]
fn derive_names_keeps_duplicates() {
    let declared = vec![None, Some(String::from("x")), Some(String::from("x"))];
    assert_eq!(derive_names(&declared), vec!["x", "x"]);
}

#[test]
fn derive_names_numbers_past_nine() {
    let mut declared: Vec<Option<String>> = Vec::new();
    for _ in 0..13 {
        declared.push(None);
    }
    let names = derive_names(&declared);
    assert_eq!(names.len(), 12);
    assert_eq!(names[8], "9");
    assert_eq!(names[9], "10");
    assert_eq!(names[11], "12");
}
