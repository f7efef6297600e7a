use rextract::utils::unescape;

fn check(input: &str, expected: &str) {
    assert_eq!(unescape(input.to_string()), expected.to_string());
}

#[test]
fn unescape_empty_string() {
    check(r"", "");
}

#[test]
fn unescape_nothing_to_unescape() {
    check(r"abcd", "abcd");
}

#[test]
fn unescape_tab() {
    check(r"\t", "\t");
}

#[test]
fn unescape_newline() {
    check(r"\n", "\n");
}

#[test]
fn unescape_carriage_return() {
    check(r"\r", "\r");
}

#[test]
fn unescape_carriage_return_with_line_feed() {
    check(r"\r\n", "\r\n");
}

#[test]
fn unescape_escaped_backslash() {
    check(r"\\", "\\");
}

#[test]
fn unescape_single_backslash() {
    check(r"\", "\\");
}

#[test]
fn unescape_ignore_other_special_characters() {
    check(r"\a", "\\a");
}

#[test]
fn unescape_escaped_newline_character() {
    check(r"\\n", "\\n");
}

#[test]
fn unescape_multiple_characters() {
    check(r"\\\nx\t\T", "\\\nx\t\\T");
}

#[test]
fn unescape_keeps_text_outside_the_ascii_range() {
    check("é\\tü\\", "é\tü\\");
}
