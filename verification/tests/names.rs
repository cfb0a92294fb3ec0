use quark_generate::name::{is_valid_name, is_valid_segment};
use quark_generate::request::BuildRequest;

#[test]
fn plain_identifiers_are_valid_names() {
    assert!(is_valid_name("ahh"));
    assert!(is_valid_name("_"));
    assert!(is_valid_name("_x9"));
    assert!(is_valid_name("Plugin_2"));
    assert!(is_valid_name("a"));
    assert!(is_valid_name("Z"));
}

#[test]
fn empty_name_is_invalid() {
    assert!(!is_valid_name(""));
    assert!(!is_valid_segment(""));
}

#[test]
fn name_must_not_start_with_a_digit() {
    assert!(!is_valid_name("1ab"));
    assert!(!is_valid_name("0"));
    assert!(is_valid_segment("1ab"));
    assert!(is_valid_segment("0"));
}

#[test]
fn separators_and_dots_are_refused() {
    assert!(!is_valid_name("a/b"));
    assert!(!is_valid_name("a\\b"));
    assert!(!is_valid_name("a.b"));
    assert!(!is_valid_name(".."));
    assert!(!is_valid_name("."));
    assert!(!is_valid_name("../x"));
    assert!(!is_valid_segment("a/b"));
    assert!(!is_valid_segment("7.1"));
}

#[test]
fn other_characters_are_refused() {
    assert!(!is_valid_name("a-b"));
    assert!(!is_valid_name("a b"));
    assert!(!is_valid_name("a\"b"));
    assert!(!is_valid_name("a\n"));
    assert!(!is_valid_name("caf\u{e9}"));
    assert!(!is_valid_name("\u{e9}"));
    assert!(!is_valid_segment("\u{4e2d}"));
}

#[test]
fn characters_next_to_the_accepted_ranges_are_refused() {
    // '@' and '[' surround 'A'..='Z'; '`' and '{' surround 'a'..='z';
    // '/' and ':' surround '0'..='9'.
    assert!(!is_valid_segment("@"));
    assert!(!is_valid_segment("["));
    assert!(!is_valid_segment("`"));
    assert!(!is_valid_segment("{"));
    assert!(!is_valid_segment("/"));
    assert!(!is_valid_segment(":"));
    assert!(is_valid_segment("AZaz09_"));
}

#[test]
fn request_keeps_name_and_source() {
    let request = BuildRequest::new("ahh", "fn main() {}").unwrap();
    assert_eq!(request.name(), "ahh");
    assert_eq!(request.source_code(), "fn main() {}");
    assert_eq!(request.build_id(), None);
}

#[test]
fn request_refuses_invalid_name() {
    assert!(BuildRequest::new("", "x").is_none());
    assert!(BuildRequest::new("../etc", "x").is_none());
    assert!(BuildRequest::new("9lives", "x").is_none());
    assert!(BuildRequest::new("ok_name", "").is_some());
}

#[test]
fn request_takes_a_build_identifier() {
    let request = BuildRequest::new("ahh", "code").unwrap();
    let tagged = request.with_build_id("42_7").unwrap();
    assert_eq!(tagged.name(), "ahh");
    assert_eq!(tagged.source_code(), "code");
    assert_eq!(tagged.build_id(), Some("42_7"));
}

#[test]
fn request_refuses_invalid_build_identifier() {
    assert!(BuildRequest::new("ahh", "code").unwrap().with_build_id("").is_none());
    assert!(BuildRequest::new("ahh", "code").unwrap().with_build_id("a/b").is_none());
    assert!(BuildRequest::new("ahh", "code").unwrap().with_build_id("1.2").is_none());
}
