use fileserv::mime::mime_type;
use fileserv::text::{ends_with_lower, lower_char_x, u16_to_string};

#[test]
fn mime_case_insensitive_on_suffix() {
    assert_eq!(mime_type("FILE.HTML"), "text/html");
    assert_eq!(mime_type("file.html"), "text/html");
    assert_eq!(mime_type("file.Html"), "text/html");
}

#[test]
fn mime_table_entries() {
    assert_eq!(mime_type("page.htm"), "text/html");
    assert_eq!(mime_type("notes.txt"), "text/plain");
    assert_eq!(mime_type("module.wasm"), "application/wasm");
    assert_eq!(mime_type("app.js"), "text/javascript");
    assert_eq!(mime_type("APP.JS"), "text/javascript");
}

#[test]
fn mime_default_for_unknown_suffix() {
    assert_eq!(mime_type("report.pdf"), "application/octet-stream");
    assert_eq!(mime_type("noext"), "application/octet-stream");
    assert_eq!(mime_type(""), "application/octet-stream");
}

#[test]
fn suffix_match_is_on_lowered_subject() {
    assert!(ends_with_lower("A.TXT", "txt"));
    assert!(ends_with_lower("a.txt", "txt"));
    assert!(!ends_with_lower("a.txt", "html"));
    assert!(!ends_with_lower("t", "txt"));
}

#[test]
fn lowercasing_single_characters() {
    assert_eq!(lower_char_x('A'), 'a');
    assert_eq!(lower_char_x('Z'), 'z');
    assert_eq!(lower_char_x('a'), 'a');
    assert_eq!(lower_char_x('/'), '/');
    assert_eq!(lower_char_x('0'), '0');
}

#[test]
fn decimal_rendering() {
    assert_eq!(u16_to_string(0), "0");
    assert_eq!(u16_to_string(7), "7");
    assert_eq!(u16_to_string(200), "200");
    assert_eq!(u16_to_string(3000), "3000");
    assert_eq!(u16_to_string(65535), "65535");
}
