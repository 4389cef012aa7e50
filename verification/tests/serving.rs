use fileserv::fileview::{
    contains_dot_dot, deny_response, file_read_response, file_view_route, strip_leading,
    FileAction, ReadOutcome,
};
use fileserv::response::{forbidden, not_found, trouble, HttpResponse, ResponseBody};

fn body_text(r: &HttpResponse) -> &str {
    match &r.body {
        ResponseBody::Text(s) => s.as_str(),
        ResponseBody::Bytes(_) => panic!("expected a text body"),
    }
}

fn body_bytes(r: &HttpResponse) -> &[u8] {
    match &r.body {
        ResponseBody::Bytes(v) => v.as_slice(),
        ResponseBody::Text(_) => panic!("expected a byte body"),
    }
}

#[test]
fn error_responses_are_fixed() {
    let r = not_found();
    assert_eq!(r.status, 404);
    assert!(r.content_type.is_none());
    assert_eq!(body_text(&r), "not found\r\n");

    let r = forbidden();
    assert_eq!(r.status, 403);
    assert!(r.content_type.is_none());
    assert_eq!(body_text(&r), "forbidden\r\n");

    let r = trouble();
    assert_eq!(r.status, 500);
    assert!(r.content_type.is_none());
    assert_eq!(body_text(&r), "sad bear is sad\r\n");
}

#[test]
fn leading_separator_is_stripped() {
    assert_eq!(strip_leading("/index.txt"), "index.txt");
    assert_eq!(strip_leading("/"), "");
    assert_eq!(strip_leading(""), "");
    assert_eq!(strip_leading("/a/b"), "a/b");
}

#[test]
fn dot_dot_detection() {
    assert!(contains_dot_dot(".."));
    assert!(contains_dot_dot("a..b"));
    assert!(contains_dot_dot("../etc/passwd"));
    assert!(contains_dot_dot("x/.."));
    assert!(!contains_dot_dot("."));
    assert!(!contains_dot_dot("a.b.c"));
    assert!(!contains_dot_dot(""));
}

#[test]
fn traversal_paths_are_denied() {
    assert!(matches!(file_view_route("/../etc/passwd"), FileAction::Deny));
    assert!(matches!(file_view_route("/a..b"), FileAction::Deny));
    let r = deny_response();
    assert_eq!(r.status, 403);
    assert_eq!(body_text(&r), "forbidden\r\n");
}

#[test]
fn safe_paths_are_opened_relative() {
    match file_view_route("/index.txt") {
        FileAction::Open(rel) => assert_eq!(rel, "index.txt"),
        FileAction::Deny => panic!("safe path was denied"),
    }
    match file_view_route("/a.b.c") {
        FileAction::Open(rel) => assert_eq!(rel, "a.b.c"),
        FileAction::Deny => panic!("safe path was denied"),
    }
}

#[test]
fn missing_file_is_not_found() {
    let r = file_read_response("missing.txt", ReadOutcome::NotFound);
    assert_eq!(r.status, 404);
    assert!(r.content_type.is_none());
    assert_eq!(body_text(&r), "not found\r\n");
}

#[test]
fn directory_path_is_not_found() {
    let r = file_read_response("sub", ReadOutcome::NotFound);
    assert_eq!(r.status, 404);
    assert_eq!(body_text(&r), "not found\r\n");
}

#[test]
fn failed_read_is_trouble() {
    let r = file_read_response("index.txt", ReadOutcome::ReadError);
    assert_eq!(r.status, 500);
    assert!(r.content_type.is_none());
    assert_eq!(body_text(&r), "sad bear is sad\r\n");
}

#[test]
fn read_file_round_trips() {
    let contents = b"hello, bytes \x00\xff".to_vec();
    let r = file_read_response("data.bin", ReadOutcome::Content(contents.clone()));
    assert_eq!(r.status, 200);
    assert_eq!(r.content_type.as_deref(), Some("application/octet-stream"));
    assert_eq!(body_bytes(&r), contents.as_slice());

    let page = b"<p>hi</p>".to_vec();
    let r = file_read_response("page.HTML", ReadOutcome::Content(page.clone()));
    assert_eq!(r.status, 200);
    assert_eq!(r.content_type.as_deref(), Some("text/html"));
    assert_eq!(body_bytes(&r), page.as_slice());
}
