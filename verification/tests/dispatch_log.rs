use fileserv::dispatch::{access_log_line, format_log_line, route, Route};
use fileserv::fileview::{file_read_response, file_view_route, FileAction, ReadOutcome};
use fileserv::index::index_view;
use fileserv::lister::{collect_file_names, DirEntryInfo, EntryKind};
use fileserv::response::ResponseBody;

#[test]
fn root_routes_to_index_everything_else_to_files() {
    assert!(matches!(route("/"), Route::Index));
    assert!(matches!(route("/index.txt"), Route::FileRequest));
    assert!(matches!(route(""), Route::FileRequest));
    assert!(matches!(route("//"), Route::FileRequest));
}

#[test]
fn log_line_format_with_and_without_agent() {
    let line = format_log_line("2020-01-01T00:00:00+00:00", "/x", 200, "GET", "HTTP/1.1", None);
    assert_eq!(line, "2020-01-01T00:00:00+00:00 /x 200 GET HTTP/1.1 -");

    let line = format_log_line("t", "/a.txt", 404, "HEAD", "HTTP/2.0", Some("curl/8.0"));
    assert_eq!(line, "t /a.txt 404 HEAD HTTP/2.0 curl/8.0");
}

#[test]
fn access_log_line_is_timestamped() {
    let line = access_log_line("/x", 200, "GET", "HTTP/1.1", None);
    let tail = " /x 200 GET HTTP/1.1 -";
    assert!(line.ends_with(tail));
    assert!(line.len() > tail.len());
}

fn entry(name: &str, kind: EntryKind) -> DirEntryInfo {
    DirEntryInfo { name: Some(String::from(name)), kind }
}

#[test]
fn working_directory_scenario() {
    // The working directory holds a readable `index.txt` and a
    // subdirectory `sub/`.
    let entries = vec![
        entry("index.txt", EntryKind::RegularFile),
        entry("sub", EntryKind::Directory),
    ];

    // Requesting `/` lists `index.txt` and not `sub`.
    assert!(matches!(route("/"), Route::Index));
    let names = collect_file_names(&entries);
    let r = index_view(&names);
    assert_eq!(r.status, 200);
    assert_eq!(r.content_type.as_deref(), Some("text/html"));
    match &r.body {
        ResponseBody::Text(page) => {
            assert!(page.contains("<li><a href=\"index.txt\">index.txt</a></li>"));
            assert!(!page.contains("sub"));
        },
        ResponseBody::Bytes(_) => panic!("index body should be text"),
    }

    // Requesting `/index.txt` returns its raw bytes as `text/plain`.
    assert!(matches!(route("/index.txt"), Route::FileRequest));
    let rel = match file_view_route("/index.txt") {
        FileAction::Open(rel) => rel,
        FileAction::Deny => panic!("safe path was denied"),
    };
    assert_eq!(rel, "index.txt");
    let raw = b"some text\n".to_vec();
    let r = file_read_response(&rel, ReadOutcome::Content(raw.clone()));
    assert_eq!(r.status, 200);
    assert_eq!(r.content_type.as_deref(), Some("text/plain"));
    match &r.body {
        ResponseBody::Bytes(b) => assert_eq!(b, &raw),
        ResponseBody::Text(_) => panic!("file body should be bytes"),
    }

    // Requesting `/sub` fails to open as a file and yields 404.
    let rel = match file_view_route("/sub") {
        FileAction::Open(rel) => rel,
        FileAction::Deny => panic!("safe path was denied"),
    };
    let r = file_read_response(&rel, ReadOutcome::NotFound);
    assert_eq!(r.status, 404);

    // Requesting `/../etc/passwd` is forbidden.
    assert!(matches!(file_view_route("/../etc/passwd"), FileAction::Deny));

    // Requesting `/missing.txt` yields 404.
    let rel = match file_view_route("/missing.txt") {
        FileAction::Open(rel) => rel,
        FileAction::Deny => panic!("safe path was denied"),
    };
    let r = file_read_response(&rel, ReadOutcome::NotFound);
    assert_eq!(r.status, 404);
}
