use vstd::prelude::*;

use crate::fileview::{contains_dotdot, serve_file_model, strip_first, OutcomeModel};
use crate::index::index_model;
use crate::response::{forbidden_model, not_found_model, ResponseModel};
use crate::text::{dec_str, u16_to_string};

verus! {

/// Where a request path leads: the index page for the root path, the file
/// view for every other path.
pub enum Route {
    Index,
    FileRequest,
}

/// Routes a request path: exactly `/` goes to the index view, everything
/// else to the file view.
pub fn route(path: &str) -> (r: Route)
    ensures
        r == Route::Index <==> path@ == "/"@,
        r == Route::FileRequest <==> path@ != "/"@,
{
    proof {
        reveal_strlit("/");
    }
    let n = path.unicode_len();
    if n == 1 && path.get_char(0) == '/' {
        proof {
            assert(path@ =~= "/"@);
        }
        Route::Index
    } else {
        proof {
            assert(path@ != "/"@) by {
                if path@ == "/"@ {
                    assert(path@.len() == 1 && path@[0] == '/');
                }
            }
        }
        Route::FileRequest
    }
}

/// The response the whole dispatcher owes for a request: the index page
/// for the root path, the file-resolution state machine for every other
/// path.
pub open spec fn dispatch_model(
    path: Seq<char>,
    names: Seq<Seq<char>>,
    outcome: OutcomeModel,
) -> ResponseModel {
    if path == "/"@ {
        index_model(names)
    } else {
        serve_file_model(path, outcome)
    }
}

/// A request to the root path is answered 200 with content type
/// `text/html`, whatever the directory listing and the filesystem hold.
pub proof fn lemma_root_always_ok(names: Seq<Seq<char>>, outcome: OutcomeModel)
    ensures
        dispatch_model("/"@, names, outcome).status == 200,
        dispatch_model("/"@, names, outcome).content_type == Some("text/html"@),
{
}

/// Any request path containing `..` anywhere is answered 403 Forbidden,
/// whether or not a matching file exists.
pub proof fn lemma_dispatch_traversal_forbidden(
    path: Seq<char>,
    names: Seq<Seq<char>>,
    outcome: OutcomeModel,
)
    requires
        path.len() > 0,
        path[0] == '/',
        contains_dotdot(path),
    ensures
        dispatch_model(path, names, outcome) == forbidden_model(),
{
    reveal_strlit("/");
    let i = choose|i: int|
        0 <= i && i + 1 < path.len() && #[trigger] path[i] == '.' && path[i + 1] == '.';
    assert(path.len() >= 2);
    assert(path != "/"@);
    crate::fileview::lemma_traversal_forbidden(path, outcome);
}

/// Any request path other than the root whose safe relative path names no
/// openable regular file is answered 404 Not Found.
pub proof fn lemma_dispatch_missing_not_found(path: Seq<char>, names: Seq<Seq<char>>)
    requires
        path != "/"@,
        !contains_dotdot(strip_first(path)),
    ensures
        dispatch_model(path, names, OutcomeModel::NotFound) == not_found_model(),
{
}

/// The structured access log line for one completed request: timestamp,
/// raw request path, status code, method, protocol version, and the
/// user agent or `-` when the header is absent.
pub open spec fn log_line_spec(
    ts: Seq<char>,
    path: Seq<char>,
    status: u16,
    method: Seq<char>,
    version: Seq<char>,
    ua: Option<Seq<char>>,
) -> Seq<char> {
    ts + " "@ + path + " "@ + dec_str(status as nat) + " "@ + method + " "@ + version + " "@
        + match ua {
        Some(u) => u,
        None => "-"@,
    }
}

/// The view of an optional user-agent header value.
pub open spec fn ua_model(ua: Option<&str>) -> Option<Seq<char>> {
    match ua {
        Some(u) => Some(u@),
        None => None,
    }
}

/// Formats the access log line for one completed request.
pub fn format_log_line(
    ts: &str,
    path: &str,
    status: u16,
    method: &str,
    version: &str,
    ua: Option<&str>,
) -> (r: String)
    ensures
        r@ == log_line_spec(ts@, path@, status, method@, version@, ua_model(ua)),
{
    let mut line = String::from_str(ts);
    line.append(" ");
    line.append(path);
    line.append(" ");
    let status_text = u16_to_string(status);
    line.append(status_text.as_str());
    line.append(" ");
    line.append(method);
    line.append(" ");
    line.append(version);
    line.append(" ");
    match ua {
        Some(u) => line.append(u),
        None => line.append("-"),
    }
    line
}

/// Relies on chrono's `Utc::now` and `DateTime::to_rfc3339`: the current
/// UTC time rendered as an RFC 3339 date-time string such as
/// `1996-12-19T16:39:57+00:00`, never empty. The rendering depends on the
/// clock, so nothing more is stated of it.
#[verifier::external_body]
fn now_rfc3339() -> (r: String)
    ensures
        r@.len() > 0,
{
    chrono::Utc::now().to_rfc3339()
}

/// Builds the access log line for one completed request, timestamped with
/// the current UTC time.
pub fn access_log_line(
    path: &str,
    status: u16,
    method: &str,
    version: &str,
    ua: Option<&str>,
) -> (r: String)
    ensures
        exists|ts: Seq<char>|
            ts.len() > 0 && r@ == #[trigger] log_line_spec(
                ts,
                path@,
                status,
                method@,
                version@,
                ua_model(ua),
            ),
{
    let ts = now_rfc3339();
    let line = format_log_line(ts.as_str(), path, status, method, version, ua);
    proof {
        assert(line@ == log_line_spec(ts@, path@, status, method@, version@, ua_model(ua)));
    }
    line
}

} // verus!
