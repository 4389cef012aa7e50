use vstd::prelude::*;

use crate::response::{
    file_response, forbidden, forbidden_model, not_found, not_found_model, ok_file_model, trouble,
    trouble_model, HttpResponse, ResponseModel,
};

verus! {

/// `s` with its first character removed; the empty string stays empty.
pub open spec fn strip_first(s: Seq<char>) -> Seq<char> {
    if s.len() == 0 {
        s
    } else {
        s.subrange(1, s.len() as int)
    }
}

/// `s` contains the substring `..` anywhere.
pub open spec fn contains_dotdot(s: Seq<char>) -> bool {
    exists|i: int| 0 <= i && i + 1 < s.len() && #[trigger] s[i] == '.' && s[i + 1] == '.'
}

/// Removes the leading separator character from a request path.
pub fn strip_leading(path: &str) -> (r: &str)
    ensures
        r@ == strip_first(path@),
{
    let n = path.unicode_len();
    if n == 0 {
        path
    } else {
        path.substring_char(1, n)
    }
}

/// Whether `s` contains the substring `..` anywhere.
pub fn contains_dot_dot(s: &str) -> (r: bool)
    ensures
        r == contains_dotdot(s@),
{
    let n = s.unicode_len();
    if n < 2 {
        return false;
    }
    let mut i: usize = 0;
    while i + 1 < n
        invariant
            n == s@.len(),
            2 <= n,
            0 <= i <= n - 1,
            forall|k: int| 0 <= k < i ==> !(#[trigger] s@[k] == '.' && s@[k + 1] == '.'),
        decreases n - i,
    {
        if s.get_char(i) == '.' && s.get_char(i + 1) == '.' {
            proof {
                assert(0 <= i && i + 1 < s@.len() && s@[i as int] == '.' && s@[i + 1] == '.');
            }
            return true;
        }
        i += 1;
    }
    false
}

/// What the server should do with a file request: reject it outright, or
/// try to open the named relative path.
pub enum FileAction {
    Deny,
    Open(String),
}

/// The outcome of trying to open and fully read a file, as reported by the
/// surrounding I/O layer: the path did not name an openable regular file,
/// the file opened but reading it failed, or the full contents were read.
pub enum ReadOutcome {
    NotFound,
    ReadError,
    Content(Vec<u8>),
}

/// The mathematical model of a read outcome.
pub enum OutcomeModel {
    NotFound,
    ReadError,
    Content(Seq<u8>),
}

impl View for ReadOutcome {
    type V = OutcomeModel;

    open spec fn view(&self) -> OutcomeModel {
        match self {
            ReadOutcome::NotFound => OutcomeModel::NotFound,
            ReadOutcome::ReadError => OutcomeModel::ReadError,
            ReadOutcome::Content(v) => OutcomeModel::Content(v@),
        }
    }
}

/// The response owed for a safe relative path once the read outcome is
/// known: 404 for an unopenable path, 500 for a failed read, 200 with the
/// file's bytes and inferred content type for a successful read.
pub open spec fn outcome_response_model(rel: Seq<char>, outcome: OutcomeModel) -> ResponseModel {
    match outcome {
        OutcomeModel::NotFound => not_found_model(),
        OutcomeModel::ReadError => trouble_model(),
        OutcomeModel::Content(bytes) => ok_file_model(rel, bytes),
    }
}

/// The full file-resolution state machine over a raw request path: strip
/// the leading separator, reject traversal, otherwise map the read outcome
/// to a response.
pub open spec fn serve_file_model(path: Seq<char>, outcome: OutcomeModel) -> ResponseModel {
    let rel = strip_first(path);
    if contains_dotdot(rel) {
        forbidden_model()
    } else {
        outcome_response_model(rel, outcome)
    }
}

/// Decides a file request up to the point where I/O is needed: strips the
/// leading separator and runs the traversal check; a safe path comes back
/// as the relative path to open.
pub fn file_view_route(path: &str) -> (r: FileAction)
    ensures
        contains_dotdot(strip_first(path@)) ==> r == FileAction::Deny,
        !contains_dotdot(strip_first(path@)) ==> (r matches FileAction::Open(rel) && rel@
            == strip_first(path@)),
{
    let rel = strip_leading(path);
    if contains_dot_dot(rel) {
        FileAction::Deny
    } else {
        FileAction::Open(String::from_str(rel))
    }
}

/// Maps the outcome of opening and reading the file at the safe relative
/// path `rel` to the response owed for it.
pub fn file_read_response(rel: &str, outcome: ReadOutcome) -> (r: HttpResponse)
    ensures
        r@ == outcome_response_model(rel@, outcome@),
{
    match outcome {
        ReadOutcome::NotFound => not_found(),
        ReadOutcome::ReadError => trouble(),
        ReadOutcome::Content(bytes) => file_response(rel, bytes),
    }
}

/// Builds the fixed 403 response for a rejected file request.
pub fn deny_response() -> (r: HttpResponse)
    ensures
        r@ == forbidden_model(),
{
    forbidden()
}

/// A request path that starts with the separator and contains `..` anywhere
/// is answered 403 Forbidden, whatever the filesystem would have said.
pub proof fn lemma_traversal_forbidden(path: Seq<char>, outcome: OutcomeModel)
    requires
        path.len() > 0,
        path[0] == '/',
        contains_dotdot(path),
    ensures
        serve_file_model(path, outcome) == forbidden_model(),
{
    let i = choose|i: int|
        0 <= i && i + 1 < path.len() && #[trigger] path[i] == '.' && path[i + 1] == '.';
    assert(i >= 1);
    let rel = strip_first(path);
    assert(rel[i - 1] == path[i]);
    assert(rel[i] == path[i + 1]);
    assert(contains_dotdot(rel));
}

/// A safe request path whose target is not an openable regular file is
/// answered 404 Not Found.
pub proof fn lemma_missing_not_found(path: Seq<char>)
    requires
        !contains_dotdot(strip_first(path)),
    ensures
        serve_file_model(path, OutcomeModel::NotFound) == not_found_model(),
{
}

/// Round trip: a safe request path whose file is read in full is answered
/// 200 with exactly the file's bytes, under the content type inferred from
/// the path's suffix alone.
pub proof fn lemma_file_round_trip(path: Seq<char>, bytes: Seq<u8>)
    requires
        !contains_dotdot(strip_first(path)),
    ensures
        serve_file_model(path, OutcomeModel::Content(bytes)) == ok_file_model(
            strip_first(path),
            bytes,
        ),
{
}

} // verus!
