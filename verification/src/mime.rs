use vstd::prelude::*;

use crate::text::{ends_with_lower, lower, seq_ends_with};

verus! {

/// The content type inferred from a path: the path is ASCII-lowercased and
/// its suffix looked up in a small fixed table, with
/// `application/octet-stream` as the default.
pub open spec fn mime_spec(path: Seq<char>) -> Seq<char> {
    let l = lower(path);
    if seq_ends_with(l, "html"@) {
        "text/html"@
    } else if seq_ends_with(l, "htm"@) {
        "text/html"@
    } else if seq_ends_with(l, "txt"@) {
        "text/plain"@
    } else if seq_ends_with(l, "wasm"@) {
        "application/wasm"@
    } else if seq_ends_with(l, "js"@) {
        "text/javascript"@
    } else {
        "application/octet-stream"@
    }
}

/// Infers a content type from a file path's suffix, case-insensitively.
pub fn mime_type(path: &str) -> (r: &'static str)
    ensures
        r@ == mime_spec(path@),
{
    if ends_with_lower(path, "html") {
        "text/html"
    } else if ends_with_lower(path, "htm") {
        "text/html"
    } else if ends_with_lower(path, "txt") {
        "text/plain"
    } else if ends_with_lower(path, "wasm") {
        "application/wasm"
    } else if ends_with_lower(path, "js") {
        "text/javascript"
    } else {
        "application/octet-stream"
    }
}

/// The content type depends only on the ASCII-lowercased path: two paths
/// that lowercase to the same string resolve to the same content type.
pub proof fn lemma_mime_case_insensitive(p1: Seq<char>, p2: Seq<char>)
    requires
        lower(p1) == lower(p2),
    ensures
        mime_spec(p1) == mime_spec(p2),
{
}

/// A path whose lowercased form ends in none of the five known suffixes
/// resolves to the default content type `application/octet-stream`.
pub proof fn lemma_mime_default(p: Seq<char>)
    requires
        !seq_ends_with(lower(p), "html"@),
        !seq_ends_with(lower(p), "htm"@),
        !seq_ends_with(lower(p), "txt"@),
        !seq_ends_with(lower(p), "wasm"@),
        !seq_ends_with(lower(p), "js"@),
    ensures
        mime_spec(p) == "application/octet-stream"@,
{
}

} // verus!
