//! The endpoint label under which a request is counted: dynamic path
//! segments are replaced by placeholders.
use vstd::prelude::*;
use crate::text::{count_char, seq_contains, seq_starts_with, str_contains, str_eq, str_starts_with};

verus! {

/// The label of request path `path`.
pub open spec fn endpoint_label(path: Seq<char>) -> Seq<char> {
    if path == "/v2/"@ {
        "/v2/"@
    } else if seq_starts_with(path, "/v2/"@) && seq_contains(path, "/blobs/"@) {
        if seq_contains(path, "/uploads/"@) {
            "/v2/{name}/blobs/uploads/{reference}"@
        } else {
            "/v2/{name}/blobs/{digest}"@
        }
    } else if seq_starts_with(path, "/v2/"@) && seq_contains(path, "/manifests/"@) {
        "/v2/{name}/manifests/{reference}"@
    } else if seq_starts_with(path, "/v2/"@) && seq_contains(path, "/tags/"@) {
        "/v2/{name}/tags/list"@
    } else if seq_starts_with(path, "/admin/"@) && seq_contains(path, "/users/"@) && count_char(
        path,
        '/',
    ) > 2 {
        if seq_contains(path, "/permissions"@) {
            "/admin/users/{username}/permissions"@
        } else {
            "/admin/users/{username}"@
        }
    } else {
        path
    }
}

/// The label under which a request for `path` is counted.
pub fn normalize_endpoint(path: &str) -> (r: String)
    ensures
        r@ == endpoint_label(path@),
{
    if str_eq(path, "/v2/") {
        return String::from_str("/v2/");
    }
    if str_starts_with(path, "/v2/") {
        if str_contains(path, "/blobs/") {
            if str_contains(path, "/uploads/") {
                return String::from_str("/v2/{name}/blobs/uploads/{reference}");
            }
            return String::from_str("/v2/{name}/blobs/{digest}");
        } else if str_contains(path, "/manifests/") {
            return String::from_str("/v2/{name}/manifests/{reference}");
        } else if str_contains(path, "/tags/") {
            return String::from_str("/v2/{name}/tags/list");
        }
    }
    if str_starts_with(path, "/admin/") {
        if str_contains(path, "/users/") && crate::text::count_char_exceeds(path, '/', 2) {
            if str_contains(path, "/permissions") {
                return String::from_str("/admin/users/{username}/permissions");
            }
            return String::from_str("/admin/users/{username}");
        }
        return String::from_str(path);
    }
    String::from_str(path)
}

} // verus!
