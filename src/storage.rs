//! The on-disk layout: sanitized path components under a fixed root.
use vstd::prelude::*;
use crate::digest::{is_hex_digest, is_lower_hex, strip_algo, strip_algo_prefix};

verus! {

/// `c` may stand in a path component unchanged.
pub open spec fn path_safe(c: char) -> bool {
    ||| 'a' <= c && c <= 'z'
    ||| 'A' <= c && c <= 'Z'
    ||| '0' <= c && c <= '9'
    ||| c == '.'
    ||| c == '_'
    ||| c == '-'
    ||| c == '/'
}

/// `s` with every character outside `[A-Za-z0-9._-/]` replaced by `_`.
pub open spec fn sanitize(s: Seq<char>) -> Seq<char> {
    s.map_values(|c: char| if path_safe(c) { c } else { '_' })
}

fn is_path_safe(c: char) -> (r: bool)
    ensures
        r == path_safe(c),
{
    ('a' <= c && c <= 'z') || ('A' <= c && c <= 'Z') || ('0' <= c && c <= '9') || c == '.' || c
        == '_' || c == '-' || c == '/'
}

/// `input` with every character outside `[A-Za-z0-9._-/]` replaced by `_`.
pub fn sanitize_string(input: &str) -> (r: String)
    ensures
        r@ == sanitize(input@),
{
    proof {
        reveal_strlit("_");
    }
    let n = input.unicode_len();
    let mut r = String::new();
    let mut i: usize = 0;
    while i < n
        invariant
            n == input@.len(),
            i <= n,
            r@ == sanitize(input@.take(i as int)),
        decreases n - i,
    {
        let c = input.get_char(i);
        if is_path_safe(c) {
            let one = input.substring_char(i, i + 1);
            assert(one@ =~= seq![c]);
            r.append(one);
        } else {
            proof {
                reveal_strlit("_");
            }
            assert("_"@ =~= seq!['_']);
            r.append("_");
        }
        assert(sanitize(input@.take(i + 1)) =~= sanitize(input@.take(i as int)).push(
            if path_safe(c) {
                c
            } else {
                '_'
            },
        ));
        i += 1;
    }
    assert(input@.take(n as int) =~= input@);
    r
}

/// Sanitizing leaves a lowercase hex digest as it is.
pub proof fn lemma_sanitize_hex_digest(h: Seq<char>)
    requires
        is_hex_digest(h),
    ensures
        sanitize(h) == h,
{
    assert(sanitize(h) =~= h) by {
        assert forall|i: int| 0 <= i < h.len() implies sanitize(h)[i] == h[i] by {
            assert(is_lower_hex(h[i]));
        }
    }
}

/// The storage root.
pub open spec fn root() -> Seq<char> {
    "./tmp"@
}

/// `<root>/<area>/<org>/<repo>` with both names sanitized.
pub open spec fn area_dir(area: Seq<char>, org: Seq<char>, repo: Seq<char>) -> Seq<char> {
    root() + "/"@ + area + "/"@ + sanitize(org) + "/"@ + sanitize(repo)
}

/// The directory of a repository's blobs.
pub open spec fn blob_dir(org: Seq<char>, repo: Seq<char>) -> Seq<char> {
    area_dir("blobs"@, org, repo)
}

/// The directory of a repository's manifests.
pub open spec fn manifest_dir(org: Seq<char>, repo: Seq<char>) -> Seq<char> {
    area_dir("manifests"@, org, repo)
}

/// The directory of a repository's upload sessions.
pub open spec fn upload_dir(org: Seq<char>, repo: Seq<char>) -> Seq<char> {
    area_dir("uploads"@, org, repo)
}

/// The file of the blob named `digest` (its hex form).
pub open spec fn blob_path(org: Seq<char>, repo: Seq<char>, digest: Seq<char>) -> Seq<char> {
    blob_dir(org, repo) + "/"@ + sanitize(digest)
}

/// The file of the manifest stored under `reference`.
pub open spec fn manifest_path(org: Seq<char>, repo: Seq<char>, reference: Seq<char>) -> Seq<
    char,
> {
    manifest_dir(org, repo) + "/"@ + sanitize(reference)
}

/// The file of the upload session `uuid`.
pub open spec fn upload_path(org: Seq<char>, repo: Seq<char>, uuid: Seq<char>) -> Seq<char> {
    upload_dir(org, repo) + "/"@ + sanitize(uuid)
}

/// `<root>/<area>/<org>/<repo>`.
fn area_dir_string(area: &str, org: &str, repo: &str) -> (r: String)
    ensures
        r@ == root() + "/"@ + area@ + "/"@ + sanitize(org@) + "/"@ + sanitize(repo@),
{
    let mut r = String::from_str("./tmp");
    r.append("/");
    r.append(area);
    r.append("/");
    let o = sanitize_string(org);
    r.append(o.as_str());
    r.append("/");
    let p = sanitize_string(repo);
    r.append(p.as_str());
    r
}

/// `dir/<sanitized name>`.
fn file_in(dir: String, name: &str) -> (r: String)
    ensures
        r@ == dir@ + "/"@ + sanitize(name@),
{
    let mut r = dir;
    r.append("/");
    let s = sanitize_string(name);
    r.append(s.as_str());
    r
}

/// The directory of a repository's blobs.
pub fn blob_dir_string(org: &str, repo: &str) -> (r: String)
    ensures
        r@ == blob_dir(org@, repo@),
{
    area_dir_string("blobs", org, repo)
}

/// The directory of a repository's manifests.
pub fn manifest_dir_string(org: &str, repo: &str) -> (r: String)
    ensures
        r@ == manifest_dir(org@, repo@),
{
    area_dir_string("manifests", org, repo)
}

/// The directory of a repository's upload sessions.
pub fn upload_dir_string(org: &str, repo: &str) -> (r: String)
    ensures
        r@ == upload_dir(org@, repo@),
{
    area_dir_string("uploads", org, repo)
}

/// The file of the blob that a request names by `digest`, with or without
/// `sha256:`.
pub fn blob_path_string(org: &str, repo: &str, digest: &str) -> (r: String)
    ensures
        r@ == blob_path(org@, repo@, strip_algo(digest@)),
{
    file_in(blob_dir_string(org, repo), strip_algo_prefix(digest))
}

/// The file of the manifest stored under `reference` as given.
pub fn manifest_path_string(org: &str, repo: &str, reference: &str) -> (r: String)
    ensures
        r@ == manifest_path(org@, repo@, reference@),
{
    file_in(manifest_dir_string(org, repo), reference)
}

/// The file of the upload session `uuid`.
pub fn upload_path_string(org: &str, repo: &str, uuid: &str) -> (r: String)
    ensures
        r@ == upload_path(org@, repo@, uuid@),
{
    file_in(upload_dir_string(org, repo), uuid)
}

} // verus!
