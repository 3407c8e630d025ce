//! Decisions of the manifest endpoints: validation on PUT, the keys a
//! manifest is stored under, the key a GET reads, and the content type.
use vstd::prelude::*;
use crate::digest::{
    content_digest, is_hex_digest, lemma_strip_wire_digest, sha256_hex, sha256_prefix, strip_algo,
};
use crate::json::{JsonValue, field, parsed_json, string_of};
use crate::state::strings_view;
use crate::storage::{manifest_path, lemma_sanitize_hex_digest};
use crate::text::{seq_starts_with, str_starts_with};
use crate::validation::{
    OCI_MANIFEST, ValidationError, manifest_result, result_is, validate_manifest,
};

verus! {

/// The keys a manifest PUT under `reference` stores its bytes under: the
/// reference as given, and also the hex digest where the reference is not a
/// `sha256:` digest.
pub open spec fn storage_keys(reference: Seq<char>, hex: Seq<char>) -> Seq<Seq<char>> {
    if seq_starts_with(reference, sha256_prefix()) {
        seq![reference]
    } else {
        seq![reference, hex]
    }
}

/// The keys to store a manifest PUT under `reference` with hex digest `hex`.
pub fn manifest_storage_keys(reference: &str, hex: &str) -> (r: Vec<String>)
    ensures
        strings_view(r@) == storage_keys(reference@, hex@),
{
    proof {
        reveal_strlit("sha256:");
    }
    let mut r: Vec<String> = Vec::new();
    r.push(String::from_str(reference));
    if !str_starts_with(reference, "sha256:") {
        r.push(String::from_str(hex));
    }
    assert(strings_view(r@) =~= storage_keys(reference@, hex@));
    r
}

/// The key a GET, HEAD or DELETE of `reference` uses: the reference without
/// `sha256:`.
pub fn manifest_lookup_key(reference: &str) -> (r: &str)
    ensures
        r@ == strip_algo(reference@),
{
    crate::digest::strip_algo_prefix(reference)
}

/// An accepted manifest PUT: its media type, hex digest and storage keys.
#[derive(Debug)]
pub struct ManifestPut {
    pub media_type: String,
    pub digest: String,
    pub keys: Vec<String>,
}

/// Validates the body of a manifest PUT under `reference` and decides what
/// to store: on success the media type, the hex digest of the body and the
/// keys to store it under.
pub fn accept_manifest(bytes: &[u8], reference: &str) -> (r: Result<ManifestPut, ValidationError>)
    ensures
        match r {
            Ok(p) => manifest_result(bytes@) == Ok::<Seq<char>, crate::validation::ValidationErrorKind>(
                p.media_type@,
            ) && p.digest@ == sha256_hex(bytes@) && is_hex_digest(p.digest@) && strings_view(
                p.keys@,
            ) == storage_keys(reference@, sha256_hex(bytes@)),
            Err(e) => result_is(Err(e), manifest_result(bytes@)),
        },
{
    let media_type = match validate_manifest(bytes) {
        Ok(m) => m,
        Err(e) => return Err(e),
    };
    let digest = content_digest(bytes);
    let keys = manifest_storage_keys(reference, digest.as_str());
    Ok(ManifestPut { media_type, digest, keys })
}

/// The content type of stored manifest bytes: the declared `mediaType`, or
/// the OCI image manifest type.
pub open spec fn content_type_of(doc: Option<JsonValue>) -> Seq<char> {
    match doc {
        Some(v) => match string_of(field(v, "mediaType"@)) {
            Some(m) => m,
            None => OCI_MANIFEST@,
        },
        None => OCI_MANIFEST@,
    }
}

/// The content type of a parsed manifest document.
pub fn document_content_type(doc: Option<&JsonValue>) -> (r: String)
    ensures
        r@ == content_type_of(crate::json::deref_opt(doc)),
{
    match doc {
        Some(v) => match v.get("mediaType") {
            Some(m) => match m.as_str() {
                Some(s) => String::from_str(s),
                None => String::from_str(OCI_MANIFEST),
            },
            None => String::from_str(OCI_MANIFEST),
        },
        None => String::from_str(OCI_MANIFEST),
    }
}

/// The content type to serve stored manifest bytes with.
pub fn detect_manifest_content_type(manifest_data: &[u8]) -> (r: String)
    ensures
        r@ == content_type_of(parsed_json(manifest_data@)),
{
    match JsonValue::parse(manifest_data) {
        Some(v) => document_content_type(Some(&v)),
        None => document_content_type(None),
    }
}

/// Dual indexing: after a PUT by tag `t` with body `b`, a GET by `t` and a
/// GET by `sha256:<digest of b>` both read files that the PUT wrote.
pub proof fn lemma_tag_and_digest_resolve(
    org: Seq<char>,
    repo: Seq<char>,
    tag: Seq<char>,
    hex: Seq<char>,
)
    requires
        !seq_starts_with(tag, sha256_prefix()),
        is_hex_digest(hex),
    ensures
        ({
            let written = storage_keys(tag, hex).map_values(
                |k: Seq<char>| manifest_path(org, repo, k),
            );
            &&& written.contains(manifest_path(org, repo, strip_algo(tag)))
            &&& written.contains(manifest_path(org, repo, strip_algo(sha256_prefix() + hex)))
        }),
{
    lemma_strip_wire_digest(hex);
    lemma_sanitize_hex_digest(hex);
    let written = storage_keys(tag, hex).map_values(|k: Seq<char>| manifest_path(org, repo, k));
    assert(written[0] == manifest_path(org, repo, tag));
    assert(written[1] == manifest_path(org, repo, hex));
}

/// What `accept_manifest` promises for an accepted PUT of `bytes` under
/// `reference`.
pub open spec fn accepted_put(p: ManifestPut, bytes: Seq<u8>, reference: Seq<char>) -> bool {
    &&& manifest_result(bytes) == Ok::<Seq<char>, crate::validation::ValidationErrorKind>(
        p.media_type@,
    )
    &&& p.digest@ == sha256_hex(bytes)
    &&& strings_view(p.keys@) == storage_keys(reference, sha256_hex(bytes))
}

/// Putting the same bytes under the same reference twice gives the same
/// media type, the same digest and the same storage keys, so the stored
/// bytes and the `Docker-Content-Digest` header are unchanged.
pub proof fn lemma_repeated_put_is_stable(
    first: ManifestPut,
    second: ManifestPut,
    bytes: Seq<u8>,
    reference: Seq<char>,
)
    requires
        accepted_put(first, bytes, reference),
        accepted_put(second, bytes, reference),
    ensures
        first.media_type@ == second.media_type@,
        first.digest@ == second.digest@,
        strings_view(first.keys@) == strings_view(second.keys@),
{
}

} // verus!
