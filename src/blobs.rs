//! Decisions of the blob endpoints: how a POST is served, digest checks on
//! upload, and the locations handed back.
use vstd::prelude::*;
use crate::digest::{
    blob_digest_matches, content_digest, is_hex_digest, lemma_strip_wire_digest, sha256_hex,
    sha256_prefix, strip_algo, strip_algo_prefix,
};
use crate::permissions::{Action, allowed, has_permission};
use crate::state::{User, UserView};
use crate::storage::{blob_dir, blob_path, lemma_sanitize_hex_digest};
use crate::text::{split_at_sole, split_sole};

verus! {

/// The query of `POST /v2/{org}/{repo}/blobs/uploads/`.
#[derive(Debug)]
pub struct PostUploadParams {
    pub digest: Option<String>,
    pub mount: Option<String>,
    pub from: Option<String>,
}

/// How a POST is served.
#[derive(Debug)]
pub enum PostUploadStep {
    /// Link blob `digest` (hex) from `source_org/source_repo`.
    Mount { source_org: String, source_repo: String, digest: String },
    /// Store the body as a blob that must hash to `digest`.
    Monolithic { digest: String },
    /// Open a new upload session.
    StartSession,
}

/// The characters of an optional string.
pub open spec fn opt_view(s: Option<String>) -> Option<Seq<char>> {
    match s {
        Some(x) => Some(x@),
        None => None,
    }
}

/// The spec form of a step.
pub enum StepView {
    Mount(Seq<char>, Seq<char>, Seq<char>),
    Monolithic(Seq<char>),
    StartSession,
}

/// The spec form of a step.
pub open spec fn step_view(s: PostUploadStep) -> StepView {
    match s {
        PostUploadStep::Mount { source_org, source_repo, digest } => StepView::Mount(
            source_org@,
            source_repo@,
            digest@,
        ),
        PostUploadStep::Monolithic { digest } => StepView::Monolithic(digest@),
        PostUploadStep::StartSession => StepView::StartSession,
    }
}

/// Without a usable mount: a monolithic upload where a digest is given,
/// else a new session.
pub open spec fn step_without_mount(digest: Option<Seq<char>>) -> StepView {
    match digest {
        Some(d) => StepView::Monolithic(d),
        None => StepView::StartSession,
    }
}

/// The step for a POST by `user`: a mount where `mount` and `from` are both
/// given, `from` is `org/repo` and the user may pull from it; otherwise as
/// without a mount.
pub open spec fn post_step(
    user: UserView,
    digest: Option<Seq<char>>,
    mount: Option<Seq<char>>,
    from: Option<Seq<char>>,
) -> StepView {
    match (mount, from) {
        (Some(m), Some(f)) => match split_sole(f, '/') {
            Some((o, r)) => if allowed(user, f, None, Action::Pull) {
                StepView::Mount(o, r, strip_algo(m))
            } else {
                step_without_mount(digest)
            },
            None => step_without_mount(digest),
        },
        _ => step_without_mount(digest),
    }
}

/// The step once a mount was not made: a monolithic upload where a digest
/// is given, else a new session.
pub fn plan_after_mount(params: &PostUploadParams) -> (r: PostUploadStep)
    ensures
        step_view(r) == step_without_mount(opt_view(params.digest)),
{
    match &params.digest {
        Some(d) => PostUploadStep::Monolithic { digest: d.clone() },
        None => PostUploadStep::StartSession,
    }
}

/// Decides how `user`'s POST is served; a mount that then fails falls back
/// to `plan_after_mount`.
pub fn plan_post_upload(user: &User, params: &PostUploadParams) -> (r: PostUploadStep)
    ensures
        step_view(r) == post_step(
            user@,
            opt_view(params.digest),
            opt_view(params.mount),
            opt_view(params.from),
        ),
{
    match (&params.mount, &params.from) {
        (Some(m), Some(f)) => {
            match split_at_sole(f.as_str(), '/') {
                Some((o, r)) => {
                    if has_permission(user, f.as_str(), None, Action::Pull) {
                        let d = strip_algo_prefix(m.as_str());
                        PostUploadStep::Mount {
                            source_org: o,
                            source_repo: r,
                            digest: String::from_str(d),
                        }
                    } else {
                        plan_after_mount(params)
                    }
                },
                None => plan_after_mount(params),
            }
        },
        _ => plan_after_mount(params),
    }
}

/// A mount that failed (the source blob is missing) is served as an
/// ordinary POST: with no digest given, a new upload session (202).
pub proof fn lemma_failed_mount_starts_session(digest: Option<Seq<char>>)
    ensures
        digest is None ==> step_without_mount(digest) == StepView::StartSession,
        digest matches Some(d) ==> step_without_mount(digest) == StepView::Monolithic(d),
{
}

/// Why an upload could not be finalized.
#[derive(Debug, PartialEq, Eq, Structural, Clone, Copy)]
pub enum FinalizeError {
    /// The accumulated content does not hash to the expected digest.
    DigestMismatch,
}

/// The outcome of finalizing an upload of `data` against `expected`: the
/// hex digest, or a mismatch.
pub open spec fn finalize_result(data: Seq<u8>, expected: Seq<char>) -> Result<
    Seq<char>,
    FinalizeError,
> {
    if sha256_hex(data) == strip_algo(expected) {
        Ok(sha256_hex(data))
    } else {
        Err(FinalizeError::DigestMismatch)
    }
}

/// Checks the accumulated content of an upload session against the digest
/// the client gave, returning the hex digest under which to store it.
pub fn finalize_check(data: &[u8], expected: &str) -> (r: Result<String, FinalizeError>)
    ensures
        match r {
            Ok(h) => finalize_result(data@, expected@) == Ok::<Seq<char>, FinalizeError>(h@)
                && is_hex_digest(h@),
            Err(e) => finalize_result(data@, expected@) == Err::<Seq<char>, FinalizeError>(e),
        },
{
    let actual = content_digest(data);
    if crate::digest::digest_agrees(actual.as_str(), expected) {
        Ok(actual)
    } else {
        Err(FinalizeError::DigestMismatch)
    }
}

/// Whether a monolithic body may be stored under the requested digest.
pub fn monolithic_upload_accepted(body: &[u8], requested_digest: &str) -> (r: bool)
    ensures
        r == (sha256_hex(body@) == strip_algo(requested_digest@)),
{
    blob_digest_matches(body, requested_digest)
}

/// Content uploaded (in one piece, or as the concatenation of its chunks)
/// with its own digest, `sha256:` prefixed or not, is accepted.
pub proof fn lemma_own_digest_accepted(data: Seq<u8>)
    ensures
        finalize_result(data, sha256_prefix() + sha256_hex(data)) == Ok::<
            Seq<char>,
            FinalizeError,
        >(sha256_hex(data)),
{
    lemma_strip_wire_digest(sha256_hex(data));
}

/// Where an accepted blob lands is where a GET for the digest that was
/// requested reads: the stored file is `<blob dir>/<hex>`, and a GET for
/// `requested` (with or without `sha256:`) reads the same file. The bytes
/// there hash to the digest.
pub proof fn lemma_blob_found_where_stored(
    org: Seq<char>,
    repo: Seq<char>,
    hex: Seq<char>,
    requested: Seq<char>,
)
    requires
        is_hex_digest(hex),
        strip_algo(requested) == hex,
    ensures
        blob_path(org, repo, strip_algo(requested)) == blob_dir(org, repo) + "/"@ + hex,
        blob_path(org, repo, strip_algo(sha256_prefix() + hex)) == blob_dir(org, repo) + "/"@
            + hex,
{
    lemma_sanitize_hex_digest(hex);
    lemma_strip_wire_digest(hex);
}

/// `http://<host>/v2/<org>/<repo>/blobs/sha256:<hex>`.
pub fn blob_location(host: &str, org: &str, repo: &str, hex: &str) -> (r: String)
    ensures
        r@ == "http://"@ + host@ + "/v2/"@ + org@ + "/"@ + repo@ + "/blobs/sha256:"@ + hex@,
{
    let mut r = String::from_str("http://");
    r.append(host);
    r.append("/v2/");
    r.append(org);
    r.append("/");
    r.append(repo);
    r.append("/blobs/sha256:");
    r.append(hex);
    r
}

/// `http://<host>/v2/<org>/<repo>/blobs/uploads/<uuid>`.
pub fn upload_location(host: &str, org: &str, repo: &str, uuid: &str) -> (r: String)
    ensures
        r@ == "http://"@ + host@ + "/v2/"@ + org@ + "/"@ + repo@ + "/blobs/uploads/"@ + uuid@,
{
    let mut r = String::from_str("http://");
    r.append(host);
    r.append("/v2/");
    r.append(org);
    r.append("/");
    r.append(repo);
    r.append("/blobs/uploads/");
    r.append(uuid);
    r
}

/// `<org>/<repo>`, the repository name that permissions match.
pub fn repository_name(org: &str, repo: &str) -> (r: String)
    ensures
        r@ == org@ + "/"@ + repo@,
{
    let mut r = String::from_str(org);
    r.append("/");
    r.append(repo);
    r
}

} // verus!
