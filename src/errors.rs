//! The OCI error envelope and its projection onto HTTP status codes.
use vstd::prelude::*;

verus! {

/// The OCI distribution error codes.
#[derive(Debug, PartialEq, Eq, Structural, Clone, Copy)]
pub enum ErrorCode {
    BlobUnknown,
    BlobUploadInvalid,
    BlobUploadUnknown,
    DigestInvalid,
    ManifestBlobUnknown,
    ManifestInvalid,
    ManifestUnknown,
    ManifestUnverified,
    NameInvalid,
    NameUnknown,
    SizeInvalid,
    TagInvalid,
    Unauthorized,
    Denied,
    Unsupported,
}

/// The HTTP status that reports an error code.
pub open spec fn code_status(code: ErrorCode) -> u16 {
    match code {
        ErrorCode::Unauthorized => 401,
        ErrorCode::Denied => 403,
        ErrorCode::BlobUnknown | ErrorCode::ManifestUnknown | ErrorCode::NameUnknown
        | ErrorCode::BlobUploadUnknown => 404,
        ErrorCode::Unsupported => 405,
        _ => 400,
    }
}

/// The wire name of an error code.
pub open spec fn code_name(code: ErrorCode) -> Seq<char> {
    match code {
        ErrorCode::BlobUnknown => "BLOB_UNKNOWN"@,
        ErrorCode::BlobUploadInvalid => "BLOB_UPLOAD_INVALID"@,
        ErrorCode::BlobUploadUnknown => "BLOB_UPLOAD_UNKNOWN"@,
        ErrorCode::DigestInvalid => "DIGEST_INVALID"@,
        ErrorCode::ManifestBlobUnknown => "MANIFEST_BLOB_UNKNOWN"@,
        ErrorCode::ManifestInvalid => "MANIFEST_INVALID"@,
        ErrorCode::ManifestUnknown => "MANIFEST_UNKNOWN"@,
        ErrorCode::ManifestUnverified => "MANIFEST_UNVERIFIED"@,
        ErrorCode::NameInvalid => "NAME_INVALID"@,
        ErrorCode::NameUnknown => "NAME_UNKNOWN"@,
        ErrorCode::SizeInvalid => "SIZE_INVALID"@,
        ErrorCode::TagInvalid => "TAG_INVALID"@,
        ErrorCode::Unauthorized => "UNAUTHORIZED"@,
        ErrorCode::Denied => "DENIED"@,
        ErrorCode::Unsupported => "UNSUPPORTED"@,
    }
}

impl ErrorCode {
    /// The HTTP status that reports this code.
    pub fn status(&self) -> (r: u16)
        ensures
            r == code_status(*self),
    {
        match self {
            ErrorCode::Unauthorized => 401,
            ErrorCode::Denied => 403,
            ErrorCode::BlobUnknown | ErrorCode::ManifestUnknown | ErrorCode::NameUnknown
            | ErrorCode::BlobUploadUnknown => 404,
            ErrorCode::Unsupported => 405,
            _ => 400,
        }
    }

    /// The wire name of this code.
    pub fn as_str(&self) -> (r: &'static str)
        ensures
            r@ == code_name(*self),
    {
        match self {
            ErrorCode::BlobUnknown => "BLOB_UNKNOWN",
            ErrorCode::BlobUploadInvalid => "BLOB_UPLOAD_INVALID",
            ErrorCode::BlobUploadUnknown => "BLOB_UPLOAD_UNKNOWN",
            ErrorCode::DigestInvalid => "DIGEST_INVALID",
            ErrorCode::ManifestBlobUnknown => "MANIFEST_BLOB_UNKNOWN",
            ErrorCode::ManifestInvalid => "MANIFEST_INVALID",
            ErrorCode::ManifestUnknown => "MANIFEST_UNKNOWN",
            ErrorCode::ManifestUnverified => "MANIFEST_UNVERIFIED",
            ErrorCode::NameInvalid => "NAME_INVALID",
            ErrorCode::NameUnknown => "NAME_UNKNOWN",
            ErrorCode::SizeInvalid => "SIZE_INVALID",
            ErrorCode::TagInvalid => "TAG_INVALID",
            ErrorCode::Unauthorized => "UNAUTHORIZED",
            ErrorCode::Denied => "DENIED",
            ErrorCode::Unsupported => "UNSUPPORTED",
        }
    }
}

/// One error of the envelope.
#[derive(Debug)]
pub struct OciError {
    pub code: ErrorCode,
    pub message: String,
    pub detail: Option<String>,
}

/// The envelope `{"errors": [...]}`.
#[derive(Debug)]
pub struct OciErrorResponse {
    pub errors: Vec<OciError>,
}

/// The status of a response: that of its first error, or 500 when it has
/// none.
pub open spec fn response_status(errors: Seq<OciError>) -> u16 {
    if errors.len() == 0 {
        500
    } else {
        code_status(errors[0].code)
    }
}

impl OciErrorResponse {
    /// An envelope with one error and no detail.
    pub fn new(code: ErrorCode, message: &str) -> (r: OciErrorResponse)
        ensures
            r.errors@.len() == 1,
            r.errors@[0].code == code,
            r.errors@[0].message@ == message@,
            r.errors@[0].detail is None,
    {
        OciErrorResponse {
            errors: vec![OciError { code, message: String::from_str(message), detail: None }],
        }
    }

    /// An envelope with one error and its detail.
    pub fn with_detail(code: ErrorCode, message: &str, detail: &str) -> (r: OciErrorResponse)
        ensures
            r.errors@.len() == 1,
            r.errors@[0].code == code,
            r.errors@[0].message@ == message@,
            r.errors@[0].detail matches Some(d) && d@ == detail@,
    {
        OciErrorResponse {
            errors: vec![
                OciError {
                    code,
                    message: String::from_str(message),
                    detail: Some(String::from_str(detail)),
                },
            ],
        }
    }

    /// The HTTP status of this envelope.
    pub fn status_code(&self) -> (r: u16)
        ensures
            r == response_status(self.errors@),
    {
        if self.errors.len() == 0 {
            500
        } else {
            self.errors[0].code.status()
        }
    }
}

/// An envelope of one error with `detail` after `label`.
fn labelled(code: ErrorCode, message: &str, label: &str, value: &str) -> (r: OciErrorResponse)
    ensures
        r.errors@.len() == 1,
        r.errors@[0].code == code,
        r.errors@[0].message@ == message@,
        r.errors@[0].detail matches Some(d) && d@ == label@ + value@,
{
    let mut detail = String::from_str(label);
    detail.append(value);
    OciErrorResponse::with_detail(code, message, detail.as_str())
}

/// Credentials are missing or unknown (401).
pub fn unauthorized() -> (r: OciErrorResponse)
    ensures
        r.errors@.len() == 1,
        r.errors@[0].code == ErrorCode::Unauthorized,
        response_status(r.errors@) == 401,
{
    OciErrorResponse::new(ErrorCode::Unauthorized, "authentication required")
}

/// The user lacks the permission (403).
pub fn forbidden() -> (r: OciErrorResponse)
    ensures
        r.errors@.len() == 1,
        r.errors@[0].code == ErrorCode::Denied,
        response_status(r.errors@) == 403,
{
    OciErrorResponse::new(ErrorCode::Denied, "access denied: insufficient permissions")
}

/// A resource is missing (404).
pub fn not_found() -> (r: OciErrorResponse)
    ensures
        r.errors@.len() == 1,
        r.errors@[0].code == ErrorCode::BlobUnknown,
        response_status(r.errors@) == 404,
{
    OciErrorResponse::new(ErrorCode::BlobUnknown, "resource not found")
}

/// No blob `sha256:<hex>` in the repository (404).
pub fn blob_unknown(hex: &str) -> (r: OciErrorResponse)
    ensures
        r.errors@.len() == 1,
        r.errors@[0].code == ErrorCode::BlobUnknown,
        response_status(r.errors@) == 404,
        r.errors@[0].detail matches Some(d) && d@ == "digest: sha256:"@ + hex@,
{
    labelled(ErrorCode::BlobUnknown, "blob unknown to registry", "digest: sha256:", hex)
}

/// No manifest under `reference` (404).
pub fn manifest_unknown(reference: &str) -> (r: OciErrorResponse)
    ensures
        r.errors@.len() == 1,
        r.errors@[0].code == ErrorCode::ManifestUnknown,
        response_status(r.errors@) == 404,
        r.errors@[0].detail matches Some(d) && d@ == "reference: "@ + reference@,
{
    labelled(ErrorCode::ManifestUnknown, "manifest unknown to registry", "reference: ", reference)
}

/// The content does not hash to the requested digest (400).
pub fn digest_invalid(digest: &str) -> (r: OciErrorResponse)
    ensures
        r.errors@.len() == 1,
        r.errors@[0].code == ErrorCode::DigestInvalid,
        response_status(r.errors@) == 400,
        r.errors@[0].detail matches Some(d) && d@ == "digest: "@ + digest@,
{
    labelled(
        ErrorCode::DigestInvalid,
        "provided digest did not match uploaded content",
        "digest: ",
        digest,
    )
}

/// The manifest was refused (400).
pub fn manifest_invalid(reason: &str) -> (r: OciErrorResponse)
    ensures
        r.errors@.len() == 1,
        r.errors@[0].code == ErrorCode::ManifestInvalid,
        response_status(r.errors@) == 400,
        r.errors@[0].detail matches Some(d) && d@ == reason@,
{
    OciErrorResponse::with_detail(ErrorCode::ManifestInvalid, "manifest invalid", reason)
}

/// The repository name is refused (400).
pub fn name_invalid(name: &str) -> (r: OciErrorResponse)
    ensures
        r.errors@.len() == 1,
        r.errors@[0].code == ErrorCode::NameInvalid,
        response_status(r.errors@) == 400,
        r.errors@[0].detail matches Some(d) && d@ == name@,
{
    OciErrorResponse::with_detail(ErrorCode::NameInvalid, "invalid repository name", name)
}

/// No upload session `uuid` (404).
pub fn blob_upload_unknown(uuid: &str) -> (r: OciErrorResponse)
    ensures
        r.errors@.len() == 1,
        r.errors@[0].code == ErrorCode::BlobUploadUnknown,
        response_status(r.errors@) == 404,
        r.errors@[0].detail matches Some(d) && d@ == "uuid: "@ + uuid@,
{
    labelled(ErrorCode::BlobUploadUnknown, "upload session not found", "uuid: ", uuid)
}

} // verus!
