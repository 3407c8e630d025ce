//! Manifest validation against the OCI and Docker schema families.
use vstd::prelude::*;
use crate::json::{JsonValue, array_of, field, parsed_json, string_of, u64_of};
use crate::text::{seq_starts_with, str_eq, str_starts_with};

verus! {

/// The pattern that a descriptor digest must match.
pub const DIGEST_PATTERN: &'static str = "^[a-z0-9]+:[a-f0-9]{32,}$";

/// OCI image manifest media type.
pub const OCI_MANIFEST: &'static str = "application/vnd.oci.image.manifest.v1+json";

/// OCI image index media type.
pub const OCI_INDEX: &'static str = "application/vnd.oci.image.index.v1+json";

/// Docker image manifest (schema 2) media type.
pub const DOCKER_MANIFEST_V2: &'static str = "application/vnd.docker.distribution.manifest.v2+json";

/// Docker manifest list media type.
pub const DOCKER_MANIFEST_LIST: &'static str = "application/vnd.docker.distribution.manifest.list.v2+json";

/// `c` is in `[a-z0-9]`.
pub open spec fn is_lower_alnum(c: char) -> bool {
    ('a' <= c && c <= 'z') || ('0' <= c && c <= '9')
}

/// `s` matches `^[a-z0-9]+:[a-f0-9]{32,}$`: an algorithm name of lowercase
/// letters and digits, a colon, and at least 32 lowercase hex digits.
pub open spec fn digest_shape(s: Seq<char>) -> bool {
    exists|i: int|
        1 <= i < s.len() && s[i] == ':' && s.len() - i - 1 >= 32 && (forall|j: int|
            0 <= j < i ==> is_lower_alnum(#[trigger] s[j])) && (forall|j: int|
            i < j < s.len() ==> crate::digest::is_lower_hex(#[trigger] s[j]))
}

/// Relies on regex::Regex::new and Regex::is_match: with the pattern
/// `^[a-z0-9]+:[a-f0-9]{32,}$` (valid, so `new` succeeds), whether the
/// whole of `s` matches it.
#[verifier::external_body]
fn regex_matches_digest(pattern: &str, s: &str) -> (r: bool)
    requires
        pattern@ == DIGEST_PATTERN@,
    ensures
        r == digest_shape(s@),
{
    regex::Regex::new(pattern).unwrap().is_match(s)
}

/// A digest accepted in a descriptor: the right shape, and a `sha256:` or
/// `sha512:` algorithm.
pub open spec fn valid_digest(s: Seq<char>) -> bool {
    digest_shape(s) && (seq_starts_with(s, "sha256:"@) || seq_starts_with(s, "sha512:"@))
}

/// The kinds of validation failure.
#[derive(Debug, PartialEq, Eq, Structural, Clone, Copy)]
pub enum ValidationErrorKind {
    InvalidJson,
    InvalidSchema,
    InvalidDigest,
    InvalidMediaType,
    MissingRequiredField,
    InvalidSize,
}

/// A validation failure with its message.
#[derive(Debug)]
pub enum ValidationError {
    InvalidJson(String),
    InvalidSchema(String),
    InvalidDigest(String),
    InvalidMediaType(String),
    MissingRequiredField(String),
    InvalidSize(String),
}

/// The kind of a failure.
pub open spec fn kind_of(e: ValidationError) -> ValidationErrorKind {
    match e {
        ValidationError::InvalidJson(_) => ValidationErrorKind::InvalidJson,
        ValidationError::InvalidSchema(_) => ValidationErrorKind::InvalidSchema,
        ValidationError::InvalidDigest(_) => ValidationErrorKind::InvalidDigest,
        ValidationError::InvalidMediaType(_) => ValidationErrorKind::InvalidMediaType,
        ValidationError::MissingRequiredField(_) => ValidationErrorKind::MissingRequiredField,
        ValidationError::InvalidSize(_) => ValidationErrorKind::InvalidSize,
    }
}

impl ValidationError {
    /// The kind of this failure.
    pub fn kind(&self) -> (r: ValidationErrorKind)
        ensures
            r == kind_of(*self),
    {
        match self {
            ValidationError::InvalidJson(_) => ValidationErrorKind::InvalidJson,
            ValidationError::InvalidSchema(_) => ValidationErrorKind::InvalidSchema,
            ValidationError::InvalidDigest(_) => ValidationErrorKind::InvalidDigest,
            ValidationError::InvalidMediaType(_) => ValidationErrorKind::InvalidMediaType,
            ValidationError::MissingRequiredField(_) => ValidationErrorKind::MissingRequiredField,
            ValidationError::InvalidSize(_) => ValidationErrorKind::InvalidSize,
        }
    }

    /// The failure as text, `<kind>: <message>`.
    pub fn to_string(&self) -> (r: String) {
        let (prefix, msg) = match self {
            ValidationError::InvalidJson(m) => ("Invalid JSON: ", m),
            ValidationError::InvalidSchema(m) => ("Invalid schema: ", m),
            ValidationError::InvalidDigest(m) => ("Invalid digest: ", m),
            ValidationError::InvalidMediaType(m) => ("Invalid media type: ", m),
            ValidationError::MissingRequiredField(m) => ("Missing required field: ", m),
            ValidationError::InvalidSize(m) => ("Invalid size: ", m),
        };
        let mut r = String::from_str(prefix);
        r.append(msg.as_str());
        r
    }
}

/// Absent, `null`, or a string (an optional string field).
pub open spec fn opt_string_shape(v: Option<JsonValue>) -> bool {
    match v {
        None => true,
        Some(JsonValue::Null) => true,
        Some(JsonValue::Str(_)) => true,
        _ => false,
    }
}

/// An array of strings.
pub open spec fn strings_shape(v: JsonValue) -> bool {
    match v {
        JsonValue::Array(a) => forall|i: int| 0 <= i < a@.len() ==> (#[trigger] a@[i]) is Str,
        _ => false,
    }
}

/// An object whose members are all strings.
pub open spec fn string_map_shape(v: JsonValue) -> bool {
    match v {
        JsonValue::Object(f) => forall|i: int| 0 <= i < f@.len() ==> (#[trigger] f@[i]).1 is Str,
        _ => false,
    }
}

/// Absent, or `p(value)` (a field with a default).
pub open spec fn absent_or(v: Option<JsonValue>, p: spec_fn(JsonValue) -> bool) -> bool {
    match v {
        None => true,
        Some(x) => p(x),
    }
}

/// Absent, `null`, or `p(value)` (an optional field).
pub open spec fn optional(v: Option<JsonValue>, p: spec_fn(JsonValue) -> bool) -> bool {
    match v {
        None => true,
        Some(JsonValue::Null) => true,
        Some(x) => p(x),
    }
}

/// The shape of a platform object.
pub open spec fn platform_shape(v: JsonValue) -> bool {
    &&& v is Object
    &&& string_of(field(v, "architecture"@)) is Some
    &&& string_of(field(v, "os"@)) is Some
    &&& opt_string_shape(field(v, "os_version"@))
    &&& optional(field(v, "os_features"@), |x: JsonValue| strings_shape(x))
    &&& opt_string_shape(field(v, "variant"@))
}

/// The shape of a descriptor object.
pub open spec fn descriptor_shape(v: JsonValue) -> bool {
    &&& v is Object
    &&& string_of(field(v, "mediaType"@)) is Some
    &&& u64_of(field(v, "size"@)) is Some
    &&& string_of(field(v, "digest"@)) is Some
    &&& absent_or(field(v, "urls"@), |x: JsonValue| strings_shape(x))
    &&& absent_or(field(v, "annotations"@), |x: JsonValue| string_map_shape(x))
    &&& optional(field(v, "platform"@), |x: JsonValue| platform_shape(x))
}

/// An array of descriptors.
pub open spec fn descriptors_shape(v: Option<JsonValue>) -> bool {
    match array_of(v) {
        Some(a) => forall|i: int| 0 <= i < a.len() ==> descriptor_shape(#[trigger] a[i]),
        None => false,
    }
}

/// The fields common to image manifests and indexes.
pub open spec fn header_shape(v: JsonValue) -> bool {
    &&& v is Object
    &&& u64_of(field(v, "schemaVersion"@)) matches Some(n) && n <= u32::MAX
    &&& opt_string_shape(field(v, "mediaType"@))
    &&& absent_or(field(v, "annotations"@), |x: JsonValue| string_map_shape(x))
}

/// The shape of an image manifest.
pub open spec fn image_shape(v: JsonValue) -> bool {
    &&& header_shape(v)
    &&& field(v, "config"@) matches Some(c) && descriptor_shape(c)
    &&& descriptors_shape(field(v, "layers"@))
}

/// The shape of an image index.
pub open spec fn index_shape(v: JsonValue) -> bool {
    header_shape(v) && descriptors_shape(field(v, "manifests"@))
}

/// What validation reads of a descriptor: media type, size and digest.
pub struct DescriptorFields {
    pub media_type: Seq<char>,
    pub size: u64,
    pub digest: Seq<char>,
}

/// The string a member holds, or the empty string.
pub open spec fn string_or_empty(v: Option<JsonValue>) -> Seq<char> {
    match string_of(v) {
        Some(s) => s,
        None => Seq::empty(),
    }
}

/// What validation reads of a descriptor object.
pub open spec fn json_descriptor_fields(v: JsonValue) -> DescriptorFields {
    DescriptorFields {
        media_type: string_or_empty(field(v, "mediaType"@)),
        size: match u64_of(field(v, "size"@)) {
            Some(n) => n,
            None => 0,
        },
        digest: string_or_empty(field(v, "digest"@)),
    }
}

/// The first rule a descriptor breaks: digest, then size, then media type.
pub open spec fn descriptor_error(d: DescriptorFields) -> Option<ValidationErrorKind> {
    if !valid_digest(d.digest) {
        Some(ValidationErrorKind::InvalidDigest)
    } else if d.size == 0 {
        Some(ValidationErrorKind::InvalidSize)
    } else if d.media_type.len() == 0 {
        Some(ValidationErrorKind::InvalidMediaType)
    } else {
        None
    }
}

/// The first rule broken by a list of descriptors, in order.
pub open spec fn first_descriptor_error(ds: Seq<DescriptorFields>) -> Option<
    ValidationErrorKind,
>
    decreases ds.len(),
{
    if ds.len() == 0 {
        None
    } else {
        match descriptor_error(ds[0]) {
            Some(k) => Some(k),
            None => first_descriptor_error(ds.skip(1)),
        }
    }
}

/// The descriptor fields of the elements of an array member.
pub open spec fn array_descriptor_fields(v: Option<JsonValue>) -> Seq<DescriptorFields> {
    match array_of(v) {
        Some(a) => a.map_values(|d: JsonValue| json_descriptor_fields(d)),
        None => Seq::empty(),
    }
}

/// The first failure of an image manifest, if any.
pub open spec fn image_error(v: JsonValue) -> Option<ValidationErrorKind> {
    if !image_shape(v) {
        Some(ValidationErrorKind::InvalidSchema)
    } else {
        match descriptor_error(json_descriptor_fields(field(v, "config"@)->0)) {
            Some(k) => Some(k),
            None => {
                let layers = array_descriptor_fields(field(v, "layers"@));
                if layers.len() == 0 {
                    Some(ValidationErrorKind::InvalidSchema)
                } else {
                    first_descriptor_error(layers)
                }
            },
        }
    }
}

/// The first failure of an image index, if any.
pub open spec fn index_error(v: JsonValue) -> Option<ValidationErrorKind> {
    if !index_shape(v) {
        Some(ValidationErrorKind::InvalidSchema)
    } else {
        let ms = array_descriptor_fields(field(v, "manifests"@));
        if ms.len() == 0 {
            Some(ValidationErrorKind::InvalidSchema)
        } else {
            first_descriptor_error(ms)
        }
    }
}

/// `Ok(media_type)` where no failure was found.
pub open spec fn with_media_type(e: Option<ValidationErrorKind>, media_type: Seq<char>) -> Result<
    Seq<char>,
    ValidationErrorKind,
> {
    match e {
        Some(k) => Err(k),
        None => Ok(media_type),
    }
}

/// The outcome of validating a parsed document: its media type (declared,
/// or inferred from `config` / `manifests`), or the first failure.
pub open spec fn document_result(v: JsonValue) -> Result<Seq<char>, ValidationErrorKind> {
    match u64_of(field(v, "schemaVersion"@)) {
        None => Err(ValidationErrorKind::MissingRequiredField),
        Some(n) => if n != 2 {
            Err(ValidationErrorKind::InvalidSchema)
        } else {
            let mt = string_or_empty(field(v, "mediaType"@));
            if mt == OCI_MANIFEST@ || mt == DOCKER_MANIFEST_V2@ {
                with_media_type(image_error(v), mt)
            } else if mt == OCI_INDEX@ || mt == DOCKER_MANIFEST_LIST@ {
                with_media_type(index_error(v), mt)
            } else if mt.len() == 0 {
                if field(v, "config"@) is Some {
                    with_media_type(image_error(v), OCI_MANIFEST@)
                } else if field(v, "manifests"@) is Some {
                    with_media_type(index_error(v), OCI_INDEX@)
                } else {
                    Err(ValidationErrorKind::InvalidSchema)
                }
            } else {
                Err(ValidationErrorKind::InvalidMediaType)
            }
        },
    }
}

/// The outcome of validating manifest bytes.
pub open spec fn manifest_result(bytes: Seq<u8>) -> Result<Seq<char>, ValidationErrorKind> {
    match parsed_json(bytes) {
        None => Err(ValidationErrorKind::InvalidJson),
        Some(v) => document_result(v),
    }
}

/// A validation result matches its specification.
pub open spec fn result_is(
    r: Result<String, ValidationError>,
    expected: Result<Seq<char>, ValidationErrorKind>,
) -> bool {
    match r {
        Ok(mt) => expected == Ok::<Seq<char>, ValidationErrorKind>(mt@),
        Err(e) => expected == Err::<Seq<char>, ValidationErrorKind>(kind_of(e)),
    }
}

} // verus!

verus! {

/// The platform a manifest in an index was built for.
#[derive(Debug)]
pub struct Platform {
    pub architecture: String,
    pub os: String,
    pub os_version: Option<String>,
    pub os_features: Option<Vec<String>>,
    pub variant: Option<String>,
}

/// A reference to content by media type, size and digest.
#[derive(Debug)]
pub struct Descriptor {
    pub media_type: String,
    pub size: u64,
    pub digest: String,
    pub urls: Vec<String>,
    pub annotations: Vec<(String, String)>,
    pub platform: Option<Platform>,
}

/// An image manifest: a config descriptor and layer descriptors.
#[derive(Debug)]
pub struct OciImageManifest {
    pub schema_version: u32,
    pub media_type: Option<String>,
    pub config: Descriptor,
    pub layers: Vec<Descriptor>,
    pub annotations: Vec<(String, String)>,
}

/// An image index: descriptors of manifests.
#[derive(Debug)]
pub struct OciImageIndex {
    pub schema_version: u32,
    pub media_type: Option<String>,
    pub manifests: Vec<Descriptor>,
    pub annotations: Vec<(String, String)>,
}

impl Descriptor {
    /// What validation reads of this descriptor.
    pub open spec fn fields(self) -> DescriptorFields {
        DescriptorFields { media_type: self.media_type@, size: self.size, digest: self.digest@ }
    }
}

/// What validation reads of each descriptor.
pub open spec fn descriptors_fields(ds: Seq<Descriptor>) -> Seq<DescriptorFields> {
    ds.map_values(|d: Descriptor| d.fields())
}

/// A required string member.
fn read_string(v: Option<&JsonValue>) -> (r: Option<String>)
    ensures
        match r {
            Some(s) => string_of(crate::json::deref_opt(v)) == Some(s@),
            None => string_of(crate::json::deref_opt(v)) is None,
        },
{
    match v {
        Some(JsonValue::Str(s)) => Some(s.clone()),
        _ => None,
    }
}

/// An optional string member: absent or `null` give `None`.
fn read_opt_string(v: Option<&JsonValue>) -> (r: Result<Option<String>, ()>)
    ensures
        r is Ok <==> opt_string_shape(crate::json::deref_opt(v)),
{
    match v {
        None => Ok(None),
        Some(JsonValue::Null) => Ok(None),
        Some(JsonValue::Str(s)) => Ok(Some(s.clone())),
        _ => Err(()),
    }
}

/// An array of strings.
fn read_strings(v: &JsonValue) -> (r: Option<Vec<String>>)
    ensures
        r is Some <==> strings_shape(*v),
{
    match v {
        JsonValue::Array(a) => {
            let mut out: Vec<String> = Vec::new();
            let mut i: usize = 0;
            while i < a.len()
                invariant
                    i <= a@.len(),
                    strings_shape(*v) <==> forall|j: int| i <= j < a@.len() ==> (#[trigger] a@[j]) is Str,
                    forall|j: int| 0 <= j < i ==> (#[trigger] a@[j]) is Str,
                decreases a@.len() - i,
            {
                match &a[i] {
                    JsonValue::Str(s) => out.push(s.clone()),
                    _ => {
                        return None;
                    },
                }
                i += 1;
            }
            Some(out)
        },
        _ => None,
    }
}

/// An object whose members are all strings, as key-value pairs.
fn read_string_map(v: &JsonValue) -> (r: Option<Vec<(String, String)>>)
    ensures
        r is Some <==> string_map_shape(*v),
{
    match v {
        JsonValue::Object(f) => {
            let mut out: Vec<(String, String)> = Vec::new();
            let mut i: usize = 0;
            while i < f.len()
                invariant
                    i <= f@.len(),
                    string_map_shape(*v) <==> forall|j: int|
                        i <= j < f@.len() ==> (#[trigger] f@[j]).1 is Str,
                    forall|j: int| 0 <= j < i ==> (#[trigger] f@[j]).1 is Str,
                decreases f@.len() - i,
            {
                match &f[i].1 {
                    JsonValue::Str(s) => out.push((f[i].0.clone(), s.clone())),
                    _ => {
                        return None;
                    },
                }
                i += 1;
            }
            Some(out)
        },
        _ => None,
    }
}

/// A member with a default: absent gives the empty list.
fn read_annotations(v: Option<&JsonValue>) -> (r: Option<Vec<(String, String)>>)
    ensures
        r is Some <==> absent_or(crate::json::deref_opt(v), |x: JsonValue| string_map_shape(x)),
{
    match v {
        None => Some(Vec::new()),
        Some(x) => read_string_map(x),
    }
}

impl Platform {
    /// Reads a platform object.
    pub fn from_json(v: &JsonValue) -> (r: Option<Platform>)
        ensures
            r is Some <==> platform_shape(*v),
    {
        if !v.is_object() {
            return None;
        }
        let architecture = match read_string(v.get("architecture")) {
            Some(s) => s,
            None => return None,
        };
        let os = match read_string(v.get("os")) {
            Some(s) => s,
            None => return None,
        };
        let os_version = match read_opt_string(v.get("os_version")) {
            Ok(s) => s,
            Err(_) => return None,
        };
        let os_features = match v.get("os_features") {
            None => None,
            Some(JsonValue::Null) => None,
            Some(x) => match read_strings(x) {
                Some(l) => Some(l),
                None => return None,
            },
        };
        let variant = match read_opt_string(v.get("variant")) {
            Ok(s) => s,
            Err(_) => return None,
        };
        Some(Platform { architecture, os, os_version, os_features, variant })
    }
}

impl Descriptor {
    /// Reads a descriptor object.
    pub fn from_json(v: &JsonValue) -> (r: Option<Descriptor>)
        ensures
            r is Some <==> descriptor_shape(*v),
            r matches Some(d) ==> d.fields() == json_descriptor_fields(*v),
    {
        if !v.is_object() {
            return None;
        }
        let media_type = match read_string(v.get("mediaType")) {
            Some(s) => s,
            None => return None,
        };
        let size = match v.get("size") {
            Some(x) => match x.as_u64() {
                Some(n) => n,
                None => return None,
            },
            None => return None,
        };
        let digest = match read_string(v.get("digest")) {
            Some(s) => s,
            None => return None,
        };
        let urls = match v.get("urls") {
            None => Vec::new(),
            Some(x) => match read_strings(x) {
                Some(l) => l,
                None => return None,
            },
        };
        let annotations = match read_annotations(v.get("annotations")) {
            Some(a) => a,
            None => return None,
        };
        let platform = match v.get("platform") {
            None => None,
            Some(JsonValue::Null) => None,
            Some(x) => match Platform::from_json(x) {
                Some(p) => Some(p),
                None => return None,
            },
        };
        Some(Descriptor { media_type, size, digest, urls, annotations, platform })
    }
}

/// Reads an array member of descriptors.
fn read_descriptors(v: Option<&JsonValue>) -> (r: Option<Vec<Descriptor>>)
    ensures
        r is Some <==> descriptors_shape(crate::json::deref_opt(v)),
        r matches Some(ds) ==> descriptors_fields(ds@) == array_descriptor_fields(
            crate::json::deref_opt(v),
        ),
{
    let a = match v {
        Some(x) => match x.as_array() {
            Some(a) => a,
            None => return None,
        },
        None => return None,
    };
    let mut out: Vec<Descriptor> = Vec::new();
    let mut i: usize = 0;
    while i < a.len()
        invariant
            i <= a@.len(),
            array_of(crate::json::deref_opt(v)) == Some(a@),
            forall|j: int| 0 <= j < i ==> descriptor_shape(#[trigger] a@[j]),
            descriptors_fields(out@) == a@.take(i as int).map_values(
                |d: JsonValue| json_descriptor_fields(d),
            ),
        decreases a@.len() - i,
    {
        match Descriptor::from_json(&a[i]) {
            Some(d) => {
                proof {
                    assert(descriptors_fields(out@.push(d)) =~= descriptors_fields(out@).push(
                        d.fields(),
                    ));
                    assert(a@.take(i + 1).map_values(|d: JsonValue| json_descriptor_fields(d))
                        =~= a@.take(i as int).map_values(
                        |d: JsonValue| json_descriptor_fields(d),
                    ).push(json_descriptor_fields(a@[i as int])));
                }
                out.push(d);
            },
            None => {
                assert(!descriptor_shape(a@[i as int]));
                proof {
                    if descriptors_shape(crate::json::deref_opt(v)) {
                        let arr = array_of(crate::json::deref_opt(v))->0;
                        assert(arr == a@);
                        assert(descriptor_shape(arr[i as int]));
                    }
                }
                return None;
            },
        }
        i += 1;
    }
    assert(a@.take(a@.len() as int) =~= a@);
    Some(out)
}

/// Reads the schema version, media type and annotations common to
/// manifests and indexes.
fn read_header(v: &JsonValue) -> (r: Option<(u32, Option<String>, Vec<(String, String)>)>)
    ensures
        r is Some <==> header_shape(*v),
{
    if !v.is_object() {
        return None;
    }
    let schema_version = match v.get("schemaVersion") {
        Some(x) => match x.as_u64() {
            Some(n) => {
                if n > 0xffff_ffffu64 {
                    return None;
                }
                n as u32
            },
            None => return None,
        },
        None => return None,
    };
    let media_type = match read_opt_string(v.get("mediaType")) {
        Ok(s) => s,
        Err(_) => return None,
    };
    let annotations = match read_annotations(v.get("annotations")) {
        Some(a) => a,
        None => return None,
    };
    Some((schema_version, media_type, annotations))
}

impl OciImageManifest {
    /// Reads an image manifest.
    pub fn from_json(v: &JsonValue) -> (r: Option<OciImageManifest>)
        ensures
            r is Some <==> image_shape(*v),
            r matches Some(m) ==> m.config.fields() == json_descriptor_fields(
                field(*v, "config"@)->0,
            ) && descriptors_fields(m.layers@) == array_descriptor_fields(field(*v, "layers"@)),
    {
        let (schema_version, media_type, annotations) = match read_header(v) {
            Some(h) => h,
            None => return None,
        };
        let config = match v.get("config") {
            Some(c) => match Descriptor::from_json(c) {
                Some(d) => d,
                None => return None,
            },
            None => return None,
        };
        let layers = match read_descriptors(v.get("layers")) {
            Some(l) => l,
            None => return None,
        };
        Some(OciImageManifest { schema_version, media_type, config, layers, annotations })
    }
}

impl OciImageIndex {
    /// Reads an image index.
    pub fn from_json(v: &JsonValue) -> (r: Option<OciImageIndex>)
        ensures
            r is Some <==> index_shape(*v),
            r matches Some(x) ==> descriptors_fields(x.manifests@) == array_descriptor_fields(
                field(*v, "manifests"@),
            ),
    {
        let (schema_version, media_type, annotations) = match read_header(v) {
            Some(h) => h,
            None => return None,
        };
        let manifests = match read_descriptors(v.get("manifests")) {
            Some(l) => l,
            None => return None,
        };
        Some(OciImageIndex { schema_version, media_type, manifests, annotations })
    }
}

} // verus!

verus! {

/// The validation outcome `r` reports failure kind `e` (or success, where
/// `e` is `None`).
pub open spec fn error_is(r: Result<(), ValidationError>, e: Option<ValidationErrorKind>) -> bool {
    match r {
        Ok(_) => e is None,
        Err(x) => e == Some(kind_of(x)),
    }
}

/// A failure of kind `InvalidSchema` with `msg`.
fn invalid_schema(msg: &str) -> (r: ValidationError)
    ensures
        kind_of(r) == ValidationErrorKind::InvalidSchema,
{
    ValidationError::InvalidSchema(String::from_str(msg))
}

/// Checks a descriptor digest: the pattern, then the algorithm.
pub fn validate_digest(digest: &str) -> (r: Result<(), ValidationError>)
    ensures
        r is Ok <==> valid_digest(digest@),
        r matches Err(e) ==> kind_of(e) == ValidationErrorKind::InvalidDigest,
{
    if !regex_matches_digest(DIGEST_PATTERN, digest) {
        let mut msg = String::from_str("Invalid digest format: ");
        msg.append(digest);
        return Err(ValidationError::InvalidDigest(msg));
    }
    if !str_starts_with(digest, "sha256:") && !str_starts_with(digest, "sha512:") {
        let mut msg = String::from_str("Unsupported digest algorithm in: ");
        msg.append(digest);
        return Err(ValidationError::InvalidDigest(msg));
    }
    Ok(())
}

/// Checks a descriptor: digest, size, then media type.
pub fn validate_descriptor(desc: &Descriptor) -> (r: Result<(), ValidationError>)
    ensures
        error_is(r, descriptor_error(desc.fields())),
{
    match validate_digest(desc.digest.as_str()) {
        Ok(()) => {},
        Err(e) => return Err(e),
    }
    if desc.size == 0 {
        return Err(
            ValidationError::InvalidSize(String::from_str("Descriptor size must be greater than 0")),
        );
    }
    if desc.media_type.unicode_len() == 0 {
        return Err(
            ValidationError::InvalidMediaType(
                String::from_str("Descriptor media type cannot be empty"),
            ),
        );
    }
    Ok(())
}

/// Checks descriptors in order and reports the first failure.
fn validate_descriptors(ds: &Vec<Descriptor>) -> (r: Result<(), ValidationError>)
    ensures
        error_is(r, first_descriptor_error(descriptors_fields(ds@))),
{
    let ghost all = descriptors_fields(ds@);
    let mut i: usize = 0;
    assert(all.skip(0) =~= all);
    while i < ds.len()
        invariant
            i <= ds@.len(),
            all == descriptors_fields(ds@),
            first_descriptor_error(all) == first_descriptor_error(all.skip(i as int)),
        decreases ds@.len() - i,
    {
        assert(all.skip(i as int)[0] == ds@[i as int].fields());
        match validate_descriptor(&ds[i]) {
            Ok(()) => {},
            Err(e) => return Err(e),
        }
        assert(all.skip(i as int).skip(1) =~= all.skip(i + 1));
        i += 1;
    }
    Ok(())
}

/// Validates an image manifest: its shape, its config descriptor, then at
/// least one layer and each layer.
pub fn validate_oci_image_manifest(v: &JsonValue) -> (r: Result<(), ValidationError>)
    ensures
        error_is(r, image_error(*v)),
{
    let manifest = match OciImageManifest::from_json(v) {
        Some(m) => m,
        None => return Err(invalid_schema("Manifest does not match the image manifest schema")),
    };
    match validate_descriptor(&manifest.config) {
        Ok(()) => {},
        Err(e) => return Err(e),
    }
    if manifest.layers.len() == 0 {
        return Err(invalid_schema("Manifest must have at least one layer"));
    }
    validate_descriptors(&manifest.layers)
}

/// Validates an image index: its shape, then at least one manifest and
/// each manifest descriptor.
pub fn validate_oci_image_index(v: &JsonValue) -> (r: Result<(), ValidationError>)
    ensures
        error_is(r, index_error(*v)),
{
    let index = match OciImageIndex::from_json(v) {
        Some(x) => x,
        None => return Err(invalid_schema("Index does not match the image index schema")),
    };
    if index.manifests.len() == 0 {
        return Err(invalid_schema("Image index must have at least one manifest"));
    }
    validate_descriptors(&index.manifests)
}

/// A Docker schema 2 manifest follows the image manifest rules.
pub fn validate_docker_manifest_v2(v: &JsonValue) -> (r: Result<(), ValidationError>)
    ensures
        error_is(r, image_error(*v)),
{
    validate_oci_image_manifest(v)
}

/// A Docker manifest list follows the image index rules.
pub fn validate_docker_manifest_list(v: &JsonValue) -> (r: Result<(), ValidationError>)
    ensures
        error_is(r, index_error(*v)),
{
    validate_oci_image_index(v)
}

/// `Ok(media_type)` after a check that passed.
fn with_type(check: Result<(), ValidationError>, media_type: &str) -> (r: Result<
    String,
    ValidationError,
>)
    ensures
        match r {
            Ok(mt) => check is Ok && mt@ == media_type@,
            Err(e) => check == Err::<(), ValidationError>(e),
        },
{
    match check {
        Ok(()) => Ok(String::from_str(media_type)),
        Err(e) => Err(e),
    }
}

/// Validates a parsed manifest document and returns its media type,
/// declared or inferred.
pub fn validate_document(v: &JsonValue) -> (r: Result<String, ValidationError>)
    ensures
        result_is(r, document_result(*v)),
{
    let schema_version = match v.get("schemaVersion") {
        Some(x) => x.as_u64(),
        None => None,
    };
    let schema_version = match schema_version {
        Some(n) => n,
        None => {
            return Err(ValidationError::MissingRequiredField(String::from_str("schemaVersion")));
        },
    };
    if schema_version != 2 {
        return Err(invalid_schema("Unsupported schema version"));
    }
    let media_type = match v.get("mediaType") {
        Some(x) => match x.as_str() {
            Some(s) => s,
            None => "",
        },
        None => "",
    };
    proof {
        reveal_strlit("");
    }
    assert(media_type@ == string_or_empty(field(*v, "mediaType"@)));
    if str_eq(media_type, OCI_MANIFEST) || str_eq(media_type, DOCKER_MANIFEST_V2) {
        let c = validate_oci_image_manifest(v);
        with_type(c, media_type)
    } else if str_eq(media_type, OCI_INDEX) || str_eq(media_type, DOCKER_MANIFEST_LIST) {
        let c = validate_oci_image_index(v);
        with_type(c, media_type)
    } else if media_type.unicode_len() == 0 {
        if v.get("config").is_some() {
            let c = validate_oci_image_manifest(v);
            with_type(c, OCI_MANIFEST)
        } else if v.get("manifests").is_some() {
            let c = validate_oci_image_index(v);
            with_type(c, OCI_INDEX)
        } else {
            Err(invalid_schema("Cannot determine manifest type"))
        }
    } else {
        let mut msg = String::from_str("Unsupported media type: ");
        msg.append(media_type);
        Err(ValidationError::InvalidMediaType(msg))
    }
}

/// Validates manifest bytes and returns the detected media type.
pub fn validate_manifest(manifest_bytes: &[u8]) -> (r: Result<String, ValidationError>)
    ensures
        result_is(r, manifest_result(manifest_bytes@)),
{
    match JsonValue::parse(manifest_bytes) {
        Some(v) => validate_document(&v),
        None => Err(ValidationError::InvalidJson(String::from_str("not a JSON document"))),
    }
}

/// A document declaring any schema version other than 2 (such as 1) is
/// refused as an invalid schema, whatever else it holds.
pub proof fn lemma_other_schema_versions_refused(v: JsonValue, n: u64)
    requires
        u64_of(field(v, "schemaVersion"@)) == Some(n),
        n != 2,
    ensures
        document_result(v) == Err::<Seq<char>, ValidationErrorKind>(
            ValidationErrorKind::InvalidSchema,
        ),
{
}

} // verus!
