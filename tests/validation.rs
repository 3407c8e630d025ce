use grain::errors::manifest_invalid;
use grain::validation::{validate_digest, validate_manifest, ValidationErrorKind};

#[test]
fn test_valid_oci_manifest() {
    let manifest = r#"{
        "schemaVersion": 2,
        "mediaType": "application/vnd.oci.image.manifest.v1+json",
        "config": {
            "mediaType": "application/vnd.oci.image.config.v1+json",
            "size": 123,
            "digest": "sha256:1234567890abcdef1234567890abcdef1234567890abcdef1234567890abcdef"
        },
        "layers": [
            {
                "mediaType": "application/vnd.oci.image.layer.v1.tar+gzip",
                "size": 456,
                "digest": "sha256:abcdef1234567890abcdef1234567890abcdef1234567890abcdef1234567890"
            }
        ]
    }"#;

    assert!(validate_manifest(manifest.as_bytes()).is_ok());
}

#[test]
fn test_invalid_schema_version() {
    let manifest = r#"{"schemaVersion": 1}"#;
    assert!(validate_manifest(manifest.as_bytes()).is_err());
}

#[test]
fn test_invalid_digest() {
    let manifest = r#"{
        "schemaVersion": 2,
        "mediaType": "application/vnd.oci.image.manifest.v1+json",
        "config": {
            "mediaType": "application/vnd.oci.image.config.v1+json",
            "size": 123,
            "digest": "invalid-digest"
        },
        "layers": []
    }"#;

    assert!(validate_manifest(manifest.as_bytes()).is_err());
}

#[test]
fn test_empty_layers() {
    let manifest = r#"{
        "schemaVersion": 2,
        "mediaType": "application/vnd.oci.image.manifest.v1+json",
        "config": {
            "mediaType": "application/vnd.oci.image.config.v1+json",
            "size": 123,
            "digest": "sha256:1234567890abcdef1234567890abcdef1234567890abcdef1234567890abcdef"
        },
        "layers": []
    }"#;

    assert!(validate_manifest(manifest.as_bytes()).is_err());
}

#[test]
fn test_valid_oci_index() {
    let manifest = r#"{
        "schemaVersion": 2,
        "mediaType": "application/vnd.oci.image.index.v1+json",
        "manifests": [
            {
                "mediaType": "application/vnd.oci.image.manifest.v1+json",
                "size": 123,
                "digest": "sha256:1234567890abcdef1234567890abcdef1234567890abcdef1234567890abcdef"
            }
        ]
    }"#;

    assert!(validate_manifest(manifest.as_bytes()).is_ok());
}

#[test]
fn test_inferred_type() {
    let manifest = r#"{
        "schemaVersion": 2,
        "config": {
            "mediaType": "application/vnd.oci.image.config.v1+json",
            "size": 123,
            "digest": "sha256:1234567890abcdef1234567890abcdef1234567890abcdef1234567890abcdef"
        },
        "layers": [
            {
                "mediaType": "application/vnd.oci.image.layer.v1.tar+gzip",
                "size": 456,
                "digest": "sha256:abcdef1234567890abcdef1234567890abcdef1234567890abcdef1234567890"
            }
        ]
    }"#;

    let result = validate_manifest(manifest.as_bytes());
    assert!(result.is_ok());
    assert_eq!(
        result.unwrap(),
        "application/vnd.oci.image.manifest.v1+json"
    );
}

fn kind_of(bytes: &[u8]) -> ValidationErrorKind {
    validate_manifest(bytes).unwrap_err().kind()
}

const HEX_A: &str = "1234567890abcdef1234567890abcdef1234567890abcdef1234567890abcdef";

fn descriptor(media_type: &str, size: &str, digest: &str) -> String {
    format!(
        r#"{{"mediaType": "{}", "size": {}, "digest": "{}"}}"#,
        media_type, size, digest
    )
}

#[test]
fn schema_version_one_is_manifest_invalid() {
    assert_eq!(kind_of(br#"{"schemaVersion": 1}"#), ValidationErrorKind::InvalidSchema);
    let env = manifest_invalid("Invalid schema: Unsupported schema version");
    assert_eq!(env.status_code(), 400);
    assert_eq!(env.errors[0].code.as_str(), "MANIFEST_INVALID");
}

#[test]
fn each_validation_failure_kind() {
    assert_eq!(kind_of(b"not json"), ValidationErrorKind::InvalidJson);
    assert_eq!(kind_of(br#"{"mediaType": "x"}"#), ValidationErrorKind::MissingRequiredField);
    assert_eq!(
        kind_of(br#"{"schemaVersion": 2, "mediaType": "text/plain"}"#),
        ValidationErrorKind::InvalidMediaType
    );
    assert_eq!(kind_of(br#"{"schemaVersion": 2}"#), ValidationErrorKind::InvalidSchema);
    let cfg = descriptor("application/vnd.oci.image.config.v1+json", "1", &format!("sha256:{}", HEX_A));
    let zero = descriptor("application/x", "0", &format!("sha256:{}", HEX_A));
    let m = format!(r#"{{"schemaVersion": 2, "config": {}, "layers": [{}]}}"#, cfg, zero);
    assert_eq!(kind_of(m.as_bytes()), ValidationErrorKind::InvalidSize);
    let empty_type = descriptor("", "5", &format!("sha256:{}", HEX_A));
    let m = format!(r#"{{"schemaVersion": 2, "config": {}, "layers": [{}]}}"#, cfg, empty_type);
    assert_eq!(kind_of(m.as_bytes()), ValidationErrorKind::InvalidMediaType);
    let md5 = descriptor("application/x", "5", &format!("md5:{}", HEX_A));
    let m = format!(r#"{{"schemaVersion": 2, "config": {}, "layers": [{}]}}"#, cfg, md5);
    assert_eq!(kind_of(m.as_bytes()), ValidationErrorKind::InvalidDigest);
    let m = format!(r#"{{"schemaVersion": 2, "config": {}, "layers": [{{"size": 3}}]}}"#, cfg);
    assert_eq!(kind_of(m.as_bytes()), ValidationErrorKind::InvalidSchema);
}

#[test]
fn docker_media_types_are_reported_as_declared() {
    let cfg = descriptor("application/x", "1", &format!("sha256:{}", HEX_A));
    let m = format!(
        r#"{{"schemaVersion": 2, "mediaType": "application/vnd.docker.distribution.manifest.v2+json", "config": {}, "layers": [{}]}}"#,
        cfg, cfg
    );
    assert_eq!(
        validate_manifest(m.as_bytes()).unwrap(),
        "application/vnd.docker.distribution.manifest.v2+json"
    );
    let m = format!(r#"{{"schemaVersion": 2, "manifests": [{}]}}"#, cfg);
    assert_eq!(
        validate_manifest(m.as_bytes()).unwrap(),
        "application/vnd.oci.image.index.v1+json"
    );
}

#[test]
fn digest_rules() {
    assert!(validate_digest(&format!("sha256:{}", HEX_A)).is_ok());
    assert!(validate_digest(&format!("sha512:{}", &HEX_A[..32])).is_ok());
    assert!(validate_digest(&format!("sha256:{}", &HEX_A[..31])).is_err());
    assert!(validate_digest(&format!("sha256:{}", HEX_A.to_uppercase())).is_err());
    assert!(validate_digest(&format!("sha256:{}\n", HEX_A)).is_err());
    assert!(validate_digest(&format!(":{}", HEX_A)).is_err());
}
