use grain::admin::{check_admin, default_grace_period, AdminAccess, GcQuery};
use grain::auth::{check_permission, credentials_from_text, parse_basic_credentials, AccessDecision};
use grain::blobs::{
    blob_location, finalize_check, monolithic_upload_accepted, plan_after_mount,
    plan_post_upload, upload_location, FinalizeError, PostUploadParams, PostUploadStep,
};
use grain::digest::{content_digest, strip_algo_prefix, wire_digest};
use grain::errors::{blob_unknown, digest_invalid, manifest_unknown, ErrorCode, OciErrorResponse};
use grain::gc::{extract_blob_references, is_past_grace, run_gc, BlobEntry, GcStats};
use grain::manifests::{accept_manifest, detect_manifest_content_type, manifest_lookup_key};
use grain::middleware::normalize_endpoint;
use grain::permissions::Action;
use grain::state::{Permission, User};
use grain::storage::{blob_path_string, manifest_path_string, sanitize_string, upload_path_string};
use grain::tags::{paginate_tags, str_le, tags_from_entries};
use grain::users::{AdminError, UserStore};
use grain::utils::get_build_info;

const BLOB: &[u8] = b"This is a test blob content";

fn user(name: &str, password: &str, perms: Vec<Permission>) -> User {
    User { username: name.to_string(), password: password.to_string(), permissions: perms }
}

fn perm(repository: &str, tag: &str, actions: &[&str]) -> Permission {
    Permission {
        repository: repository.to_string(),
        tag: tag.to_string(),
        actions: actions.iter().map(|a| a.to_string()).collect(),
    }
}

fn admin() -> User {
    user("admin", "admin", vec![perm("*", "*", &["pull", "push", "delete"])])
}

fn strings(v: &[&str]) -> Vec<String> {
    v.iter().map(|s| s.to_string()).collect()
}

fn sample_manifest(config_hex: &str) -> String {
    format!(
        r#"{{"schemaVersion": 2, "mediaType": "application/vnd.oci.image.manifest.v1+json", "config": {{"mediaType": "application/vnd.oci.image.config.v1+json", "size": 27, "digest": "sha256:{}"}}, "layers": [{{"mediaType": "application/vnd.oci.image.layer.v1.tar+gzip", "size": 27, "digest": "sha256:{}"}}]}}"#,
        config_hex, config_hex
    )
}

#[test]
fn test_extract_blob_references() {
    let manifest = r#"{
        "config": {
            "digest": "sha256:abc123"
        },
        "layers": [
            {"digest": "sha256:layer1"},
            {"digest": "sha256:layer2"}
        ]
    }"#;

    let mut referenced: Vec<String> = Vec::new();
    extract_blob_references(manifest, &mut referenced);

    assert_eq!(referenced.len(), 3);
    assert!(referenced.contains(&"abc123".to_string()));
    assert!(referenced.contains(&"layer1".to_string()));
    assert!(referenced.contains(&"layer2".to_string()));
}

#[test]
fn test_extract_image_index_references() {
    let manifest = r#"{
        "manifests": [
            {"digest": "sha256:manifest1"},
            {"digest": "sha256:manifest2"}
        ]
    }"#;

    let mut referenced: Vec<String> = Vec::new();
    extract_blob_references(manifest, &mut referenced);

    assert_eq!(referenced.len(), 2);
    assert!(referenced.contains(&"manifest1".to_string()));
    assert!(referenced.contains(&"manifest2".to_string()));
}

#[test]
fn test_normalize_endpoint() {
    assert_eq!(
        normalize_endpoint("/v2/myorg/myrepo/blobs/sha256:abc123"),
        "/v2/{name}/blobs/{digest}"
    );
    assert_eq!(
        normalize_endpoint("/v2/myorg/myrepo/manifests/latest"),
        "/v2/{name}/manifests/{reference}"
    );
    assert_eq!(
        normalize_endpoint("/v2/myorg/myrepo/tags/list"),
        "/v2/{name}/tags/list"
    );
    assert_eq!(normalize_endpoint("/health"), "/health");
    assert_eq!(normalize_endpoint("/metrics"), "/metrics");
}

#[test]
fn normalize_uploads_and_admin_paths() {
    assert_eq!(normalize_endpoint("/v2/"), "/v2/");
    assert_eq!(
        normalize_endpoint("/v2/o/r/blobs/uploads/1234"),
        "/v2/{name}/blobs/uploads/{reference}"
    );
    assert_eq!(normalize_endpoint("/admin/users/bob"), "/admin/users/{username}");
    assert_eq!(
        normalize_endpoint("/admin/users/bob/permissions"),
        "/admin/users/{username}/permissions"
    );
    assert_eq!(normalize_endpoint("/admin/users"), "/admin/users");
    assert_eq!(normalize_endpoint("/admin/gc"), "/admin/gc");
}

#[test]
fn digest_of_known_input() {
    assert_eq!(
        content_digest(b"hello"),
        "2cf24dba5fb0a30e26e83b2ac5b9e29e1b161e5c1fa7425e73043362938b9824"
    );
    assert_eq!(strip_algo_prefix("sha256:abc"), "abc");
    assert_eq!(strip_algo_prefix("abc"), "abc");
    assert_eq!(wire_digest("abc"), "sha256:abc");
}

#[test]
fn monolithic_push_digest_check() {
    let d = sha256::digest(BLOB);
    assert_eq!(BLOB.len(), 27);
    assert_eq!(content_digest(BLOB), d);
    assert!(monolithic_upload_accepted(BLOB, &format!("sha256:{}", d)));
    assert!(monolithic_upload_accepted(BLOB, &d));
    assert_eq!(
        blob_path_string("test", "repo", &format!("sha256:{}", d)),
        format!("./tmp/blobs/test/repo/{}", d)
    );
    assert_eq!(
        blob_location("localhost:8888", "test", "repo", &d),
        format!("http://localhost:8888/v2/test/repo/blobs/sha256:{}", d)
    );
}

#[test]
fn wrong_digest_is_digest_invalid() {
    let zeros = format!("sha256:{}", "0".repeat(64));
    assert!(!monolithic_upload_accepted(BLOB, &zeros));
    let env = digest_invalid(&zeros);
    assert_eq!(env.status_code(), 400);
    assert_eq!(env.errors[0].code.as_str(), "DIGEST_INVALID");
}

#[test]
fn chunked_upload_finalizes_on_concatenation_digest() {
    let chunks: [&[u8]; 3] = [b"This is ", b"a test blob", b" content"];
    let whole: Vec<u8> = chunks.concat();
    assert_eq!(whole, BLOB);
    let d = sha256::digest(&whole[..]);
    assert_eq!(finalize_check(&whole, &format!("sha256:{}", d)), Ok(d.clone()));
    assert_eq!(
        finalize_check(&whole, &format!("sha256:{}", "0".repeat(64))),
        Err(FinalizeError::DigestMismatch)
    );
    assert_eq!(
        finalize_check(chunks[0], &format!("sha256:{}", d)),
        Err(FinalizeError::DigestMismatch)
    );
}

#[test]
fn sanitize_replaces_unsafe_characters() {
    assert_eq!(sanitize_string("../../etc/passwd"), "../../etc/passwd");
    assert_eq!(sanitize_string("a b:c?d"), "a_b_c_d");
    assert_eq!(sanitize_string("sha256:ab"), "sha256_ab");
    assert_eq!(sanitize_string("é"), "_");
    assert_eq!(upload_path_string("o", "r", "u-1"), "./tmp/uploads/o/r/u-1");
    assert_eq!(manifest_path_string("o", "r", "v1.0"), "./tmp/manifests/o/r/v1.0");
}

#[test]
fn tag_list_pagination() {
    let d = sha256::digest(BLOB);
    let mut entries: Vec<String> = (1..=10).map(|i| format!("v{}", i)).collect();
    entries.push(d);
    let tags = tags_from_entries(&entries);
    assert_eq!(tags.len(), 10);
    let page = paginate_tags(tags, Some(5), None);
    assert_eq!(page, strings(&["v1", "v10", "v2", "v3", "v4"]));
}

#[test]
fn tag_list_cursor_and_limit() {
    let tags = strings(&["a", "b", "c", "d"]);
    assert_eq!(paginate_tags(tags.clone(), None, Some("b".to_string())), strings(&["c", "d"]));
    assert_eq!(paginate_tags(tags.clone(), Some(1), Some("a".to_string())), strings(&["b"]));
    assert_eq!(paginate_tags(tags.clone(), Some(0), None), Vec::<String>::new());
    assert_eq!(paginate_tags(tags.clone(), Some(9), None), tags);
    assert_eq!(paginate_tags(tags, None, Some("z".to_string())), Vec::<String>::new());
    assert!(tags_from_entries(&Vec::new()).is_empty());
    assert_eq!(
        tags_from_entries(&strings(&["latest", "sha256:x", "1.0", "Zeta"])),
        strings(&["1.0", "Zeta", "latest"])
    );
    assert!(str_le("v1", "v10"));
    assert!(!str_le("v2", "v10"));
}

#[test]
fn cross_repo_mount_plan() {
    let d = sha256::digest(BLOB);
    let params = PostUploadParams {
        digest: None,
        mount: Some(format!("sha256:{}", d)),
        from: Some("test/repo".to_string()),
    };
    match plan_post_upload(&admin(), &params) {
        PostUploadStep::Mount { source_org, source_repo, digest } => {
            assert_eq!(source_org, "test");
            assert_eq!(source_repo, "repo");
            assert_eq!(digest, d);
        }
        other => panic!("unexpected step {:?}", other),
    }
    assert_eq!(
        blob_location("h", "target", "repo", &d),
        format!("http://h/v2/target/repo/blobs/sha256:{}", d)
    );
}

#[test]
fn failed_or_refused_mount_starts_session() {
    let params = PostUploadParams {
        digest: None,
        mount: Some(format!("sha256:{}", "0".repeat(64))),
        from: Some("test/repo".to_string()),
    };
    assert!(matches!(plan_after_mount(&params), PostUploadStep::StartSession));
    let pusher = user("w", "w", vec![perm("target/*", "*", &["push"])]);
    assert!(matches!(plan_post_upload(&pusher, &params), PostUploadStep::StartSession));
    let bad_from = PostUploadParams {
        digest: Some("sha256:abc".to_string()),
        mount: Some("sha256:abc".to_string()),
        from: Some("no-slash".to_string()),
    };
    match plan_post_upload(&admin(), &bad_from) {
        PostUploadStep::Monolithic { digest } => assert_eq!(digest, "sha256:abc"),
        other => panic!("unexpected step {:?}", other),
    }
    assert_eq!(
        upload_location("h", "o", "r", "u"),
        "http://h/v2/o/r/blobs/uploads/u"
    );
}

#[test]
fn manifest_put_dual_indexing_and_repeat() {
    let d = sha256::digest(BLOB);
    let body = sample_manifest(&d);
    let first = accept_manifest(body.as_bytes(), "latest").unwrap();
    let second = accept_manifest(body.as_bytes(), "latest").unwrap();
    let hex = sha256::digest(body.as_bytes());
    assert_eq!(first.digest, hex);
    assert_eq!(second.digest, first.digest);
    assert_eq!(first.keys, vec!["latest".to_string(), hex.clone()]);
    assert_eq!(first.media_type, "application/vnd.oci.image.manifest.v1+json");
    assert_eq!(manifest_lookup_key("latest"), "latest");
    assert_eq!(manifest_lookup_key(&format!("sha256:{}", hex)), hex);
    let by_digest = accept_manifest(body.as_bytes(), &format!("sha256:{}", hex)).unwrap();
    assert_eq!(by_digest.keys.len(), 1);
    assert!(accept_manifest(br#"{"schemaVersion": 1}"#, "latest").is_err());
}

#[test]
fn manifest_content_type() {
    let body = sample_manifest(&"a".repeat(64));
    assert_eq!(
        detect_manifest_content_type(body.as_bytes()),
        "application/vnd.oci.image.manifest.v1+json"
    );
    assert_eq!(
        detect_manifest_content_type(br#"{"mediaType": "application/vnd.oci.image.index.v1+json"}"#),
        "application/vnd.oci.image.index.v1+json"
    );
    assert_eq!(
        detect_manifest_content_type(b"\xff\xfe"),
        "application/vnd.oci.image.manifest.v1+json"
    );
}

#[test]
fn missing_blob_and_manifest_are_404() {
    let b = blob_unknown("abc");
    assert_eq!(b.status_code(), 404);
    assert_eq!(b.errors[0].code.as_str(), "BLOB_UNKNOWN");
    assert_eq!(b.errors[0].detail.as_deref(), Some("digest: sha256:abc"));
    let m = manifest_unknown("latest");
    assert_eq!(m.status_code(), 404);
    assert_eq!(m.errors[0].code.as_str(), "MANIFEST_UNKNOWN");
}

#[test]
fn error_status_projection() {
    assert_eq!(OciErrorResponse::new(ErrorCode::Unauthorized, "x").status_code(), 401);
    assert_eq!(OciErrorResponse::new(ErrorCode::Denied, "x").status_code(), 403);
    assert_eq!(OciErrorResponse::new(ErrorCode::NameUnknown, "x").status_code(), 404);
    assert_eq!(OciErrorResponse::new(ErrorCode::TagInvalid, "x").status_code(), 400);
    assert_eq!(OciErrorResponse::new(ErrorCode::ManifestUnverified, "x").status_code(), 400);
    assert_eq!(OciErrorResponse::new(ErrorCode::Unsupported, "x").status_code(), 405);
    assert_eq!(OciErrorResponse { errors: vec![] }.status_code(), 500);
    let e = OciErrorResponse::with_detail(ErrorCode::SizeInvalid, "m", "d");
    assert_eq!(e.errors[0].detail.as_deref(), Some("d"));
}

#[test]
fn gc_deletes_only_unreferenced_blobs() {
    let d = sha256::digest(BLOB);
    let orphan = sha256::digest(b"orphaned blob content");
    let manifests = vec![sample_manifest(&d).into_bytes(), b"not json".to_vec()];
    let entry = |org: &str, digest: &str, size: u64| BlobEntry {
        org: org.to_string(),
        repo: "repo".to_string(),
        digest: digest.to_string(),
        size,
        modified_secs: Some(1000),
    };
    let blobs = vec![entry("test", &d, 27), entry("test", &orphan, 21), entry("other", &orphan, 21)];
    let plan = run_gc(&manifests, &blobs, 1000, false, 0);
    assert_eq!(plan.stats.blobs_scanned, 3);
    assert_eq!(plan.stats.manifests_scanned, 2);
    assert_eq!(plan.stats.blobs_referenced, 1);
    assert_eq!(plan.stats.blobs_unreferenced, 2);
    assert_eq!(plan.to_delete.len(), 2);
    assert!(plan.to_delete.iter().all(|b| b.digest == orphan));
    let dry = run_gc(&manifests, &blobs, 1000, true, 0);
    assert!(dry.to_delete.is_empty());
    assert_eq!(dry.stats.blobs_unreferenced, 2);
    let young = run_gc(&manifests, &blobs, 1000, false, 24);
    assert!(young.to_delete.is_empty());
    let mut stats: GcStats = plan.stats;
    stats.record_deletion(21);
    stats.record_deletion(21);
    assert_eq!(stats.blobs_deleted, 2);
    assert_eq!(stats.bytes_freed, 42);
}

#[test]
fn grace_period_rule() {
    assert!(is_past_grace(7200, 0, 2));
    assert!(!is_past_grace(7199, 0, 2));
    assert!(is_past_grace(0, 10, 0));
    assert!(!is_past_grace(u64::MAX, 0, u64::MAX));
    assert_eq!(default_grace_period(), 24);
    let q = GcQuery::defaults();
    assert!(!q.dry_run);
    assert_eq!(q.grace_period_hours, 24);
}

#[test]
fn basic_credentials() {
    assert_eq!(
        parse_basic_credentials("Basic YWRtaW46YWRtaW4="),
        Some(("admin".to_string(), "admin".to_string()))
    );
    assert_eq!(parse_basic_credentials("Basic invalid-base64!!!!"), None);
    assert_eq!(parse_basic_credentials("Basic YTpiOmM="), None);
    assert_eq!(parse_basic_credentials("Basic //79"), None);
    assert_eq!(
        credentials_from_text("u:"),
        Some(("u".to_string(), "".to_string()))
    );
    assert_eq!(credentials_from_text("nocolon"), None);
}

#[test]
fn unauthorized_versus_forbidden() {
    let store = UserStore::new(vec![
        admin(),
        user("limited", "pw", vec![perm("myorg/myrepo", "*", &["pull"])]),
    ]);
    let none = check_permission(&store, None, "other/repo", None, Action::Push);
    assert_eq!(none.status_code(), 401);
    let wrong = check_permission(
        &store,
        Some(("admin".to_string(), "wrong".to_string())),
        "other/repo",
        None,
        Action::Push,
    );
    assert!(matches!(wrong, AccessDecision::Unauthorized));
    let denied = check_permission(
        &store,
        Some(("limited".to_string(), "pw".to_string())),
        "other/repo",
        None,
        Action::Push,
    );
    assert_eq!(denied.status_code(), 403);
    let ok = check_permission(
        &store,
        Some(("limited".to_string(), "pw".to_string())),
        "myorg/myrepo",
        Some("v1"),
        Action::Pull,
    );
    assert!(matches!(ok, AccessDecision::Allowed(ref u) if u.username == "limited"));
    assert!(matches!(
        check_admin(&store, Some(("limited".to_string(), "pw".to_string()))),
        AdminAccess::Forbidden
    ));
    assert!(matches!(
        check_admin(&store, Some(("admin".to_string(), "admin".to_string()))),
        AdminAccess::Granted(_)
    ));
    assert!(matches!(check_admin(&store, None), AdminAccess::Unauthorized));
}

#[test]
fn user_store_mutations() {
    let mut store = UserStore::new(vec![admin()]);
    assert_eq!(store.create_user(user("bob", "b", vec![])), Ok(()));
    assert_eq!(
        store.create_user(user("bob", "other", vec![])),
        Err(AdminError::Conflict)
    );
    assert_eq!(AdminError::Conflict.status_code(), 409);
    assert_eq!(store.users.len(), 2);
    assert_eq!(store.delete_user("admin", "admin"), Err(AdminError::SelfDelete));
    assert_eq!(AdminError::SelfDelete.status_code(), 400);
    assert_eq!(store.delete_user("admin", "ghost"), Err(AdminError::NotFound));
    assert_eq!(AdminError::NotFound.status_code(), 404);
    assert_eq!(
        store.add_permission("bob", perm("myorg/*", "v*", &["pull"])),
        Ok(())
    );
    assert_eq!(store.users[1].permissions.len(), 1);
    assert_eq!(
        store.add_permission("ghost", perm("*", "*", &["pull"])),
        Err(AdminError::NotFound)
    );
    assert!(store.authenticate("bob", "b").is_some());
    assert!(store.authenticate("bob", "x").is_none());
    assert_eq!(store.delete_user("admin", "bob"), Ok(()));
    assert_eq!(store.users.len(), 1);
    assert!(store.authenticate("bob", "b").is_none());
    assert!(UserStore::empty().users.is_empty());
}

#[test]
fn build_version_shortening() {
    assert_eq!(get_build_info(None), "test");
    assert_eq!(get_build_info(Some("1.2.3-abcdef0123456789")), "1.2.3-abcdef0");
    assert_eq!(get_build_info(Some("abcdef0123-abcdef0123")), "abcdef0-abcdef0");
    assert_eq!(get_build_info(Some("v1")), "v1");
    assert_eq!(get_build_info(Some("x-")), "x-");
    assert_eq!(get_build_info(Some("0.1-short")), "0.1-short");
}
