use grain::pattern::matches_pattern;
use grain::permissions::{has_permission, is_admin, Action};
use grain::state::{Permission, User};

fn perm(repository: &str, tag: &str, actions: &[&str]) -> Permission {
    Permission {
        repository: repository.to_string(),
        tag: tag.to_string(),
        actions: actions.iter().map(|a| a.to_string()).collect(),
    }
}

#[test]
fn test_pattern_matching() {
    assert!(matches_pattern("*", "anything"));
    assert!(matches_pattern("myorg/*", "myorg/myrepo"));
    assert!(matches_pattern("myorg/*", "myorg/another"));
    assert!(!matches_pattern("myorg/*", "other/repo"));
    assert!(matches_pattern("v*", "v1.0.0"));
    assert!(matches_pattern("*-prod", "app-prod"));
    assert!(matches_pattern("exact", "exact"));
    assert!(!matches_pattern("exact", "notexact"));
}

#[test]
fn test_has_permission() {
    let user = User {
        username: "alice".to_string(),
        password: "pass".to_string(),
        permissions: vec![
            Permission {
                repository: "myorg/myrepo".to_string(),
                tag: "latest".to_string(),
                actions: vec!["pull".to_string()],
            },
            Permission {
                repository: "myorg/myrepo".to_string(),
                tag: "dev".to_string(),
                actions: vec!["pull".to_string(), "push".to_string()],
            },
        ],
    };

    assert!(has_permission(&user, "myorg/myrepo", Some("latest"), Action::Pull));
    assert!(!has_permission(&user, "myorg/myrepo", Some("latest"), Action::Push));
    assert!(has_permission(&user, "myorg/myrepo", Some("dev"), Action::Push));
    assert!(!has_permission(&user, "other/repo", Some("latest"), Action::Pull));
}

#[test]
fn test_wildcard_permissions() {
    let admin = User {
        username: "admin".to_string(),
        password: "admin".to_string(),
        permissions: vec![Permission {
            repository: "*".to_string(),
            tag: "*".to_string(),
            actions: vec!["pull".to_string(), "push".to_string(), "delete".to_string()],
        }],
    };

    assert!(has_permission(&admin, "any/repo", Some("any-tag"), Action::Pull));
    assert!(has_permission(&admin, "any/repo", Some("any-tag"), Action::Push));
    assert!(has_permission(&admin, "any/repo", Some("any-tag"), Action::Delete));
}

#[test]
fn test_no_permissions_deny() {
    let user = User {
        username: "noperms".to_string(),
        password: "pass".to_string(),
        permissions: vec![],
    };

    assert!(!has_permission(&user, "any/repo", Some("tag"), Action::Pull));
    assert!(!has_permission(&user, "any/repo", Some("tag"), Action::Push));
}

#[test]
fn test_repository_wildcard() {
    let user = User {
        username: "dev".to_string(),
        password: "pass".to_string(),
        permissions: vec![Permission {
            repository: "myorg/*".to_string(),
            tag: "*".to_string(),
            actions: vec!["pull".to_string()],
        }],
    };

    assert!(has_permission(&user, "myorg/repo1", Some("latest"), Action::Pull));
    assert!(has_permission(&user, "myorg/repo2", Some("v1.0"), Action::Pull));
    assert!(!has_permission(&user, "other/repo", Some("latest"), Action::Pull));
}

#[test]
fn test_tag_wildcard() {
    let user = User {
        username: "dev".to_string(),
        password: "pass".to_string(),
        permissions: vec![Permission {
            repository: "myorg/myrepo".to_string(),
            tag: "v*".to_string(),
            actions: vec!["pull".to_string()],
        }],
    };

    assert!(has_permission(&user, "myorg/myrepo", Some("v1.0.0"), Action::Pull));
    assert!(has_permission(&user, "myorg/myrepo", Some("v2.0.0"), Action::Pull));
    assert!(!has_permission(&user, "myorg/myrepo", Some("latest"), Action::Pull));
}

#[test]
fn pattern_edge_cases() {
    assert!(matches_pattern("a*b", "ab"));
    assert!(matches_pattern("ab*ba", "aba"));
    assert!(!matches_pattern("a*b*", "axb"));
    assert!(matches_pattern("a*b*", "a*b*"));
    assert!(!matches_pattern("v?", "v1"));
    assert!(matches_pattern("", ""));
    assert!(!matches_pattern("", "x"));
}

#[test]
fn tag_scoped_pull_permission() {
    let user = User {
        username: "scoped".to_string(),
        password: "pw".to_string(),
        permissions: vec![perm("myorg/myrepo", "v*", &["pull"])],
    };
    assert!(has_permission(&user, "myorg/myrepo", Some("v1.0"), Action::Pull));
    assert!(!has_permission(&user, "myorg/myrepo", Some("latest"), Action::Pull));
    assert!(has_permission(&user, "myorg/myrepo", None, Action::Pull));
}

#[test]
fn admin_capability_needs_wildcard_delete() {
    let admin = User {
        username: "admin".to_string(),
        password: "admin".to_string(),
        permissions: vec![perm("*", "*", &["pull", "push", "delete"])],
    };
    let writer = User {
        username: "writer".to_string(),
        password: "w".to_string(),
        permissions: vec![perm("*", "*", &["pull", "push"])],
    };
    assert!(is_admin(&admin));
    assert!(!is_admin(&writer));
    assert_eq!(Action::Delete.as_str(), "delete");
    assert_eq!(Action::Pull.as_str(), "pull");
    assert_eq!(Action::Push.as_str(), "push");
}
