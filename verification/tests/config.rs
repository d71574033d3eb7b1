use arsa_backend::config::{parse_bool, AppConfig, EnvValues};

fn empty() -> EnvValues {
    EnvValues {
        allowed_origins: None,
        access_role: None,
        admin_role: None,
        bind_address: None,
        oidc_issuer: None,
        oidc_client_id: None,
        oidc_client_secret: None,
        oidc_callback_uri: None,
        oidc_frontend_uri: None,
        use_volume: None,
        server_volume: None,
        repo_volume: None,
    }
}

#[test]
fn defaults_when_nothing_is_set() {
    let c = AppConfig::from_values(empty());
    assert!(c.allowed_origins.is_empty());
    assert_eq!(c.access_role, "");
    assert_eq!(c.admin_role, "");
    assert_eq!(c.bind_address, "0.0.0.0:3000");
    assert_eq!(c.oidc_callback_uri, "http://localhost:3000/callback");
    assert_eq!(c.oidc_frontend_uri, "http://localhost:5173/callback");
    assert!(!c.use_volume);
    assert_eq!(c.server_volume, "arsa-servers-volume");
    assert_eq!(c.repo_volume, "arsa-repo-volume");
}

#[test]
fn values_that_are_set() {
    let mut v = empty();
    v.allowed_origins = Some("http://a;http://b".to_string());
    v.access_role = Some("arsa".to_string());
    v.use_volume = Some("true".to_string());
    v.bind_address = Some("127.0.0.1:8080".to_string());
    let c = AppConfig::from_values(v);
    assert_eq!(c.allowed_origins, vec!["http://a", "http://b"]);
    assert_eq!(c.access_role, "arsa");
    assert!(c.use_volume);
    assert_eq!(c.bind_address, "127.0.0.1:8080");
}

#[test]
fn use_volume_reads_anything_unknown_as_true() {
    let mut v = empty();
    v.use_volume = Some("yes".to_string());
    assert!(AppConfig::from_values(v).use_volume);
    let mut v = empty();
    v.use_volume = Some("false".to_string());
    assert!(!AppConfig::from_values(v).use_volume);
}

#[test]
fn booleans() {
    assert_eq!(parse_bool("true"), Some(true));
    assert_eq!(parse_bool("false"), Some(false));
    assert_eq!(parse_bool("True"), None);
    assert_eq!(parse_bool(""), None);
}
