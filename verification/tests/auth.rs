use arsa_backend::auth::{
    authorize, build_session_cookie, callback_params, user_display_name, Claims, RealmAccess,
    SameSitePolicy, SESSION_REFRESH_WINDOW_SECONDS,
};
use arsa_backend::error::ArsaError;
use chrono::Utc;

#[test]
fn marks_expired_tokens_for_refresh() {
    let claims = Claims::new(
        "user".to_string(),
        None,
        None,
        (Utc::now().timestamp() - 60) as usize,
        None,
        None,
    );

    assert!(claims.needs_refresh(300));
}

#[test]
fn keeps_fresh_tokens_from_refresh() {
    let claims = Claims::new(
        "user".to_string(),
        None,
        None,
        (Utc::now().timestamp() + 3600) as usize,
        None,
        None,
    );

    assert!(!claims.needs_refresh(300));
}

fn with_roles(roles: &[&str]) -> Claims {
    Claims::new(
        "user".to_string(),
        Some("Alice".to_string()),
        Some(RealmAccess { roles: roles.iter().map(|r| r.to_string()).collect() }),
        1000,
        None,
        Some("old-token".to_string()),
    )
}

#[test]
fn refresh_window_at_a_fixed_time() {
    let c = with_roles(&[]);
    assert!(c.needs_refresh_at(700, 300));
    assert!(c.needs_refresh_at(701, 300));
    assert!(!c.needs_refresh_at(699, 300));
    assert!(c.needs_refresh_at(2000, 0));
    assert_eq!(SESSION_REFRESH_WINDOW_SECONDS, 300);
}

#[test]
fn roles_are_matched_exactly() {
    let c = with_roles(&["arsa-user", "admin"]);
    assert!(c.has_role("arsa-user"));
    assert!(c.has_role("admin"));
    assert!(!c.has_role("arsa"));
    assert!(!c.has_role(""));
    let none = Claims::new("u".to_string(), None, None, 0, None, None);
    assert!(!none.has_role("admin"));
    assert_eq!(c.get_user(), "user");
}

#[test]
fn refresh_keeps_identity_and_roles() {
    let c = with_roles(&["arsa-user"]);
    let r = c.refreshed(5000, Some(600), None);
    assert_eq!(r.expires_at(), 5600);
    assert_eq!(r.refresh_token(), Some("old-token".to_string()));
    assert!(r.has_role("arsa-user"));
    assert_eq!(r.get_user(), "user");
    let r2 = c.refreshed(5000, None, Some("new-token".to_string()));
    assert_eq!(r2.expires_at(), 1000);
    assert_eq!(r2.refresh_token(), Some("new-token".to_string()));
}

#[test]
fn session_cookie_attributes() {
    let k = build_session_cookie("abc-123");
    assert_eq!(k.name, "session");
    assert_eq!(k.value, "abc-123");
    assert_eq!(k.path, "/");
    assert!(k.http_only && k.secure);
    assert_eq!(k.same_site, SameSitePolicy::Unrestricted);
    assert_eq!(k.max_age_seconds, 86400);
}

#[test]
fn callback_needs_code_and_state() {
    assert_eq!(
        callback_params(Some("c".to_string()), Some("s".to_string())).unwrap(),
        ("c".to_string(), "s".to_string())
    );
    assert!(matches!(callback_params(None, Some("s".to_string())), Err(ArsaError::BadRequest)));
    assert!(matches!(callback_params(Some("c".to_string()), None), Err(ArsaError::BadRequest)));
}

#[test]
fn display_name_and_authorization() {
    assert_eq!(user_display_name(&Some("Bob".to_string())), "Bob");
    assert_eq!(user_display_name(&None), "User");
    let c = with_roles(&["arsa-user"]);
    assert!(authorize(&c, "arsa-user").is_ok());
    assert!(matches!(authorize(&c, "admin"), Err(ArsaError::Unauthorized)));
}
