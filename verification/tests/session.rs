use arsa_backend::audit::{page_index, resolve_actor, resolve_pagination, ActorUser, PaginationParams};
use arsa_backend::responses::ResultSize;
use arsa_backend::socket::socket_reply;

#[test]
fn websocket_ping() {
    assert_eq!(socket_reply("ping"), Some("pong".to_string()));
    assert_eq!(socket_reply("Ping"), None);
    assert_eq!(socket_reply(""), None);
}

#[test]
fn audit_paging() {
    assert_eq!(resolve_pagination(&PaginationParams { page: None, limit: None }), (1, 50));
    assert_eq!(resolve_pagination(&PaginationParams { page: Some(3), limit: Some(10) }), (3, 10));
    assert_eq!(page_index(1), 0);
    assert_eq!(page_index(3), 2);
}

#[test]
fn audit_actor() {
    let u = Some(ActorUser { id: "u1".to_string(), name: "Alice".to_string() });
    assert_eq!(resolve_actor(&u, &Some("x".to_string())), ("u1".to_string(), "Alice".to_string()));
    assert_eq!(resolve_actor(&None, &Some("x".to_string())), ("x".to_string(), "x".to_string()));
    assert_eq!(resolve_actor(&None, &None), (String::new(), String::new()));
}

#[test]
fn empty_size_answer() {
    let s = ResultSize::default();
    assert_eq!((s.addons_size, s.logs_size, s.profile_size), (0, 0, 0));
    assert!(s.mods.is_empty() && s.logs.is_empty());
}
