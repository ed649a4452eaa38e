use shift::protocol::{SessionInfo, SessionLifecycle, SessionRole};
use shift::registry::SessionRegistry;

fn registry() -> SessionRegistry {
    let mut r = SessionRegistry::new();
    r.insert_pending("ses_S".to_string(), "tok_A".to_string(), SessionRole::Admin, Some("admin".to_string()));
    r
}

#[test]
fn insert_pending_files_session_and_token() {
    let r = registry();
    assert!(r.contains("ses_S"));
    assert!(!r.contains("tok_A"));
    let s = r.get("ses_S").unwrap();
    assert_eq!(s.id(), "ses_S");
    assert_eq!(s.token(), "tok_A");
    assert_eq!(s.role(), SessionRole::Admin);
    assert_eq!(s.state(), SessionLifecycle::Pending);
    assert_eq!(s.display_name(), Some("admin"));
    assert!(r.get("ses_T").is_none());
}

#[test]
fn token_authenticates_once() {
    let mut r = registry();
    assert_eq!(r.authenticate_with_token("tok_B"), None);
    assert_eq!(r.authenticate_with_token("tok_A"), Some("ses_S".to_string()));
    assert_eq!(r.get("ses_S").unwrap().state(), SessionLifecycle::Loading);
    assert_eq!(r.authenticate_with_token("tok_A"), None);
    assert_eq!(r.get("ses_S").unwrap().state(), SessionLifecycle::Loading);
}

#[test]
fn token_of_session_that_is_not_pending_is_used_up() {
    let mut r = registry();
    r.set_state("ses_S", SessionLifecycle::Occupied);
    assert_eq!(r.authenticate_with_token("tok_A"), None);
    assert_eq!(r.get("ses_S").unwrap().state(), SessionLifecycle::Occupied);
    r.set_state("ses_S", SessionLifecycle::Pending);
    assert_eq!(r.authenticate_with_token("tok_A"), None);
}

#[test]
fn session_info_and_states() {
    let mut r = registry();
    assert_eq!(
        r.session_info("ses_S"),
        Some(SessionInfo {
            id: "ses_S".to_string(),
            role: SessionRole::Admin,
            display_name: Some("admin".to_string()),
            state: SessionLifecycle::Pending,
        })
    );
    assert_eq!(r.session_info("ses_T"), None);
    assert_eq!(r.set_state("ses_T", SessionLifecycle::Occupied), None);
    assert_eq!(r.set_state("ses_S", SessionLifecycle::Occupied).map(|i| i.state), Some(SessionLifecycle::Occupied));
    assert_eq!(r.mark_consumed("ses_S").map(|i| i.state), Some(SessionLifecycle::Consumed));
    assert_eq!(r.get("ses_S").unwrap().state(), SessionLifecycle::Consumed);
    assert_eq!(r.mark_consumed("ses_T"), None);
}

#[test]
fn iter_lists_sessions_in_filing_order() {
    let mut r = registry();
    r.insert_pending("ses_T".to_string(), "tok_B".to_string(), SessionRole::Session, None);
    r.insert_pending("ses_S".to_string(), "tok_C".to_string(), SessionRole::Session, None);
    let ids: Vec<String> = r.iter().iter().map(|s| s.id().to_string()).collect();
    assert_eq!(ids, vec!["ses_S".to_string(), "ses_T".to_string()]);
    // Filing a session again replaces it.
    assert_eq!(r.get("ses_S").unwrap().token(), "tok_C");
    assert_eq!(r.get("ses_S").unwrap().role(), SessionRole::Session);
    assert!(SessionRegistry::new().iter().is_empty());
}

#[test]
fn create_pending_mints_identity_and_token() {
    let mut r = SessionRegistry::new();
    let (info, id, token) = r.create_pending(SessionRole::Session, Some("guest".to_string()));
    assert!(id.starts_with("ses_"));
    assert!(token.starts_with("tok_"));
    assert_eq!(id.len(), 48);
    assert_eq!(info.id, id);
    assert_eq!(info.role, SessionRole::Session);
    assert_eq!(info.display_name.as_deref(), Some("guest"));
    assert_eq!(info.state, SessionLifecycle::Pending);
    assert!(r.contains(&id));
    assert_eq!(r.authenticate_with_token(&token), Some(id));
}
