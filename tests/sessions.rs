use owb_core::session::{SessionManager, SessionState};

#[test]
fn sessions_are_created_updated_and_removed() {
    let mut m = SessionManager::new();
    assert_eq!(m.get_session("a"), None);
    m.create_session("a".to_string(), 10);
    m.create_session("b".to_string(), 20);
    assert_eq!(m.get_session("a"), Some(SessionState { last_seen: 10 }));
    assert!(m.update_session("a", 30));
    assert_eq!(m.get_session("a"), Some(SessionState { last_seen: 30 }));
    assert!(!m.update_session("zz", 30));
    assert_eq!(m.get_session("zz"), None);
    assert!(m.remove_session("b"));
    assert!(!m.remove_session("b"));
    assert_eq!(m.get_session("b"), None);
    assert_eq!(m.list_sessions(), vec!["a".to_string()]);
}

#[test]
fn create_replaces_an_existing_session() {
    let mut m = SessionManager::new();
    m.create_session("s".to_string(), 5);
    m.create_session("s".to_string(), 2);
    assert_eq!(m.get_session("s"), Some(SessionState { last_seen: 2 }));
    assert_eq!(m.list_sessions().len(), 1);
}

#[test]
fn purge_keeps_sessions_seen_at_or_after_threshold() {
    let mut m = SessionManager::new();
    m.create_session("old".to_string(), 5);
    m.create_session("edge".to_string(), 10);
    m.create_session("new".to_string(), 15);
    m.purge_stale_sessions(10);
    let mut ids = m.list_sessions();
    ids.sort();
    assert_eq!(ids, vec!["edge".to_string(), "new".to_string()]);
    assert_eq!(m.get_session("old"), None);
}

#[test]
fn freshness_is_inclusive() {
    let s = SessionState { last_seen: 10 };
    assert!(s.is_fresh(10));
    assert!(s.is_fresh(9));
    assert!(!s.is_fresh(11));
}
