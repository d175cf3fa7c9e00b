//! Behavior of the session registry and the session-id scheme.

use std::collections::HashSet;

use session_server::registry::Registry;
use session_server::session_common::{
    new_session_id, session_status_to_string, tag_message, SessionResponseMessage,
    SessionResponseStatus,
};

#[test]
fn insert_lookup_remove() {
    let mut r: Registry<u32> = Registry::new();
    assert_eq!(r.len(), 0);
    r.insert(String::from("open1"), 10);
    r.insert(String::from("open2"), 20);
    assert_eq!(r.len(), 2);
    assert!(r.contains("open1"));
    assert_eq!(r.get("open1"), Some(&10));
    assert_eq!(r.get("open2"), Some(&20));
    assert_eq!(r.get("open3"), None);
    r.remove("open1");
    assert_eq!(r.len(), 1);
    assert_eq!(r.get("open1"), None);
    assert_eq!(r.list(), vec![String::from("open2")]);
}

#[test]
fn reinserting_an_id_replaces_its_handle() {
    let mut r: Registry<u32> = Registry::new();
    r.insert(String::from("id"), 1);
    r.insert(String::from("id"), 2);
    assert_eq!(r.len(), 1);
    assert_eq!(r.get("id"), Some(&2));
    assert_eq!(r.list(), vec![String::from("id")]);
}

#[test]
fn exited_session_becomes_unaddressable() {
    let mut r: Registry<u32> = Registry::new();
    r.insert(String::from("sid"), 7);
    // An Ok reply leaves the session addressable.
    r.remove_on_exit("sid", &SessionResponseStatus::SessionOk);
    assert!(r.contains("sid"));
    // A terminal reply drops it: the next lookup fails ("session not found").
    r.remove_on_exit("sid", &SessionResponseStatus::SessionExit);
    assert!(!r.contains("sid"));
    assert_eq!(r.get("sid"), None);
}

#[test]
fn shutdown_fanout_empties_the_registry() {
    let mut r: Registry<u32> = Registry::new();
    for i in 0..8u32 {
        r.insert(format!("s{}", i), i);
    }
    // Stop reaches every listed session; each removes itself on its
    // terminal reply.
    for id in r.list() {
        r.remove_on_exit(&id, &SessionResponseStatus::SessionExit);
    }
    assert_eq!(r.len(), 0);
    assert!(r.list().is_empty());
    for i in 0..8u32 {
        assert!(!r.contains(&format!("s{}", i)));
    }
}

#[test]
fn session_ids_are_unique_and_prefixed() {
    let mut seen: HashSet<String> = HashSet::new();
    for _ in 0..10_000 {
        let id = new_session_id(false);
        assert!(id.starts_with("open"));
        assert_eq!(id.len(), 36);
        assert!(id[4..].chars().all(|c| c.is_ascii_hexdigit() && !c.is_ascii_uppercase()));
        assert!(seen.insert(id));
    }
    for _ in 0..10_000 {
        let id = new_session_id(true);
        assert!(id.starts_with("enc"));
        assert_eq!(id.len(), 35);
        assert!(id[3..].chars().all(|c| c.is_ascii_hexdigit() && !c.is_ascii_uppercase()));
        assert!(seen.insert(id));
    }
}

#[test]
fn status_names_and_message_tagging() {
    assert_eq!(
        session_status_to_string(&SessionResponseStatus::SessionOk),
        "SessionOk"
    );
    assert_eq!(
        session_status_to_string(&SessionResponseStatus::SessionExit),
        "SessionExit"
    );
    assert_eq!(tag_message("abc", "hello"), "[abc] hello");
}

#[test]
fn default_reply_is_an_unset_failure() {
    let m = SessionResponseMessage::default();
    assert!(!m.status);
    assert_eq!(m.status_message, "");
    assert_eq!(m.value_bits, 0);
    assert_eq!(f64::from_bits(m.value_bits), 0.0);
}
