use behaviour_registry::kind::{BehaviourKind, HTTP, JSONRPC};
use behaviour_registry::kind::same_text;
use behaviour_registry::registry::KindRegistry;
use std::sync::Arc;

#[test]
fn remove_of_never_inserted_id_is_noop() {
    let mut r: KindRegistry<u32> = KindRegistry::new();
    r.insert(1, Arc::new(10));
    assert!(!r.contains(2));
    assert!(!r.remove(2));
    assert!(!r.contains(2));
    assert_eq!(r.len(), 1);
    assert!(r.contains(1));
}

#[test]
fn remove_on_empty_registry_is_noop() {
    let mut r: KindRegistry<u32> = KindRegistry::new();
    assert!(!r.remove(0));
    assert_eq!(r.len(), 0);
    assert!(r.get(0).is_none());
}

#[test]
fn second_insert_replaces_first() {
    let mut r: KindRegistry<&str> = KindRegistry::new();
    r.insert(5, Arc::new("x"));
    r.insert(5, Arc::new("y"));
    assert_eq!(r.len(), 1);
    assert_eq!(**r.get(5).unwrap(), "y");
}

#[test]
fn insert_keeps_other_entries() {
    let mut r: KindRegistry<u32> = KindRegistry::new();
    r.insert(u128::MAX, Arc::new(1));
    r.insert(0, Arc::new(2));
    assert_eq!(r.len(), 2);
    assert_eq!(**r.get(u128::MAX).unwrap(), 1);
    assert_eq!(**r.get(0).unwrap(), 2);
}

#[test]
fn store_keeps_success_only() {
    let mut r: KindRegistry<u32> = KindRegistry::new();
    assert!(!r.store(1, None));
    assert!(!r.contains(1));
    assert!(r.store(1, Some(4)));
    assert_eq!(**r.get(1).unwrap(), 4);
    assert!(r.store(1, Some(5)));
    assert_eq!(**r.get(1).unwrap(), 5);
    assert_eq!(r.len(), 1);
}

#[test]
fn remove_reports_and_drops_entry() {
    let mut r: KindRegistry<u32> = KindRegistry::new();
    r.insert(3, Arc::new(30));
    assert!(r.remove(3));
    assert!(!r.contains(3));
    assert!(!r.remove(3));
}

#[test]
fn tags_select_kinds() {
    assert_eq!(BehaviourKind::of_tag("http"), Some(BehaviourKind::Http));
    assert_eq!(BehaviourKind::of_tag("jsonrpc"), Some(BehaviourKind::JsonRpc));
    assert_eq!(BehaviourKind::of_tag("unknown"), None);
    assert_eq!(BehaviourKind::of_tag(""), None);
    assert_eq!(BehaviourKind::of_tag("https"), None);
    assert_eq!(BehaviourKind::of_tag("htt"), None);
}

#[test]
fn kind_tags_are_the_constants() {
    assert_eq!(BehaviourKind::Http.tag(), HTTP);
    assert_eq!(BehaviourKind::JsonRpc.tag(), JSONRPC);
    assert_eq!(HTTP, "http");
    assert_eq!(JSONRPC, "jsonrpc");
}

#[test]
fn same_text_compares_characters() {
    assert!(same_text("", ""));
    assert!(same_text("héllo", "héllo"));
    assert!(!same_text("hello", "hellO"));
    assert!(!same_text("ab", "abc"));
}
