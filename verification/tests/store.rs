use remora_interceptor::resolution::{InterceptAction, InterceptResolution};
use remora_interceptor::store::ResolutionStore;

#[test]
fn store_upsert_inserts_a_pending_entry_once() {
    let mut store = ResolutionStore::new();
    assert!(store.is_empty());
    assert!(!store.contains_key("K"));
    assert_eq!(store.get("K"), None);

    assert_eq!(store.upsert("K"), InterceptResolution::new());
    assert!(store.contains_key("K"));
    assert_eq!(store.get("K"), Some(InterceptResolution::new()));
    assert_eq!(store.len(), 1);

    let decided =
        InterceptResolution { action: InterceptAction::Abort, request_id: Some("H".to_string()) };
    store.record("K", decided.clone());
    assert_eq!(store.upsert("K"), decided);
    assert_eq!(store.get("K"), Some(decided));
    assert_eq!(store.len(), 1);
}

#[test]
fn store_keys_are_compared_exactly() {
    let mut store = ResolutionStore::new();
    store.upsert("key");
    assert!(!store.contains_key("Key"));
    assert!(!store.contains_key("key "));
    assert!(!store.contains_key(""));
    store.upsert("");
    assert!(store.contains_key(""));
    assert_eq!(store.len(), 2);
}

#[test]
fn store_remove_drops_only_the_key() {
    let mut store = ResolutionStore::new();
    store.upsert("A");
    store.upsert("B");
    store.remove("A");
    assert!(!store.contains_key("A"));
    assert!(store.contains_key("B"));
    store.remove("A");
    assert_eq!(store.len(), 1);
    store.remove("B");
    assert!(store.is_empty());
}
