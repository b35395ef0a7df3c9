use ex_server::store::KvStore;
use ex_server::strutil::str_eq;

#[test]
fn kv_store_insert_get_remove() {
    let mut store: KvStore<i64> = KvStore::new();
    assert!(!store.contains("a"));
    store.insert("a".to_string(), 1);
    store.insert("b".to_string(), 2);
    assert!(store.contains("a"));
    assert_eq!(store.get("a"), Some(&1));
    assert_eq!(store.get("b"), Some(&2));
    assert_eq!(store.get("c"), None);
    assert_eq!(store.len(), 2);
    assert!(store.remove("a"));
    assert!(!store.remove("a"));
    assert_eq!(store.get("a"), None);
    assert_eq!(store.len(), 1);
}

#[test]
fn kv_store_insert_replaces_value_under_same_key() {
    let mut store: KvStore<i64> = KvStore::new();
    store.insert("a".to_string(), 1);
    store.insert("a".to_string(), 2);
    assert_eq!(store.len(), 1);
    assert_eq!(store.get("a"), Some(&2));
}

#[test]
fn kv_store_items_enumerates_each_pair_once() {
    let mut store: KvStore<i64> = KvStore::new();
    store.insert("a".to_string(), 1);
    store.insert("b".to_string(), 2);
    store.insert("c".to_string(), 3);
    let items = store.items();
    assert_eq!(items.len(), 3);
    for i in 0..items.len() {
        for j in (i + 1)..items.len() {
            assert_ne!(items[i].0, items[j].0);
        }
    }
    assert!(items.iter().any(|(k, v)| k.as_str() == "b" && **v == 2));
}

#[test]
fn kv_store_fresh_key_is_absent_and_uuid_shaped() {
    let mut store: KvStore<i64> = KvStore::new();
    store.insert("a".to_string(), 1);
    store.insert("b".to_string(), 2);
    let fresh = store.fresh_key();
    assert!(!store.contains(&fresh));
    assert_eq!(fresh.chars().count(), 36);
    let another = store.fresh_key();
    assert_ne!(fresh, another);
}

#[test]
fn str_eq_compares_by_characters() {
    assert!(str_eq("", ""));
    assert!(str_eq("abc", "abc"));
    assert!(!str_eq("abc", "abd"));
    assert!(!str_eq("abc", "ab"));
    assert!(!str_eq("ab", "abc"));
    assert!(str_eq("héllo wörld", "héllo wörld"));
    assert!(!str_eq("héllo", "hello"));
}
