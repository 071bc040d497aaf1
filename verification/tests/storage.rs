use cred_broker::storage::{InMemoryStore, SecretStore, StoreError};

#[test]
fn get_after_put_gives_the_secret() {
    let mut store = InMemoryStore::default();
    store.put("github/token", b"s3cr3t").unwrap();
    assert_eq!(store.get("github/token").unwrap(), b"s3cr3t".to_vec());
}

#[test]
fn get_of_missing_id_is_not_found() {
    let store = InMemoryStore::default();
    match store.get("nope") {
        Err(StoreError::NotFound(id)) => assert_eq!(id, "nope"),
        other => panic!("unexpected: {:?}", other),
    }
}

#[test]
fn put_replaces_previous_secret() {
    let mut store = InMemoryStore::default();
    store.put("k", &[1, 2, 3]).unwrap();
    store.put("k", &[9]).unwrap();
    assert_eq!(store.get("k").unwrap(), vec![9]);
}

#[test]
fn delete_forgets_the_secret() {
    let mut store = InMemoryStore::default();
    store.put("k", &[1]).unwrap();
    store.delete("k").unwrap();
    assert!(matches!(store.get("k"), Err(StoreError::NotFound(_))));
}

#[test]
fn delete_of_missing_id_succeeds() {
    let mut store = InMemoryStore::default();
    assert!(store.delete("absent").is_ok());
}

#[test]
fn other_ids_are_untouched() {
    let mut store = InMemoryStore::default();
    store.put("a", &[1]).unwrap();
    store.put("b", &[2]).unwrap();
    store.put("c", &[3]).unwrap();
    store.delete("b").unwrap();
    store.put("a", &[4]).unwrap();
    assert_eq!(store.get("a").unwrap(), vec![4]);
    assert_eq!(store.get("c").unwrap(), vec![3]);
    assert!(store.get("b").is_err());
}

#[test]
fn empty_secret_is_stored() {
    let mut store = InMemoryStore::default();
    store.put("", &[]).unwrap();
    assert_eq!(store.get("").unwrap(), Vec::<u8>::new());
}
