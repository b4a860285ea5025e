use myriam::trust_store::{TrustStore, TrustStoreError};

#[test]
fn store_and_fetch() {
    let mut store: TrustStore<String> = TrustStore::spawn();

    let hash = vec![0xabu8, 0xcd];
    store.store(hash.clone(), String::from("alice")).unwrap();

    assert_eq!(Some(&String::from("alice")), store.fetch(&hash).unwrap());
    assert!(store.contains(&hash).unwrap());
    assert_eq!(None, store.fetch(&[0u8, 1]).unwrap());
    assert!(!store.contains(&[0u8, 1]).unwrap());
}

#[test]
fn store_replaces_same_hash() {
    let mut store: TrustStore<String> = TrustStore::spawn();

    let hash = vec![0xabu8, 0xcd];
    store.store(hash.clone(), String::from("alice")).unwrap();
    store.store(hash.clone(), String::from("carol")).unwrap();

    assert_eq!(Some(&String::from("carol")), store.fetch(&hash).unwrap());
}

#[test]
fn stopped_store_fails() {
    let mut store: TrustStore<String> = TrustStore::spawn();
    store.stop();

    assert_eq!(TrustStoreError::Send, store.store(vec![1u8], String::from("x")).unwrap_err());
    assert_eq!(TrustStoreError::Send, store.fetch(&[1u8]).unwrap_err());
    assert_eq!(TrustStoreError::Send, store.contains(&[1u8]).unwrap_err());
}
