use rhizo_crypt_core::store::{InMemoryPayloadStore, StorageHealth, StorageStats};
use rhizo_crypt_core::types::PayloadRef;

#[test]
fn payload_store_read_after_write() {
    let mut store = InMemoryPayloadStore::new();
    let data = b"hello payload".to_vec();
    let r = store.put(data.clone());
    assert_eq!(r, PayloadRef::from_bytes(&data));
    assert_eq!(r.hash, *blake3::hash(&data).as_bytes());
    assert_eq!(r.size, data.len() as u64);
    assert!(store.contains(&r));
    assert_eq!(store.get(&r), Some(data));
}

#[test]
fn payload_store_put_is_content_addressed() {
    let mut store = InMemoryPayloadStore::new();
    let a = store.put(b"same".to_vec());
    let b = store.put(b"same".to_vec());
    assert_eq!(a, b);
    assert_eq!(store.payload_count(), 1);
    store.put(b"other".to_vec());
    assert_eq!(store.payload_count(), 2);
    assert_eq!(store.total_bytes(), 9);
}

#[test]
fn payload_store_delete() {
    let mut store = InMemoryPayloadStore::new();
    let a = store.put(b"a".to_vec());
    let b = store.put(b"bb".to_vec());
    assert!(store.delete(&a));
    assert!(!store.delete(&a));
    assert!(!store.contains(&a));
    assert_eq!(store.get(&a), None);
    assert_eq!(store.get(&b), Some(b"bb".to_vec()));
    assert_eq!(store.payload_count(), 1);
}

#[test]
fn payload_store_stats_and_health() {
    let mut store = InMemoryPayloadStore::new();
    assert_eq!(store.stats(), StorageStats::default());
    let r = store.put(vec![1, 2, 3]);
    store.get(&r);
    store.contains(&PayloadRef::new([0; 32], 0));
    let stats = store.stats();
    assert_eq!(stats.sessions, 0);
    assert_eq!(stats.vertices, 1);
    assert_eq!(stats.bytes_used, 3);
    assert_eq!(stats.read_ops, 2);
    assert_eq!(stats.write_ops, 1);
    assert_eq!(store.health(), StorageHealth::Healthy);
}

#[test]
fn storage_stats_default_is_zero() {
    let s = StorageStats::default();
    assert_eq!((s.sessions, s.vertices, s.bytes_used, s.read_ops, s.write_ops), (0, 0, 0, 0, 0));
    assert_ne!(StorageHealth::Degraded("x".into()), StorageHealth::Unhealthy("x".into()));
}
