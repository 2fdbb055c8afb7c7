//! The ephemeral-state cache: its two key spaces and their get, insert,
//! consume and delete semantics.

use keypost::cache::EphemeralStateCache;

#[test]
fn insert_and_get_round_trip() {
    let mut cache = EphemeralStateCache::new();
    assert_eq!(cache.get(&1), None);
    cache.insert(1, vec![10, 20, 30]);
    assert_eq!(cache.get(&1), Some(vec![10, 20, 30]));
    cache.insert(1, vec![99]);
    assert_eq!(cache.get(&1), Some(vec![99]));
    assert_eq!(cache.get(&2), None);
}

#[test]
fn insert_str_and_get_str_round_trip() {
    let mut cache = EphemeralStateCache::new();
    cache.insert_str(7, "challenge-string");
    assert_eq!(cache.get_str(&7), Some("challenge-string".to_string()));
    assert_eq!(cache.get(&7), Some(b"challenge-string".to_vec()));
    assert_eq!(cache.get_str(&8), None);
}

#[test]
fn consume_reads_and_deletes_in_one_step() {
    let mut cache = EphemeralStateCache::new();
    cache.insert(5, vec![1, 2, 3]);
    assert_eq!(cache.consume(5), Some(vec![1, 2, 3]));
    assert_eq!(cache.consume(5), None);
    assert_eq!(cache.get(&5), None);
}

#[test]
fn bin_insert_get_and_delete() {
    let mut cache = EphemeralStateCache::new();
    let key = vec![0xAA, 0xBB];
    assert_eq!(cache.get_bin(&key), None);
    cache.insert_bin(key.clone(), vec![1]);
    assert_eq!(cache.get_bin(&key), Some(vec![1]));
    cache.insert_bin(key.clone(), vec![2]);
    assert_eq!(cache.get_bin(&key), Some(vec![2]));
    assert!(cache.delete_bin(&key));
    assert!(!cache.delete_bin(&key));
    assert_eq!(cache.get_bin(&key), None);
}

#[test]
fn nonce_and_digest_key_spaces_never_collide() {
    let mut cache = EphemeralStateCache::new();
    cache.insert(5, b"nonce-value".to_vec());
    cache.insert_bin(vec![0, 0, 0, 5], b"digest-value".to_vec());
    assert_eq!(cache.get(&5), Some(b"nonce-value".to_vec()));
    assert_eq!(cache.get_bin(&[0, 0, 0, 5]), Some(b"digest-value".to_vec()));
    assert!(cache.delete_bin(&[0, 0, 0, 5]));
    assert_eq!(cache.get(&5), Some(b"nonce-value".to_vec()));
    assert_eq!(cache.consume(5), Some(b"nonce-value".to_vec()));
    assert_eq!(cache.get_bin(&[0, 0, 0, 5]), None);
}

#[test]
fn empty_values_and_keys_are_stored_faithfully() {
    let mut cache = EphemeralStateCache::new();
    cache.insert_str(0, "");
    assert_eq!(cache.get_str(&0), Some(String::new()));
    assert_eq!(cache.get(&0), Some(Vec::new()));
    cache.insert_bin(Vec::new(), vec![1]);
    assert_eq!(cache.get_bin(&[]), Some(vec![1]));
    assert!(cache.delete_bin(&[]));
}

#[test]
fn many_entries_stay_independent() {
    let mut cache = EphemeralStateCache::new();
    let mut i: u32 = 0;
    while i < 50 {
        cache.insert(i, vec![i as u8]);
        i += 1;
    }
    assert_eq!(cache.consume(25), Some(vec![25]));
    assert_eq!(cache.get(&24), Some(vec![24]));
    assert_eq!(cache.get(&26), Some(vec![26]));
    assert_eq!(cache.get(&25), None);
}
