use datasheet_cache::digest::compute_hash;
use datasheet_cache::hex::encode;
use datasheet_cache::record::CachedFile;
use datasheet_cache::store::CacheData;
use std::time::{SystemTime, UNIX_EPOCH};

fn record(name: &str, expires_at: u64) -> CachedFile {
    CachedFile {
        name: name.to_string(),
        uri: format!("https://example.test/{name}"),
        expires_at,
        file_size: 100,
    }
}

#[test]
fn test_hash_computation() {
    let data = b"test data";
    let hash = compute_hash(data);
    assert_eq!(hash.len(), 64); // SHA256 produces 32 bytes = 64 hex chars
}

#[test]
fn test_expiry_check() {
    let now = SystemTime::now()
        .duration_since(UNIX_EPOCH)
        .unwrap()
        .as_secs();

    // Not expired (well beyond the 1 hour margin)
    let cached = CachedFile {
        name: "test".to_string(),
        uri: "test".to_string(),
        expires_at: now + 2 * 3600, // 2 hours from now
        file_size: 100,
    };
    assert!(!cached.is_expired());

    // Expired
    let cached = CachedFile {
        name: "test".to_string(),
        uri: "test".to_string(),
        expires_at: now - 1, // Already passed
        file_size: 100,
    };
    assert!(cached.is_expired());

    // Within margin (should be treated as expired)
    let cached = CachedFile {
        name: "test".to_string(),
        uri: "test".to_string(),
        expires_at: now + 30 * 60, // 30 min from now (within 1 hour margin)
        file_size: 100,
    };
    assert!(cached.is_expired());
}

#[test]
fn hex_encoding_is_lower_case_two_digits_per_byte() {
    assert_eq!(encode(&[0x00, 0xff, 0x1a, 0x09]), "00ff1a09");
    assert_eq!(encode(&[]), "");
}

#[test]
fn hash_is_the_sha256_hex_digest() {
    assert_eq!(
        compute_hash(b"test data"),
        "916f0027a575074ce72a331777c3478d6513f786a591bd892da1a577bf2335f9"
    );
    assert_eq!(
        compute_hash(b""),
        "e3b0c44298fc1c149afbf4c8996fb92427ae41e4649b934ca495991b7852b855"
    );
}

#[test]
fn hash_is_deterministic() {
    let payload: Vec<u8> = (0..1000u32).map(|i| (i % 251) as u8).collect();
    assert_eq!(compute_hash(&payload), compute_hash(&payload.clone()));
    let mut other = payload.clone();
    other[999] ^= 1;
    assert_ne!(compute_hash(&payload), compute_hash(&other));
}

#[test]
fn expiry_boundary_with_one_hour_margin() {
    let now = 1_700_000_000u64;
    assert!(!record("a", now + 2 * 3600).is_expired_at(now));
    assert!(record("a", now + 30 * 60).is_expired_at(now));
    assert!(record("a", now - 1).is_expired_at(now));
    assert!(record("a", now + 3600).is_expired_at(now));
    assert!(!record("a", now + 3601).is_expired_at(now));
    assert!(record("a", 0).is_expired_at(0));
}

#[test]
fn record_expiring_within_first_hour_is_always_stale() {
    assert!(record("a", 3600).is_expired());
}

#[test]
fn store_put_get_and_replace() {
    let mut data = CacheData::new();
    assert_eq!(data.len(), 0);
    let h1 = "a".repeat(64);
    let h2 = "b".repeat(64);
    data.put(h1.clone(), record("files/one", 10));
    data.put(h2.clone(), record("files/two", 20));
    assert_eq!(data.len(), 2);
    assert_eq!(data.get(&h1).unwrap().name, "files/one");
    data.put(h1.clone(), record("files/three", 30));
    assert_eq!(data.len(), 2);
    assert_eq!(data.get(&h1).unwrap().name, "files/three");
    assert_eq!(data.get(&h1).unwrap().expires_at, 30);
    assert!(data.get(&"c".repeat(64)).is_none());
}

#[test]
fn sweep_removes_exactly_the_stale_records() {
    let now = 1_000_000u64;
    let mut data = CacheData::new();
    data.put("fresh".to_string(), record("files/fresh", now + 2 * 3600));
    data.put("margin".to_string(), record("files/margin", now + 1800));
    data.put("past".to_string(), record("files/past", now - 1));
    data.put("later".to_string(), record("files/later", now + 48 * 3600));
    let removed = data.sweep_expired(now);
    assert_eq!(removed, 2);
    assert_eq!(data.len(), 2);
    assert!(data.get(&"fresh".to_string()).is_some());
    assert!(data.get(&"later".to_string()).is_some());
    assert!(data.get(&"margin".to_string()).is_none());
    assert!(data.get(&"past".to_string()).is_none());
    let mut persisted: Vec<&str> = data.entries().iter().map(|e| e.0.as_str()).collect();
    persisted.sort();
    assert_eq!(persisted, vec!["fresh", "later"]);
    assert_eq!(data.sweep_expired(now), 0);
}

#[test]
fn store_round_trips_through_its_entries_in_any_order() {
    let mut data = CacheData::new();
    data.put("k1".to_string(), record("files/1", 100));
    data.put("k2".to_string(), record("files/2", 200));
    data.put("k3".to_string(), record("files/3", 300));
    let mut saved: Vec<(String, CachedFile)> = data.entries().to_vec();
    saved.reverse();
    let loaded = CacheData::from_entries(saved);
    assert_eq!(loaded.len(), 3);
    for (k, v) in data.entries() {
        assert_eq!(loaded.get(k), Some(v));
    }
}

#[test]
fn later_entry_wins_when_loading() {
    let entries = vec![
        ("k".to_string(), record("files/old", 1)),
        ("k".to_string(), record("files/new", 2)),
    ];
    let loaded = CacheData::from_entries(entries);
    assert_eq!(loaded.len(), 1);
    assert_eq!(loaded.get(&"k".to_string()).unwrap().name, "files/new");
}

#[test]
fn cloned_record_keeps_every_field() {
    let r = record("files/x", 42);
    assert_eq!(r.clone(), r);
}
