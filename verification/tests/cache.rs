use fariba_ddns::cache::{
    CacheInsertOutcome, CachedRecord, DnsCache, ADDRESS_FOOTPRINT_BYTES, MAX_CACHE_SIZE_BYTES,
    TIMESTAMP_FOOTPRINT_BYTES,
};
use fariba_ddns::ip::IpAddress;

fn record(ip: u32, id: &str, timestamp: u64) -> CachedRecord {
    CachedRecord {
        ip: IpAddress::V4(ip),
        record_id: id.to_string(),
        provider: "cloudflare".to_string(),
        timestamp,
    }
}

#[test]
fn insert_then_get_returns_the_record_within_ttl() {
    let mut cache = DnsCache::new(60);
    let outcome = cache.insert("www.example.com".to_string(), record(5, "rid-1", 1000));
    assert_eq!(outcome, CacheInsertOutcome::Stored { evicted: 0 });
    let got = cache.get("www.example.com", 1000).expect("fresh entry");
    assert_eq!(got.ip, IpAddress::V4(5));
    assert_eq!(got.record_id, "rid-1");
    assert_eq!(got.provider, "cloudflare");
    assert_eq!(got.timestamp, 1000);
    // Still fresh just under the TTL, expired exactly at it.
    assert!(cache.get("www.example.com", 1059).is_some());
    assert!(cache.get("www.example.com", 1060).is_none());
    assert!(cache.get("other.example.com", 1000).is_none());
}

#[test]
fn expiry_is_lazy_and_ttl_reconfiguration_applies_on_read() {
    let mut cache = DnsCache::new(10);
    cache.insert("a.example.com".to_string(), record(1, "r", 100));
    assert!(cache.get("a.example.com", 110).is_none());
    // The entry was not deleted by the expired read: a longer TTL revives it.
    cache.update_ttl(100);
    assert!(cache.get("a.example.com", 110).is_some());
    // And a shorter TTL expires it again, original timestamps kept.
    cache.update_ttl(5);
    assert!(cache.get("a.example.com", 110).is_none());
    assert!(cache.get("a.example.com", 104).is_some());
}

#[test]
fn invalidate_removes_the_entry_and_its_footprint() {
    let mut cache = DnsCache::new(60);
    cache.insert("a.example.com".to_string(), record(1, "r1", 1));
    cache.insert("b.example.com".to_string(), record(2, "r2", 2));
    let before = cache.current_size;
    cache.invalidate("a.example.com");
    assert!(cache.get("a.example.com", 2).is_none());
    assert!(cache.get("b.example.com", 2).is_some());
    let entry_bytes = "a.example.com".len() + "r1".len() + "cloudflare".len()
        + ADDRESS_FOOTPRINT_BYTES + TIMESTAMP_FOOTPRINT_BYTES;
    assert_eq!(cache.current_size, before - entry_bytes);
    // Invalidating an absent key changes nothing.
    cache.invalidate("a.example.com");
    assert_eq!(cache.current_size, before - entry_bytes);
}

#[test]
fn replacing_a_key_keeps_one_entry_and_exact_accounting() {
    let mut cache = DnsCache::new(60);
    cache.insert("a.example.com".to_string(), record(1, "r1", 1));
    cache.insert("a.example.com".to_string(), record(9, "r1", 5));
    let got = cache.get("a.example.com", 5).expect("replaced entry");
    assert_eq!(got.ip, IpAddress::V4(9));
    assert_eq!(got.timestamp, 5);
    let entry_bytes = "a.example.com".len() + "r1".len() + "cloudflare".len()
        + ADDRESS_FOOTPRINT_BYTES + TIMESTAMP_FOOTPRINT_BYTES;
    assert_eq!(cache.current_size, entry_bytes);
}

fn big_record(key_bytes: usize, timestamp: u64) -> (String, CachedRecord) {
    // An entry whose footprint is dominated by its key.
    let key = "k".repeat(key_bytes);
    (
        key,
        CachedRecord {
            ip: IpAddress::V4(1),
            record_id: String::new(),
            provider: String::new(),
            timestamp,
        },
    )
}

#[test]
fn eviction_drops_strictly_the_oldest_and_only_as_many_as_needed() {
    let mut cache = DnsCache::new(3600);
    let third = MAX_CACHE_SIZE_BYTES / 3;
    // Three entries of a third each fill the cache just under the ceiling.
    let (k1, r1) = big_record(third - 200, 10);
    let (k2, r2) = big_record(third - 201, 20);
    let (k3, r3) = big_record(third - 202, 30);
    let mut k2_owned = k2.clone();
    k2_owned.push('x');
    let k2 = k2_owned; // distinct keys of near-equal size
    assert_eq!(cache.insert(k1.clone(), r1), CacheInsertOutcome::Stored { evicted: 0 });
    assert_eq!(cache.insert(k2.clone(), r2), CacheInsertOutcome::Stored { evicted: 0 });
    assert_eq!(cache.insert(k3.clone(), r3), CacheInsertOutcome::Stored { evicted: 0 });
    // A fourth entry of one third must evict exactly the single oldest entry.
    let (k4, r4) = big_record(third - 203, 40);
    assert_eq!(cache.insert(k4.clone(), r4), CacheInsertOutcome::Stored { evicted: 1 });
    assert!(cache.get(&k1, 40).is_none(), "the oldest entry was evicted");
    assert!(cache.get(&k2, 40).is_some(), "newer entries were kept");
    assert!(cache.get(&k3, 40).is_some());
    assert!(cache.get(&k4, 40).is_some());
    assert!(cache.current_size <= MAX_CACHE_SIZE_BYTES);
    // A huge entry needs two evictions, oldest first.
    let (k5, r5) = big_record(2 * third, 50);
    assert_eq!(cache.insert(k5.clone(), r5), CacheInsertOutcome::Stored { evicted: 2 });
    assert!(cache.get(&k2, 50).is_none());
    assert!(cache.get(&k3, 50).is_none());
    assert!(cache.get(&k4, 50).is_some());
    assert!(cache.get(&k5, 50).is_some());
}

#[test]
fn an_entry_that_can_never_fit_is_refused_without_eviction() {
    let mut cache = DnsCache::new(3600);
    cache.insert("small.example.com".to_string(), record(1, "r", 1));
    let (huge_key, huge) = big_record(MAX_CACHE_SIZE_BYTES + 1, 2);
    assert_eq!(cache.insert(huge_key.clone(), huge), CacheInsertOutcome::TooLarge);
    // Nothing was evicted for it.
    assert!(cache.get("small.example.com", 2).is_some());
    assert!(cache.get(&huge_key, 2).is_none());
}

#[test]
fn entry_size_counts_strings_and_fixed_fields() {
    let size = DnsCache::calculate_entry_size("example.com", &record(1, "abc", 0));
    assert_eq!(
        size,
        "example.com".len() + "abc".len() + "cloudflare".len() + ADDRESS_FOOTPRINT_BYTES
            + TIMESTAMP_FOOTPRINT_BYTES
    );
}
