use cloudflaredns::api::DnsCache;
use cloudflaredns::api::DnsRecord;
use std::time::Duration;

fn make_record(id: &str) -> DnsRecord {
    DnsRecord {
        id: Some(id.to_string()),
        record_type: "A".to_string(),
        name: "example.com".to_string(),
        content: "127.0.0.1".to_string(),
        ttl: Some(300),
        proxied: Some(false),
        comment: None,
    }
}

#[test]
fn test_cache_initially_invalid() {
    let cache = DnsCache::with_default_ttl();
    assert!(!cache.is_valid());
    assert!(cache.get().is_none());
}

#[test]
fn test_cache_set_and_get() {
    let mut cache = DnsCache::with_default_ttl();
    let records = vec![make_record("1"), make_record("2")];
    cache.set(records);

    assert!(cache.is_valid());
    let cached = cache.get().unwrap();
    assert_eq!(cached.len(), 2);
    assert_eq!(cached[0].id, Some("1".to_string()));
}

#[test]
fn test_cache_invalidate() {
    let mut cache = DnsCache::with_default_ttl();
    cache.set(vec![make_record("1")]);
    assert!(cache.is_valid());

    cache.invalidate();
    assert!(!cache.is_valid());
    assert!(cache.get().is_none());
}

#[test]
fn test_cache_age() {
    let mut cache = DnsCache::with_default_ttl();
    assert!(cache.age().is_none());

    cache.set(vec![make_record("1")]);
    assert!(cache.age().is_some());
    assert!(cache.age().unwrap() < Duration::from_secs(1));
}

#[test]
fn test_cache_remaining_ttl() {
    let mut cache = DnsCache::new(Duration::from_secs(10));
    assert!(cache.remaining_ttl().is_none());

    cache.set(vec![make_record("1")]);
    let remaining = cache.remaining_ttl().unwrap();
    assert!(remaining <= Duration::from_secs(10));
    assert!(remaining > Duration::from_secs(9));
}

#[test]
fn cache_fresh_strictly_before_ttl() {
    let mut cache = DnsCache::new(Duration::from_secs(10));
    cache.set(vec![make_record("1")]);
    assert!(cache.is_valid_after(Duration::from_secs(9)));
    assert!(!cache.is_valid_after(Duration::from_secs(10)));
    assert!(!cache.is_valid_after(Duration::from_secs(11)));
}

#[test]
fn cache_get_after_expiry_is_none() {
    let mut cache = DnsCache::new(Duration::from_millis(100));
    cache.set(vec![make_record("1")]);
    assert_eq!(cache.get_after(Duration::from_millis(50)).unwrap().len(), 1);
    assert!(cache.get_after(Duration::from_millis(150)).is_none());
}

#[test]
fn cache_remaining_after_saturates_at_zero() {
    let mut cache = DnsCache::new(Duration::from_millis(50));
    cache.set(vec![make_record("1")]);
    assert_eq!(
        cache.remaining_ttl_after(Duration::from_millis(20)),
        Some(Duration::from_millis(30))
    );
    assert_eq!(
        cache.remaining_ttl_after(Duration::from_millis(100)),
        Some(Duration::ZERO)
    );
}

#[test]
fn cache_empty_has_no_remaining_time() {
    let cache = DnsCache::new(Duration::from_secs(5));
    assert!(cache.remaining_ttl_after(Duration::from_secs(1)).is_none());
    assert!(!cache.is_valid_after(Duration::ZERO));
}

#[test]
fn cache_second_write_replaces_first() {
    let mut cache = DnsCache::with_default_ttl();
    cache.set(vec![make_record("1"), make_record("2")]);
    cache.set(vec![make_record("3")]);
    let cached = cache.get().unwrap();
    assert_eq!(cached.len(), 1);
    assert_eq!(cached[0].id, Some("3".to_string()));
}

#[test]
fn cache_read_after_write_within_ttl() {
    let mut cache = DnsCache::new(Duration::from_secs(30));
    cache.set(vec![make_record("x")]);
    let got = cache.get_after(Duration::from_secs(29)).unwrap();
    assert_eq!(got[0].id, Some("x".to_string()));
}

#[test]
fn cache_default_ttl_is_one_minute() {
    let mut cache = DnsCache::with_default_ttl();
    cache.set(vec![make_record("1")]);
    assert!(cache.is_valid_after(Duration::from_secs(59)));
    assert!(!cache.is_valid_after(Duration::from_secs(60)));
}
