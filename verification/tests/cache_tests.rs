use quantum_kapital::services::cache_envelope::{decode_envelope, encode_envelope};
use quantum_kapital::services::cache_service::{key_of_file_name, CacheError, CacheService};

#[test]
fn test_cache_write_and_read() {
    let mut cache = CacheService::new("cache");
    let data = "{\"value\":\"test\"}";

    cache.write("test_key", data);

    let cached = cache.read("test_key").unwrap();
    assert_eq!(cached, data);
}

#[test]
fn test_cache_expiration() {
    let mut cache = CacheService::with_ttl("cache", 1);
    let data = "{\"value\":\"test\"}";

    cache.write_at("test_key", data, 1_700_000_000);
    assert!(cache.is_valid_at("test_key", 1_700_000_000));

    assert!(!cache.is_valid_at("test_key", 1_700_000_002));
    assert_eq!(cache.read_at("test_key", 1_700_000_002), Err(CacheError::InvalidOrExpired));
}

#[test]
fn test_cache_clear() {
    let mut cache = CacheService::new("cache");
    let data = "{\"value\":\"test\"}";

    cache.write("test_key", data);
    assert!(cache.is_valid("test_key"));

    assert!(cache.clear("test_key"));
    assert!(!cache.is_valid("test_key"));
    assert!(!cache.clear("test_key"));
}

#[test]
fn validity_ends_when_the_age_reaches_the_ttl() {
    let mut cache = CacheService::with_ttl("cache", 10);
    cache.write_at("k", "1", 100);
    assert!(cache.is_valid_at("k", 100));
    assert!(cache.is_valid_at("k", 109));
    assert!(!cache.is_valid_at("k", 110));
    assert!(!cache.is_valid_at("k", 99));
    assert_eq!(cache.get_cache_age("k", 109), Some(9));
    assert_eq!(cache.get_cache_age("k", 99), None);
    assert_eq!(cache.get_cache_age("other", 109), None);
}

#[test]
fn default_ttl_is_a_day() {
    let mut cache = CacheService::new("cache");
    assert_eq!(cache.ttl_seconds(), 86400);
    cache.write_at("k", "1", 0);
    assert!(cache.is_valid_at("k", 86399));
    assert!(!cache.is_valid_at("k", 86400));
}

#[test]
fn clear_expired_drops_only_what_is_older_than_the_ttl() {
    let mut cache = CacheService::with_ttl("cache", 10);
    cache.write_at("old", "1", 100);
    cache.write_at("edge", "2", 190);
    cache.write_at("new", "3", 195);
    cache.write_at("future", "4", 500);
    let mut removed = cache.clear_expired_at(200);
    removed.sort();
    assert_eq!(removed, vec!["old".to_string()]);
    assert_eq!(cache.len(), 3);
    assert!(!cache.is_valid_at("edge", 200));
    assert!(cache.is_valid_at("new", 200));
    assert_eq!(cache.clear_expired_at(200), Vec::<String>::new());
    let mut valid = cache.list_valid_keys_at(200);
    valid.sort();
    assert_eq!(valid, vec!["new".to_string()]);
}

#[test]
fn clear_all_counts_and_empties() {
    let mut cache = CacheService::new("cache");
    cache.write_at("a", "1", 1);
    cache.write_at("b", "2", 1);
    cache.write_at("a", "3", 2);
    assert_eq!(cache.read_at("a", 2), Ok("3".to_string()));
    assert_eq!(cache.clear_all(), 2);
    assert_eq!(cache.clear_all(), 0);
    assert_eq!(cache.read_at("a", 2), Err(CacheError::InvalidOrExpired));
}

#[test]
fn cache_paths_and_file_names() {
    let cache = CacheService::new("cache/alphavantage");
    assert_eq!(cache.get_cache_path("AAPL_overview"), "cache/alphavantage/AAPL_overview.json");
    assert_eq!(key_of_file_name("AAPL_overview.json"), Some("AAPL_overview".to_string()));
    assert_eq!(key_of_file_name(".json"), None);
    assert_eq!(key_of_file_name("notes.txt"), None);
    assert_eq!(key_of_file_name("a.json"), Some("a".to_string()));
}

#[test]
fn envelope_layout() {
    assert_eq!(
        encode_envelope(1700000000, "{\"value\":\"test\"}"),
        "{\n  \"timestamp\": 1700000000,\n  \"data\": {\"value\":\"test\"}\n}"
    );
    let mut cache = CacheService::new("cache");
    assert_eq!(cache.write_at("k", "[1,2]", 5), "{\n  \"timestamp\": 5,\n  \"data\": [1,2]\n}");
}

#[test]
fn envelope_round_trip() {
    let text = encode_envelope(1700000000, "{\"value\":\"test\"}");
    let found = decode_envelope(&text).unwrap();
    assert_eq!(found.timestamp, 1700000000);
    assert_eq!(found.data, "{\"value\":\"test\"}");
}

#[test]
fn envelope_accepts_other_spacing() {
    let found = decode_envelope("{\"timestamp\":12,\"data\":{\"a\": 1}}").unwrap();
    assert_eq!(found.timestamp, 12);
    assert_eq!(found.data, "{\"a\": 1}");
    let found = decode_envelope(" \n{\t\"timestamp\" : 0 ,\r\n \"data\" :  \"x\"  } \n").unwrap();
    assert_eq!(found.timestamp, 0);
    assert_eq!(found.data, "\"x\"");
    let found = decode_envelope("{\"timestamp\":18446744073709551615,\"data\":null}").unwrap();
    assert_eq!(found.timestamp, u64::MAX);
}

#[test]
fn corrupt_envelopes_are_misses() {
    assert!(decode_envelope("").is_none());
    assert!(decode_envelope("not json").is_none());
    assert!(decode_envelope("{\"data\":1,\"timestamp\":2}").is_none());
    assert!(decode_envelope("{\"timestamp\":,\"data\":1}").is_none());
    assert!(decode_envelope("{\"timestamp\":-1,\"data\":1}").is_none());
    assert!(decode_envelope("{\"timestamp\":18446744073709551616,\"data\":1}").is_none());
    assert!(decode_envelope("{\"timestamp\":1,\"data\":}").is_none());
    assert!(decode_envelope("{\"timestamp\":1,\"data\":1").is_none());
    assert!(decode_envelope("{\"timestamp\":1 \"data\":1}").is_none());
}

#[test]
fn loading_files_fills_the_cache() {
    let mut cache = CacheService::with_ttl("cache", 60);
    assert!(cache.load("AAPL_overview.json", "{\n  \"timestamp\": 100,\n  \"data\": {\"Symbol\": \"AAPL\"}\n}"));
    assert!(!cache.load("broken.json", "{ oops"));
    assert!(!cache.load("README.md", "{\"timestamp\":1,\"data\":1}"));
    assert_eq!(cache.len(), 1);
    assert_eq!(cache.read_at("AAPL_overview", 120), Ok("{\"Symbol\": \"AAPL\"}".to_string()));
    assert_eq!(cache.read_at("broken", 120), Err(CacheError::InvalidOrExpired));
    assert_eq!(CacheError::InvalidOrExpired.message(), "Cache invalid or expired");
}
