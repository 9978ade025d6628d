use phishguard::cache::{cache_key, ttl_for_verdict};
use phishguard::digest::hash_for_indexing;
use phishguard::model::URLCheckRequest;
use sha2::{Digest, Sha256};

#[test]
fn test_hash_consistency() {
    let hash1 = hash_for_indexing("example.com");
    let hash2 = hash_for_indexing("example.com");

    assert_eq!(hash1, hash2);
}

#[test]
fn test_hash_known_value() {
    assert_eq!(
        hash_for_indexing("example.com"),
        "a379a6f6eeafb9a55e378c118034e2751e682fab9f2d30ab13d2125586ce1947"
    );
    assert_eq!(
        hash_for_indexing(""),
        "e3b0c44298fc1c149afbf4c8996fb92427ae41e4649b934ca495991b7852b855"
    );
}

#[test]
fn test_cache_key_format() {
    let key = cache_key("http://example-test-phish.com/login");
    assert_eq!(
        key,
        "classify:v1:d669e1977df3241590464014f63bfa93ba9a521a10f01893859ad6b1040a9edc"
    );
}

#[test]
fn test_cache_key_matches_reference_digest() {
    let url = "https://safe-known-site.org/home";
    let expected = format!("classify:v1:{}", hex::encode(Sha256::digest(url.as_bytes())));
    assert_eq!(cache_key(url), expected);
}

#[test]
fn test_cache_key_ignores_sensitivity_mode() {
    let a = URLCheckRequest {
        url: "http://example-test-phish.com/login".to_string(),
        sensitivity_mode: "conservative".to_string(),
    };
    let b = URLCheckRequest {
        url: "http://example-test-phish.com/login".to_string(),
        sensitivity_mode: "aggressive".to_string(),
    };
    assert_eq!(cache_key(&a.url), cache_key(&b.url));
}

#[test]
fn test_ttl_values() {
    assert_eq!(ttl_for_verdict(true), 604800);
    assert_eq!(ttl_for_verdict(false), 86400);
}
