//! The fetch-cache rules: the stable key, the artifact name, and the
//! 30-minute staleness window.

use mk_rss::fetch::cache_file_name;
use mk_rss::fetch::cache_key;
use mk_rss::fetch::is_fresh;
use mk_rss::fetch::CACHE_WINDOW_SECS;

#[test]
fn cache_key_is_the_fnv1a_hash_of_the_url() {
    // 64-bit FNV-1a of the ASCII bytes, worked out independently.
    assert_eq!(cache_key("https://example.com/feed/"), 12666146646371170685);
}

#[test]
fn cache_file_name_is_prefix_plus_decimal_key() {
    assert_eq!(
        cache_file_name("https://example.com/feed/"),
        "mk-rss-12666146646371170685"
    );
    let url = "https://other.example/page";
    assert_eq!(cache_file_name(url), format!("mk-rss-{}", cache_key(url)));
}

#[test]
fn same_url_same_key_different_url_different_key() {
    assert_eq!(cache_key("https://example.com/a"), cache_key("https://example.com/a"));
    assert_ne!(cache_key("https://example.com/a"), cache_key("https://example.com/b"));
}

#[test]
fn artifacts_younger_than_the_window_are_fresh() {
    let now: i64 = 1_700_000_000;
    assert_eq!(CACHE_WINDOW_SECS, 1800);
    assert!(is_fresh(now, now));
    assert!(is_fresh(now - 1, now));
    assert!(is_fresh(now - 1799, now));
    assert!(!is_fresh(now - 1800, now));
    assert!(!is_fresh(now - 86_400, now));
    // An artifact stamped in the future is not trusted either.
    assert!(!is_fresh(now + 5, now));
}
