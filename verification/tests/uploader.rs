use study_sync::uploader::{
    hex_digest, is_network_error, should_report_online_change, status_is_success, upload_url,
    DigestCache,
};

#[test]
fn digest_is_the_hex_sha1_of_the_bytes() {
    // a known SHA-1 value; a digest that ignored its input would fail
    assert_eq!(hex_digest(b"abc"), "a9993e364706816aba3e25717850c26c9cd0d89d");
    assert_eq!(
        hex_digest(b""),
        "da39a3ee5e6b4b0d3255bfef95601890afd80709"
    );
    assert_eq!(hex_digest(b"abc").len(), 40);
}

#[test]
fn digest_cache_returns_only_the_path_it_was_set_for() {
    let mut cache = DigestCache::new();
    assert_eq!(cache.lookup("a.png"), None);
    let d1 = cache.digest_for("a.png", b"abc");
    assert_eq!(d1, "a9993e364706816aba3e25717850c26c9cd0d89d");
    // the same path hits the cache
    assert_eq!(cache.lookup("a.png"), Some(d1.clone()));
    // a different path never sees the cached digest
    assert_eq!(cache.lookup("b.png"), None);
    // a retry of the same path returns the slot even if the content
    // changed meanwhile: the slot is keyed by path alone
    assert_eq!(cache.digest_for("a.png", b"changed"), d1);
    // hashing another path takes the slot over
    let d2 = cache.digest_for("b.png", b"");
    assert_eq!(d2, "da39a3ee5e6b4b0d3255bfef95601890afd80709");
    assert_eq!(cache.lookup("a.png"), None);
    assert_eq!(cache.lookup("b.png"), Some(d2));
}

#[test]
fn upload_urls_carry_the_digest_hint() {
    assert_eq!(
        upload_url("http://s/shots", "dirA", Some("a9993e")),
        "http://s/shots/dirA?digest=a9993e"
    );
    assert_eq!(upload_url("http://s/shots", "dirA", None), "http://s/shots/dirA");
}

#[test]
fn success_is_exactly_2xx() {
    assert!(status_is_success(200));
    assert!(status_is_success(204));
    assert!(status_is_success(299));
    assert!(!status_is_success(199));
    assert!(!status_is_success(300));
    assert!(!status_is_success(404));
    assert!(!status_is_success(500));
}

#[test]
fn offline_observations() {
    // only network-shaped errors demote to offline
    assert!(is_network_error(true, false));
    assert!(is_network_error(false, true));
    assert!(!is_network_error(false, false));
    // and an observation is forwarded only when it changes the view
    assert!(should_report_online_change(true, false));
    assert!(should_report_online_change(false, true));
    assert!(!should_report_online_change(true, true));
    assert!(!should_report_online_change(false, false));
}
