use cameo::cache_store::{
    expires_at, is_live, is_purged, purge_due_after_read, purge_due_after_write, stored_secs,
};

#[test]
fn expiry_is_now_plus_ttl() {
    assert_eq!(expires_at(1_700_000_000, 3600), 1_700_003_600);
    assert_eq!(expires_at(0, 0), 0);
}

#[test]
fn stored_seconds_wrap_like_a_signed_column() {
    assert_eq!(stored_secs(5), 5);
    assert_eq!(stored_secs(i64::MAX as u64), i64::MAX);
    assert_eq!(stored_secs(u64::MAX), -1);
    assert_eq!(stored_secs(1u64 << 63), i64::MIN);
}

#[test]
fn entries_are_live_until_expiry() {
    let e = expires_at(1000, 60);
    assert!(is_live(e, 1000));
    assert!(is_live(e, 1059));
    assert!(!is_live(e, 1060));
    assert!(!is_purged(e, 1060));
    assert!(is_purged(e, 1061));
    let zero = expires_at(1000, 0);
    assert!(!is_live(zero, 1000));
}

#[test]
fn purges_are_periodic() {
    assert!(!purge_due_after_write(0));
    assert!(!purge_due_after_write(99));
    assert!(purge_due_after_write(100));
    assert!(purge_due_after_write(300));
    assert!(!purge_due_after_read(0));
    assert!(!purge_due_after_read(100));
    assert!(purge_due_after_read(1000));
    assert!(purge_due_after_read(5000));
}
