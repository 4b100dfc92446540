use post_pruner::policy::should_delete;
use post_pruner::post::Post;

fn post(id: u64, created_at: i64, protected: bool) -> Post {
    Post { id, created_at, protected, payload: format!("post-{}", id) }
}

#[test]
fn protected_post_is_never_deleted() {
    // Protection overrides age: even a post far older than the cutoff stays.
    assert!(!should_delete(&post(1, -1_000_000, true), 0));
    assert!(!should_delete(&post(2, 0, true), i64::MAX));
    assert!(!should_delete(&post(3, i64::MIN, true), i64::MAX));
}

#[test]
fn unprotected_post_is_deleted_exactly_when_older_than_cutoff() {
    assert!(should_delete(&post(1, 99, false), 100));
    assert!(!should_delete(&post(2, 100, false), 100)); // equal is not strictly earlier
    assert!(!should_delete(&post(3, 101, false), 100));
    assert!(should_delete(&post(4, i64::MIN, false), i64::MIN + 1));
}
