use post_pruner::fetcher::collect_batches;
use post_pruner::fetcher::FetchOutcome;
use post_pruner::fetcher::FetchRequest;
use post_pruner::fetcher::PageFetcher;
use post_pruner::fetcher::INTER_PAGE_DELAY_SECS;
use post_pruner::post::Post;

fn post(id: u64, created_at: i64) -> Post {
    Post { id, created_at, protected: false, payload: format!("post-{}", id) }
}

fn page(next_cursor: u64, ids: &[u64]) -> FetchOutcome {
    let posts: Vec<Post> = ids.iter().map(|&id| post(id, 0)).collect();
    FetchOutcome::Page { next_cursor, posts }
}

#[test]
fn three_then_two_then_empty_yields_two_batches() {
    // Pages of 3, 2 and 0 posts: exactly two batches come out, the empty
    // page terminates the traversal, and nothing past it is ever pulled —
    // even though the script would have a further page to offer.
    let script = vec![
        page(90, &[1, 2, 3]),
        page(80, &[4, 5]),
        page(70, &[]),
        page(60, &[99]),
    ];
    let (batches, calls) = collect_batches(script);
    assert_eq!(calls, 3);
    assert_eq!(batches.len(), 2);
    let first: Vec<u64> = batches[0].iter().map(|p| p.id).collect();
    let second: Vec<u64> = batches[1].iter().map(|p| p.id).collect();
    assert_eq!(first, vec![1, 2, 3]);
    assert_eq!(second, vec![4, 5]);
}

#[test]
fn error_on_second_pull_yields_one_batch() {
    let script = vec![page(90, &[1, 2]), FetchOutcome::Failure, page(80, &[3])];
    let (batches, calls) = collect_batches(script);
    assert_eq!(calls, 2);
    assert_eq!(batches.len(), 1);
    let first: Vec<u64> = batches[0].iter().map(|p| p.id).collect();
    assert_eq!(first, vec![1, 2]);
}

#[test]
fn empty_script_pulls_nothing() {
    let (batches, calls) = collect_batches(Vec::new());
    assert_eq!(calls, 0);
    assert_eq!(batches.len(), 0);
}

#[test]
fn cursor_threads_through_and_stream_is_single_use() {
    let mut fetcher = PageFetcher::new();
    assert_eq!(fetcher.next_request(), Some(FetchRequest::Newest));
    let yielded = fetcher.absorb(page(90, &[1]));
    assert_eq!(yielded.map(|b| b.len()), Some(1));
    // The cursor is exactly what the previous pull returned.
    assert_eq!(fetcher.next_request(), Some(FetchRequest::Older { cursor: 90 }));
    // A failure terminates the traversal for good: no further request.
    let yielded = fetcher.absorb(FetchOutcome::Failure);
    assert!(yielded.is_none());
    assert!(fetcher.is_exhausted());
    assert_eq!(fetcher.next_request(), None);
    assert_eq!(INTER_PAGE_DELAY_SECS, 1);
}

#[test]
fn empty_page_terminates_like_a_failure() {
    let mut fetcher = PageFetcher::new();
    let yielded = fetcher.absorb(page(90, &[]));
    assert!(yielded.is_none());
    assert!(fetcher.is_exhausted());
    assert_eq!(fetcher.next_request(), None);
}
