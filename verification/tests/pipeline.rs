use post_pruner::executor::plan_post;
use post_pruner::executor::DeleteOutcome;
use post_pruner::fetcher::FetchOutcome;
use post_pruner::pipeline::run_pipeline;
use post_pruner::post::Post;
use post_pruner::post::RunConfig;

const DAY: i64 = 86400;

fn post(id: u64, created_at: i64, protected: bool) -> Post {
    Post { id, created_at, protected, payload: format!("post-{}", id) }
}

fn page(next_cursor: u64, posts: Vec<Post>) -> FetchOutcome {
    FetchOutcome::Page { next_cursor, posts }
}

fn empty_page(next_cursor: u64) -> FetchOutcome {
    FetchOutcome::Page { next_cursor, posts: Vec::new() }
}

#[test]
fn dry_run_is_idempotent_and_issues_no_delete() {
    // The same fixed page script, run twice with dry-run on: identical audit
    // logs, and not a single delete issued — whatever the delete script.
    let cfg = RunConfig::new(true, String::from("someone"), 100);
    let script = || {
        vec![
            page(90, vec![post(1, 50, false), post(2, 150, false)]),
            page(80, vec![post(3, 10, false), post(4, 20, true)]),
            empty_page(70),
        ]
    };
    let first = run_pipeline(script(), vec![DeleteOutcome::Failed], &cfg);
    let second = run_pipeline(script(), Vec::new(), &cfg);
    assert_eq!(first.audit, second.audit);
    assert_eq!(first.audit, vec![String::from("post-1"), String::from("post-3")]);
    assert!(first.deletes_issued.is_empty());
    assert!(second.deletes_issued.is_empty());
    assert!(first.deletes_failed.is_empty());
    assert_eq!(first.fetch_calls, 3);
    assert_eq!(first.batches, 2);
}

#[test]
fn failed_delete_does_not_stop_the_page() {
    // Three eligible posts in one page; the first delete fails. The later
    // posts are still audited and their deletes still issued.
    let cfg = RunConfig::new(false, String::from("someone"), 100);
    let script = vec![page(90, vec![post(1, 10, false), post(2, 20, false), post(3, 30, false)])];
    let outcomes = vec![
        DeleteOutcome::Failed,
        DeleteOutcome::Completed { rate_limit_remaining: 7 },
        DeleteOutcome::Completed { rate_limit_remaining: 6 },
    ];
    let report = run_pipeline(script, outcomes, &cfg);
    assert_eq!(report.deletes_issued, vec![1, 2, 3]);
    assert_eq!(report.deletes_failed, vec![1]);
    assert_eq!(
        report.audit,
        vec![String::from("post-1"), String::from("post-2"), String::from("post-3")]
    );
}

#[test]
fn end_to_end_deletes_old_unprotected_posts_only() {
    // Reference time T; the cutoff sits between the two unprotected posts'
    // ages. Deleted: the 10-day-old post. Skipped: the 1-day-old post (too
    // recent) and the 50-day-old one (protected).
    let t: i64 = 100 * DAY;
    let cfg = RunConfig::new(false, String::from("someone"), t - 2 * DAY);
    let script = vec![
        page(
            90,
            vec![
                post(1, t - 10 * DAY, false),
                post(2, t - DAY, false),
                post(3, t - 50 * DAY, true),
            ],
        ),
        empty_page(80),
    ];
    let outcomes = vec![DeleteOutcome::Completed { rate_limit_remaining: 5 }];
    let report = run_pipeline(script, outcomes, &cfg);
    assert_eq!(report.deletes_issued, vec![1]);
    assert!(report.deletes_failed.is_empty());
    assert_eq!(report.audit, vec![String::from("post-1")]);
    assert_eq!(report.fetch_calls, 2);
    assert_eq!(report.batches, 1);
}

#[test]
fn unscripted_delete_counts_as_failed() {
    let cfg = RunConfig::new(false, String::from("someone"), 100);
    let script = vec![page(90, vec![post(1, 10, false), post(2, 20, false)])];
    let report = run_pipeline(script, vec![DeleteOutcome::Completed { rate_limit_remaining: 1 }], &cfg);
    assert_eq!(report.deletes_issued, vec![1, 2]);
    assert_eq!(report.deletes_failed, vec![2]);
}

#[test]
fn executor_audits_first_and_respects_dry_run() {
    let p = post(9, 5, false);
    let dry = RunConfig::new(true, String::from("someone"), 100);
    let live = RunConfig::new(false, String::from("someone"), 100);
    let plan = plan_post(&p, &dry);
    assert_eq!(plan.audit_line, "post-9");
    assert!(!plan.issue_delete);
    let plan = plan_post(&p, &live);
    assert_eq!(plan.audit_line, "post-9");
    assert!(plan.issue_delete);
}
