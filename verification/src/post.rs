//! The data the pipeline works on: a post as the policy sees it, and the
//! immutable per-run configuration.

use vstd::prelude::*;

verus! {

/// One post of the account's history, reduced to what the pipeline reads:
/// the unique identifier, the creation time as seconds since the Unix epoch,
/// whether the owner protected it (favorited/pinned) against deletion, and
/// the opaque full payload kept for the audit trail.
#[derive(Debug)]
pub struct Post {
    pub id: u64,
    pub created_at: i64,
    pub protected: bool,
    pub payload: String,
}

/// The immutable snapshot of one run's settings, fixed before the pipeline
/// starts: whether deletions are only simulated, the account walked, and the
/// cutoff timestamp (seconds since the Unix epoch) below which an unprotected
/// post is deleted.
#[derive(Debug)]
pub struct RunConfig {
    pub dry_run: bool,
    pub account: String,
    pub cutoff: i64,
}

impl RunConfig {
    pub fn new(dry_run: bool, account: String, cutoff: i64) -> (r: RunConfig)
        ensures
            r.dry_run == dry_run,
            r.account == account,
            r.cutoff == cutoff,
    {
        RunConfig { dry_run, account, cutoff }
    }
}

} // verus!
