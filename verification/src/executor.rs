//! The deletion executor's decisions: what is logged and what is deleted for
//! the posts of one batch that the policy judged eligible. The network
//! delete itself happens outside the library; a failed delete is logged and
//! skipped, never escalated, so nothing here carries a failure mode.

use vstd::prelude::*;

use crate::policy::should_delete;
use crate::policy::spec_should_delete;
use crate::post::Post;
use crate::post::RunConfig;

verus! {

/// What the remote delete call came back with: a receipt carrying the
/// rate-limit telemetry the transport reported, or a failure.
#[derive(Clone, Copy, Debug, PartialEq, Eq, Structural)]
pub enum DeleteOutcome {
    Completed { rate_limit_remaining: u32 },
    Failed,
}

/// The executor's plan for one post judged eligible: the audit line logged
/// first (the full payload, always, in every mode), and whether a network
/// delete is issued (never in dry-run mode).
pub struct PostPlan {
    pub audit_line: String,
    pub issue_delete: bool,
}

/// Plans the processing of one eligible post: audit first regardless of
/// mode, then a delete call exactly when dry-run is off.
pub fn plan_post(post: &Post, cfg: &RunConfig) -> (r: PostPlan)
    ensures
        r.audit_line == post.payload,
        r.issue_delete == !cfg.dry_run,
{
    PostPlan { audit_line: post.payload.clone(), issue_delete: !cfg.dry_run }
}

/// The audit lines one batch produces: the payloads of its eligible posts,
/// in batch order.
pub open spec fn spec_batch_audit(b: Seq<Post>, cutoff: i64) -> Seq<String>
    decreases b.len(),
{
    if b.len() == 0 {
        Seq::empty()
    } else {
        let rest = spec_batch_audit(b.drop_first(), cutoff);
        if spec_should_delete(b[0], cutoff) {
            seq![b[0].payload] + rest
        } else {
            rest
        }
    }
}

/// The ids one batch marks for deletion: its eligible posts, in batch order.
pub open spec fn spec_batch_targets(b: Seq<Post>, cutoff: i64) -> Seq<u64>
    decreases b.len(),
{
    if b.len() == 0 {
        Seq::empty()
    } else {
        let rest = spec_batch_targets(b.drop_first(), cutoff);
        if spec_should_delete(b[0], cutoff) {
            seq![b[0].id] + rest
        } else {
            rest
        }
    }
}

/// Runs the policy and the per-post planner over one batch: returns the
/// audit lines and the ids marked for deletion, both in batch order. Whether
/// the marked ids are then actually deleted is the orchestrator's mode
/// decision.
pub fn plan_batch(batch: &Vec<Post>, cfg: &RunConfig) -> (r: (Vec<String>, Vec<u64>))
    ensures
        r.0@ == spec_batch_audit(batch@, cfg.cutoff),
        r.1@ == spec_batch_targets(batch@, cfg.cutoff),
{
    let mut audit: Vec<String> = Vec::new();
    let mut targets: Vec<u64> = Vec::new();
    let mut j: usize = 0;
    proof {
        assert(batch@.skip(0) =~= batch@);
        assert(Seq::<String>::empty() + spec_batch_audit(batch@, cfg.cutoff) =~= spec_batch_audit(
            batch@,
            cfg.cutoff,
        ));
        assert(Seq::<u64>::empty() + spec_batch_targets(batch@, cfg.cutoff)
            =~= spec_batch_targets(batch@, cfg.cutoff));
    }
    while j < batch.len()
        invariant
            j <= batch@.len(),
            spec_batch_audit(batch@, cfg.cutoff) == audit@ + spec_batch_audit(
                batch@.skip(j as int),
                cfg.cutoff,
            ),
            spec_batch_targets(batch@, cfg.cutoff) == targets@ + spec_batch_targets(
                batch@.skip(j as int),
                cfg.cutoff,
            ),
        decreases batch@.len() - j,
    {
        let ghost pre = batch@.skip(j as int);
        let ghost audit0 = audit@;
        let ghost targets0 = targets@;
        proof {
            assert(pre.drop_first() =~= batch@.skip(j as int + 1));
            assert(pre[0] == batch@[j as int]);
        }
        let p = &batch[j];
        if should_delete(p, cfg.cutoff) {
            let plan = plan_post(p, cfg);
            audit.push(plan.audit_line);
            targets.push(p.id);
            proof {
                assert(audit@ =~= audit0 + seq![batch@[j as int].payload]);
                assert(targets@ =~= targets0 + seq![batch@[j as int].id]);
                assert(audit@ + spec_batch_audit(batch@.skip(j as int + 1), cfg.cutoff) =~= audit0
                    + spec_batch_audit(pre, cfg.cutoff));
                assert(targets@ + spec_batch_targets(batch@.skip(j as int + 1), cfg.cutoff)
                    =~= targets0 + spec_batch_targets(pre, cfg.cutoff));
            }
        }
        j = j + 1;
    }
    proof {
        assert(batch@.skip(batch@.len() as int) =~= Seq::<Post>::empty());
        assert(audit@ + spec_batch_audit(batch@.skip(j as int), cfg.cutoff) =~= audit@);
        assert(targets@ + spec_batch_targets(batch@.skip(j as int), cfg.cutoff) =~= targets@);
    }
    (audit, targets)
}

/// Law: every eligible post of a batch is marked for deletion — in
/// particular, nothing earlier in the batch (such as a failed delete) keeps
/// a later eligible post from being processed.
pub proof fn lemma_batch_targets_contains(b: Seq<Post>, cutoff: i64, j: int)
    requires
        0 <= j < b.len(),
        spec_should_delete(b[j], cutoff),
    ensures
        spec_batch_targets(b, cutoff).contains(b[j].id),
    decreases j,
{
    if j == 0 {
        assert(spec_batch_targets(b, cutoff)[0] == b[0].id);
    } else {
        lemma_batch_targets_contains(b.drop_first(), cutoff, j - 1);
        let rest = spec_batch_targets(b.drop_first(), cutoff);
        assert(b.drop_first()[j - 1] == b[j]);
        let k = choose|k: int| 0 <= k < rest.len() && rest[k] == b[j].id;
        if spec_should_delete(b[0], cutoff) {
            assert(spec_batch_targets(b, cutoff)[k + 1] == b[j].id);
        } else {
            assert(spec_batch_targets(b, cutoff)[k] == b[j].id);
        }
    }
}

} // verus!
