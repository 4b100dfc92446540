//! The orchestrator: page fetcher, policy and executor composed into one
//! run. A run is modeled against two scripts of remote outcomes — what each
//! page pull and each delete call came back with — so that everything the
//! run decides is a function of those scripts and the configuration, and is
//! verified for every script. Pages advance strictly in sequence; a fetch
//! failure or an empty page ends the run; a failed delete is recorded and
//! the run continues.

use vstd::prelude::*;

use crate::executor::lemma_batch_targets_contains;
use crate::executor::plan_batch;
use crate::executor::spec_batch_audit;
use crate::executor::spec_batch_targets;
use crate::executor::DeleteOutcome;
use crate::fetcher::collect_batches;
use crate::fetcher::spec_batches;
use crate::fetcher::spec_fetch_calls;
use crate::fetcher::FetchOutcome;
use crate::policy::spec_should_delete;
use crate::post::Post;
use crate::post::RunConfig;

verus! {

/// Everything one run produced: the audit lines (the payload of every post
/// handed to the executor, in processing order), the ids deletes were issued
/// for, the ids whose delete failed, and how many batches were yielded and
/// pulls issued.
pub struct RunReport {
    pub audit: Vec<String>,
    pub deletes_issued: Vec<u64>,
    pub deletes_failed: Vec<u64>,
    pub batches: usize,
    pub fetch_calls: usize,
}

/// The audit lines of a whole run: batch by batch, each batch's eligible
/// payloads in order.
pub open spec fn spec_audit(bs: Seq<Vec<Post>>, cutoff: i64) -> Seq<String>
    decreases bs.len(),
{
    if bs.len() == 0 {
        Seq::empty()
    } else {
        spec_batch_audit(bs[0]@, cutoff) + spec_audit(bs.drop_first(), cutoff)
    }
}

/// The ids a whole run marks for deletion: batch by batch, each batch's
/// eligible ids in order.
pub open spec fn spec_targets(bs: Seq<Vec<Post>>, cutoff: i64) -> Seq<u64>
    decreases bs.len(),
{
    if bs.len() == 0 {
        Seq::empty()
    } else {
        spec_batch_targets(bs[0]@, cutoff) + spec_targets(bs.drop_first(), cutoff)
    }
}

/// The ids a run actually issues deletes for: none at all in dry-run mode,
/// else exactly the marked ids.
pub open spec fn spec_issued(bs: Seq<Vec<Post>>, cfg: RunConfig) -> Seq<u64> {
    if cfg.dry_run {
        Seq::empty()
    } else {
        spec_targets(bs, cfg.cutoff)
    }
}

/// Which issued deletes failed: the i-th issued delete is paired with the
/// i-th scripted outcome; a delete the script does not answer counts as
/// failed.
pub open spec fn spec_failed(ids: Seq<u64>, outs: Seq<DeleteOutcome>) -> Seq<u64>
    decreases ids.len(),
{
    if ids.len() == 0 {
        Seq::empty()
    } else {
        let outs_rest = if outs.len() == 0 {
            outs
        } else {
            outs.drop_first()
        };
        let rest = spec_failed(ids.drop_first(), outs_rest);
        if outs.len() == 0 || outs[0] is Failed {
            seq![ids[0]] + rest
        } else {
            rest
        }
    }
}

/// The delete outcomes still unanswered once `i` deletes have been issued.
spec fn spec_outs_from(outs: Seq<DeleteOutcome>, i: int) -> Seq<DeleteOutcome> {
    if i < outs.len() {
        outs.skip(i)
    } else {
        Seq::empty()
    }
}

/// What `run_pipeline` promises of its report, over the two scripts and the
/// configuration.
pub open spec fn report_matches(
    r: RunReport,
    fs: Seq<FetchOutcome>,
    ds: Seq<DeleteOutcome>,
    cfg: RunConfig,
) -> bool {
    &&& r.fetch_calls as int == spec_fetch_calls(fs)
    &&& r.batches as int == spec_batches(fs).len()
    &&& r.audit@ == spec_audit(spec_batches(fs), cfg.cutoff)
    &&& r.deletes_issued@ == spec_issued(spec_batches(fs), cfg)
    &&& r.deletes_failed@ == spec_failed(spec_issued(spec_batches(fs), cfg), ds)
}

/// Pairs each issued delete with its scripted outcome and keeps the ids
/// whose delete failed, in issue order.
pub fn failed_deletes(ids: &Vec<u64>, outs: &Vec<DeleteOutcome>) -> (r: Vec<u64>)
    ensures
        r@ == spec_failed(ids@, outs@),
{
    let mut failed: Vec<u64> = Vec::new();
    let mut i: usize = 0;
    proof {
        assert(ids@.skip(0) =~= ids@);
        assert(spec_outs_from(outs@, 0) =~= outs@);
        assert(Seq::<u64>::empty() + spec_failed(ids@, outs@) =~= spec_failed(ids@, outs@));
    }
    while i < ids.len()
        invariant
            i <= ids@.len(),
            spec_failed(ids@, outs@) == failed@ + spec_failed(
                ids@.skip(i as int),
                spec_outs_from(outs@, i as int),
            ),
        decreases ids@.len() - i,
    {
        let ghost ids_pre = ids@.skip(i as int);
        let ghost outs_pre = spec_outs_from(outs@, i as int);
        let ghost failed0 = failed@;
        proof {
            assert(ids_pre[0] == ids@[i as int]);
            assert(ids_pre.drop_first() =~= ids@.skip(i as int + 1));
            if i < outs@.len() {
                assert(outs_pre[0] == outs@[i as int]);
                assert(outs_pre.drop_first() =~= spec_outs_from(outs@, i as int + 1));
            } else {
                assert(outs_pre =~= spec_outs_from(outs@, i as int + 1));
            }
        }
        let failed_now: bool = if i < outs.len() {
            match outs[i] {
                DeleteOutcome::Failed => true,
                DeleteOutcome::Completed { .. } => false,
            }
        } else {
            true
        };
        if failed_now {
            failed.push(ids[i]);
            proof {
                assert(failed@ =~= failed0 + seq![ids@[i as int]]);
                assert(failed@ + spec_failed(ids@.skip(i as int + 1), spec_outs_from(outs@, i as int + 1))
                    =~= failed0 + spec_failed(ids_pre, outs_pre));
            }
        }
        i = i + 1;
    }
    proof {
        assert(ids@.skip(ids@.len() as int) =~= Seq::<u64>::empty());
        assert(failed@ + spec_failed(ids@.skip(i as int), spec_outs_from(outs@, i as int))
            =~= failed@);
    }
    failed
}

/// One whole run against the two scripts: pulls pages until the fetcher
/// terminates, audits and marks every eligible post page by page, issues the
/// deletes unless dry-run is on, and records which failed.
pub fn run_pipeline(
    fetch_script: Vec<FetchOutcome>,
    delete_script: Vec<DeleteOutcome>,
    cfg: &RunConfig,
) -> (r: RunReport)
    ensures
        report_matches(r, fetch_script@, delete_script@, *cfg),
{
    let ghost fs = fetch_script@;
    let (batches, fetch_calls) = collect_batches(fetch_script);
    let nbatches: usize = batches.len();
    let mut audit: Vec<String> = Vec::new();
    let mut targets: Vec<u64> = Vec::new();
    let mut i: usize = 0;
    proof {
        assert(batches@.skip(0) =~= batches@);
        assert(Seq::<String>::empty() + spec_audit(batches@, cfg.cutoff) =~= spec_audit(
            batches@,
            cfg.cutoff,
        ));
        assert(Seq::<u64>::empty() + spec_targets(batches@, cfg.cutoff) =~= spec_targets(
            batches@,
            cfg.cutoff,
        ));
    }
    while i < batches.len()
        invariant
            i <= batches@.len(),
            spec_audit(batches@, cfg.cutoff) == audit@ + spec_audit(
                batches@.skip(i as int),
                cfg.cutoff,
            ),
            spec_targets(batches@, cfg.cutoff) == targets@ + spec_targets(
                batches@.skip(i as int),
                cfg.cutoff,
            ),
        decreases batches@.len() - i,
    {
        let ghost pre = batches@.skip(i as int);
        let ghost audit0 = audit@;
        let ghost targets0 = targets@;
        proof {
            assert(pre[0] == batches@[i as int]);
            assert(pre.drop_first() =~= batches@.skip(i as int + 1));
        }
        let (mut batch_audit, mut batch_targets) = plan_batch(&batches[i], cfg);
        audit.append(&mut batch_audit);
        targets.append(&mut batch_targets);
        proof {
            assert(audit@ + spec_audit(batches@.skip(i as int + 1), cfg.cutoff) =~= audit0
                + spec_audit(pre, cfg.cutoff));
            assert(targets@ + spec_targets(batches@.skip(i as int + 1), cfg.cutoff) =~= targets0
                + spec_targets(pre, cfg.cutoff));
        }
        i = i + 1;
    }
    proof {
        assert(batches@.skip(batches@.len() as int) =~= Seq::<Vec<Post>>::empty());
        assert(audit@ + spec_audit(batches@.skip(i as int), cfg.cutoff) =~= audit@);
        assert(targets@ + spec_targets(batches@.skip(i as int), cfg.cutoff) =~= targets@);
    }
    let issued: Vec<u64> = if cfg.dry_run {
        Vec::new()
    } else {
        targets
    };
    let failed = failed_deletes(&issued, &delete_script);
    RunReport {
        audit,
        deletes_issued: issued,
        deletes_failed: failed,
        batches: nbatches,
        fetch_calls,
    }
}

/// Law (dry-run idempotence): with dry-run on, two runs over the same page
/// script — whatever the delete outcomes — produce identical audit logs, and
/// neither issues a single delete.
pub proof fn lemma_dry_run_idempotent(
    r1: RunReport,
    r2: RunReport,
    fs: Seq<FetchOutcome>,
    ds1: Seq<DeleteOutcome>,
    ds2: Seq<DeleteOutcome>,
    cfg: RunConfig,
)
    requires
        cfg.dry_run,
        report_matches(r1, fs, ds1, cfg),
        report_matches(r2, fs, ds2, cfg),
    ensures
        r1.audit@ == r2.audit@,
        r1.deletes_issued@.len() == 0,
        r2.deletes_issued@.len() == 0,
        r1.deletes_failed@.len() == 0,
        r2.deletes_failed@.len() == 0,
{
}

/// Law (failure isolation): the delete outcomes have no influence on what is
/// audited or on which deletes are issued — a failed delete never keeps the
/// rest of its page, or of the run, from being processed.
pub proof fn lemma_delete_failures_do_not_stop_run(
    r1: RunReport,
    r2: RunReport,
    fs: Seq<FetchOutcome>,
    ds1: Seq<DeleteOutcome>,
    ds2: Seq<DeleteOutcome>,
    cfg: RunConfig,
)
    requires
        report_matches(r1, fs, ds1, cfg),
        report_matches(r2, fs, ds2, cfg),
    ensures
        r1.audit@ == r2.audit@,
        r1.deletes_issued@ == r2.deletes_issued@,
{
}

/// Law: with dry-run off, every eligible post of every yielded batch gets a
/// delete issued, whatever came of any other delete.
pub proof fn lemma_every_eligible_post_issued(bs: Seq<Vec<Post>>, cfg: RunConfig, i: int, j: int)
    requires
        !cfg.dry_run,
        0 <= i < bs.len(),
        0 <= j < bs[i]@.len(),
        spec_should_delete(bs[i]@[j], cfg.cutoff),
    ensures
        spec_issued(bs, cfg).contains(bs[i]@[j].id),
    decreases i,
{
    if i == 0 {
        lemma_batch_targets_contains(bs[0]@, cfg.cutoff, j);
        let part = spec_batch_targets(bs[0]@, cfg.cutoff);
        let k = choose|k: int| 0 <= k < part.len() && part[k] == bs[0]@[j].id;
        assert(spec_targets(bs, cfg.cutoff)[k] == bs[0]@[j].id);
    } else {
        lemma_every_eligible_post_issued(bs.drop_first(), cfg, i - 1, j);
        assert(bs.drop_first()[i - 1] == bs[i]);
        let rest = spec_targets(bs.drop_first(), cfg.cutoff);
        let k = choose|k: int| 0 <= k < rest.len() && rest[k] == bs[i]@[j].id;
        assert(spec_targets(bs, cfg.cutoff)[spec_batch_targets(bs[0]@, cfg.cutoff).len() + k]
            == bs[i]@[j].id);
    }
}

} // verus!
