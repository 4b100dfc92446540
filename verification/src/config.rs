//! Building the run's cutoff: the timestamp now minus the retention window.
//! The clock itself is read through the outside crate; the arithmetic around
//! it is verified and overflow-checked.

use vstd::prelude::*;

use crate::post::RunConfig;

verus! {

pub const SECONDS_PER_DAY: i64 = 86400;

/// Whether `now - days * 86400` can be computed in `i64` without overflow.
pub open spec fn cutoff_in_range(now: i64, days: i64) -> bool {
    &&& i64::MIN <= days * 86400 <= i64::MAX
    &&& i64::MIN <= now - days * 86400 <= i64::MAX
}

/// The cutoff `now - days * 86400`, or `None` exactly when that value does
/// not fit in `i64`.
pub fn compute_cutoff(now_secs: i64, days_to_keep: i64) -> (r: Option<i64>)
    ensures
        r is Some <==> cutoff_in_range(now_secs, days_to_keep),
        r matches Some(c) ==> c == now_secs - days_to_keep * 86400,
{
    match days_to_keep.checked_mul(SECONDS_PER_DAY) {
        None => None,
        Some(window) => now_secs.checked_sub(window),
    }
}

/// Relies on chrono's `Utc::now` and `DateTime::timestamp`: the current time
/// of the system clock, as whole seconds since the Unix epoch. `Utc::now`
/// panics when the system clock reads before the epoch; whenever it returns,
/// the seconds since the epoch are nonnegative.
#[verifier::external_body]
pub(crate) fn now_timestamp_secs() -> (r: i64)
    ensures
        r >= 0,
{
    chrono::Utc::now().timestamp()
}

impl RunConfig {
    /// Builds the run configuration from the clock: the cutoff is the current
    /// time minus `days_to_keep` days. Returns `None` exactly when that
    /// difference overflows `i64` for the time the clock gave — which, as the
    /// clock never reads before the epoch, cannot happen for a nonnegative
    /// window whose seconds fit in `i64`.
    pub fn from_clock(dry_run: bool, account: String, days_to_keep: i64) -> (r: Option<RunConfig>)
        ensures
            0 <= days_to_keep && days_to_keep * 86400 <= i64::MAX ==> r is Some,
            !(i64::MIN <= days_to_keep * 86400 <= i64::MAX) ==> r is None,
            r matches Some(cfg) ==> {
                &&& cfg.dry_run == dry_run
                &&& cfg.account == account
                &&& exists|now: i64|
                    #![trigger cutoff_in_range(now, days_to_keep)]
                    now >= 0 && cutoff_in_range(now, days_to_keep) && cfg.cutoff == now
                        - days_to_keep * 86400
            },
    {
        let now: i64 = now_timestamp_secs();
        match compute_cutoff(now, days_to_keep) {
            Some(cutoff) => Some(RunConfig { dry_run, account, cutoff }),
            None => None,
        }
    }
}

} // verus!
