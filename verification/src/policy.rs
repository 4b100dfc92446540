//! The eligibility policy: whether a given post is deleted under a given
//! cutoff. Protection always overrides age; an unprotected post is deleted
//! exactly when it was created strictly before the cutoff.

use vstd::prelude::*;

use crate::post::Post;

verus! {

/// What `should_delete` decides: false for a protected post, else true
/// exactly when the post is strictly older than the cutoff.
pub open spec fn spec_should_delete(p: Post, cutoff: i64) -> bool {
    !p.protected && p.created_at < cutoff
}

/// Decides whether `p` is deleted under `cutoff`. Pure and total.
pub fn should_delete(p: &Post, cutoff: i64) -> (r: bool)
    ensures
        r == spec_should_delete(*p, cutoff),
{
    if p.protected {
        false
    } else {
        p.created_at < cutoff
    }
}

/// Law: a protected post is never deleted, whatever its age or the cutoff.
pub proof fn lemma_protected_never_deleted(p: Post, cutoff: i64)
    requires
        p.protected,
    ensures
        !spec_should_delete(p, cutoff),
{
}

/// Law: for an unprotected post, age alone decides: it is deleted exactly
/// when it was created strictly before the cutoff.
pub proof fn lemma_unprotected_age_decides(p: Post, cutoff: i64)
    requires
        !p.protected,
    ensures
        spec_should_delete(p, cutoff) == (p.created_at < cutoff),
{
}

} // verus!
