//! The page fetcher: a single-use traversal of the account's history, newest
//! to oldest. The fetcher owns the cursor and decides, from each pull's
//! outcome, whether a batch is yielded and the cursor advanced, or the
//! traversal terminates (empty page or fetch failure — both end the stream,
//! neither is retried). The network pull itself happens outside the library;
//! the fetcher is driven by handing it each outcome.

use vstd::prelude::*;

use crate::post::Post;

verus! {

/// The courtesy pause owed to the remote after every yielded batch, before
/// the next pull.
pub const INTER_PAGE_DELAY_SECS: u64 = 1;

/// The pull the fetcher asks for next: the newest page when the traversal
/// has not started, else the page older than the cursor.
#[derive(Clone, Copy, Debug, PartialEq, Eq, Structural)]
pub enum FetchRequest {
    Newest,
    Older { cursor: u64 },
}

/// What one pull of the remote paging API came back with: a page with the
/// cursor to continue from, or a failure.
#[derive(Debug)]
pub enum FetchOutcome {
    Page { next_cursor: u64, posts: Vec<Post> },
    Failure,
}

/// The request that a traversal standing at `cursor` issues.
pub open spec fn spec_request_for(cursor: Option<u64>) -> FetchRequest {
    match cursor {
        None => FetchRequest::Newest,
        Some(c) => FetchRequest::Older { cursor: c },
    }
}

/// The batch one outcome yields: `None` (failure or empty page) terminates
/// the traversal.
pub open spec fn spec_yield(o: FetchOutcome) -> Option<Vec<Post>> {
    match o {
        FetchOutcome::Failure => None,
        FetchOutcome::Page { next_cursor: _, posts } => if posts@.len() == 0 {
            None
        } else {
            Some(posts)
        },
    }
}

/// How the cursor moves under one outcome: a nonempty page replaces it with
/// the cursor the pull returned; a terminating outcome leaves it alone.
pub open spec fn spec_step_cursor(cur: Option<u64>, o: FetchOutcome) -> Option<u64> {
    match o {
        FetchOutcome::Failure => cur,
        FetchOutcome::Page { next_cursor, posts } => if posts@.len() == 0 {
            cur
        } else {
            Some(next_cursor)
        },
    }
}

/// The batches a traversal yields when successive pulls come back as
/// `script`: every page in order up to, and not including, the first failure
/// or empty page (or the end of the script).
pub open spec fn spec_batches(script: Seq<FetchOutcome>) -> Seq<Vec<Post>>
    decreases script.len(),
{
    if script.len() == 0 {
        Seq::empty()
    } else {
        match script[0] {
            FetchOutcome::Failure => Seq::empty(),
            FetchOutcome::Page { next_cursor: _, posts } => {
                if posts@.len() == 0 {
                    Seq::empty()
                } else {
                    seq![posts] + spec_batches(script.drop_first())
                }
            },
        }
    }
}

/// How many pulls a traversal issues against `script`: one per yielded batch
/// plus the terminating pull, if the script holds one. Nothing after the
/// first failure or empty page is ever pulled.
pub open spec fn spec_fetch_calls(script: Seq<FetchOutcome>) -> int
    decreases script.len(),
{
    if script.len() == 0 {
        0
    } else {
        match script[0] {
            FetchOutcome::Failure => 1,
            FetchOutcome::Page { next_cursor: _, posts } => {
                if posts@.len() == 0 {
                    1
                } else {
                    1 + spec_fetch_calls(script.drop_first())
                }
            },
        }
    }
}

/// Whether one pull outcome terminates the traversal.
pub open spec fn spec_terminal(o: FetchOutcome) -> bool {
    spec_yield(o) is None
}

/// Law: the traversal never reads past its terminating outcome. Whatever
/// pages a script may hold after a failure or an empty page, they change
/// neither the batches yielded nor the number of pulls issued.
pub proof fn lemma_nothing_pulled_after_termination(s: Seq<FetchOutcome>, extra: Seq<FetchOutcome>)
    requires
        exists|i: int| 0 <= i < s.len() && spec_terminal(#[trigger] s[i]),
    ensures
        spec_batches(s + extra) == spec_batches(s),
        spec_fetch_calls(s + extra) == spec_fetch_calls(s),
    decreases s.len(),
{
    let i = choose|i: int| 0 <= i < s.len() && spec_terminal(s[i]);
    assert((s + extra)[0] == s[0]);
    if !spec_terminal(s[0]) {
        assert(i >= 1);
        assert(s.drop_first()[i - 1] == s[i]);
        assert((s + extra).drop_first() =~= s.drop_first() + extra);
        lemma_nothing_pulled_after_termination(s.drop_first(), extra);
    }
}

/// The traversal state: the cursor seen so far and whether the stream has
/// ended. The cursor is owned here alone and only ever replaced by the value
/// the previous pull returned.
pub struct PageFetcher {
    cursor: Option<u64>,
    exhausted: bool,
}

impl PageFetcher {
    /// The cursor the next pull continues from; `None` means start of
    /// history.
    pub closed spec fn spec_cursor(self) -> Option<u64> {
        self.cursor
    }

    /// Whether the traversal has ended.
    pub closed spec fn spec_exhausted(self) -> bool {
        self.exhausted
    }

    /// A fresh traversal: no cursor, nothing yielded yet.
    pub fn new() -> (r: PageFetcher)
        ensures
            r.spec_cursor() is None,
            !r.spec_exhausted(),
    {
        PageFetcher { cursor: None, exhausted: false }
    }

    pub fn is_exhausted(&self) -> (r: bool)
        ensures
            r == self.spec_exhausted(),
    {
        self.exhausted
    }

    /// The pull to issue next, or `None` once the traversal has ended: the
    /// sequence is single-use and is never resumed after exhaustion.
    pub fn next_request(&self) -> (r: Option<FetchRequest>)
        ensures
            r is Some <==> !self.spec_exhausted(),
            !self.spec_exhausted() ==> r == Some(spec_request_for(self.spec_cursor())),
    {
        if self.exhausted {
            None
        } else {
            match self.cursor {
                None => Some(FetchRequest::Newest),
                Some(c) => Some(FetchRequest::Older { cursor: c }),
            }
        }
    }

    /// Absorbs the outcome of the pull that `next_request` asked for. A
    /// nonempty page advances the cursor and yields its posts, in the order
    /// the remote gave them; a failure or an empty page terminates the
    /// traversal and yields nothing. After a yielded batch the caller owes
    /// the remote a pause of `INTER_PAGE_DELAY_SECS` before the next pull.
    pub fn absorb(&mut self, outcome: FetchOutcome) -> (r: Option<Vec<Post>>)
        requires
            !old(self).spec_exhausted(),
        ensures
            r == spec_yield(outcome),
            final(self).spec_exhausted() == (spec_yield(outcome) is None),
            final(self).spec_cursor() == spec_step_cursor(old(self).spec_cursor(), outcome),
    {
        match outcome {
            FetchOutcome::Failure => {
                self.exhausted = true;
                None
            },
            FetchOutcome::Page { next_cursor, posts } => {
                if posts.len() == 0 {
                    self.exhausted = true;
                    None
                } else {
                    self.cursor = Some(next_cursor);
                    Some(posts)
                }
            },
        }
    }
}

/// Runs one whole traversal against a script of pull outcomes: drives a
/// fresh fetcher until it is exhausted or the script runs out, and returns
/// the batches yielded and the number of pulls issued.
pub fn collect_batches(script: Vec<FetchOutcome>) -> (r: (Vec<Vec<Post>>, usize))
    ensures
        r.0@ == spec_batches(script@),
        r.1 as int == spec_fetch_calls(script@),
{
    let mut rest = script;
    let mut batches: Vec<Vec<Post>> = Vec::new();
    let mut calls: usize = 0;
    let mut fetcher = PageFetcher::new();
    let mut active: bool = true;
    let total: usize = rest.len();
    let ghost whole = rest@;
    while active && rest.len() > 0
        invariant
            active == !fetcher.spec_exhausted(),
            whole.len() == total as int,
            calls as int + rest@.len() == whole.len(),
            active ==> spec_batches(whole) == batches@ + spec_batches(rest@),
            active ==> spec_fetch_calls(whole) == calls as int + spec_fetch_calls(rest@),
            !active ==> batches@ == spec_batches(whole),
            !active ==> calls as int == spec_fetch_calls(whole),
        decreases rest@.len(),
    {
        let ghost rest0 = rest@;
        let ghost batches0 = batches@;
        let outcome = rest.remove(0);
        proof {
            assert(rest@ =~= rest0.drop_first());
        }
        calls = calls + 1;
        match fetcher.absorb(outcome) {
            Some(b) => {
                proof {
                    assert(spec_batches(rest0) =~= seq![b] + spec_batches(rest0.drop_first()));
                }
                batches.push(b);
                proof {
                    assert(batches@ =~= batches0 + seq![b]);
                    assert(batches@ + spec_batches(rest@) =~= batches0 + spec_batches(rest0));
                }
            },
            None => {
                active = false;
                proof {
                    assert(batches0 + spec_batches(rest0) =~= batches0);
                }
            },
        }
    }
    if active {
        proof {
            assert(batches@ + spec_batches(rest@) =~= batches@);
        }
    }
    (batches, calls)
}

} // verus!
