//! The adaptive upsert policy: retry-by-splitting on transport size errors.
//!
//! A whole batch is first attempted as one multi-row statement. When the
//! store rejects a statement, the failure is classified by its reported
//! reason: only a size-class failure — the statement or its parameters
//! exceeded the transport's limits — is retried, by bisecting the rejected
//! range into two halves, attempted sequentially, first half first. Below a
//! floor of `SPLIT_FLOOR` records no further split is attempted and the
//! error is surfaced. Every other failure aborts the batch at once.
//!
//! The policy is driven as an explicit work stack of pending ranges, so the
//! bisection needs no recursion: the caller attempts the top range, reports
//! success or failure, and reads the next range to attempt.

use vstd::prelude::*;
use vstd::string::StrSliceExecFns;

verus! {

/// The batch length at and below which a size-rejected range is no longer
/// split and the error is surfaced instead.
pub const SPLIT_FLOOR: usize = 100;

/// Whether `p` occurs in `s` starting at position `i`.
pub open spec fn is_substring_at(s: Seq<char>, p: Seq<char>, i: int) -> bool {
    0 <= i && i + p.len() <= s.len() && s.subrange(i, i + p.len() as int) == p
}

/// Whether `p` occurs anywhere in `s`.
pub open spec fn contains_seq(s: Seq<char>, p: Seq<char>) -> bool {
    exists|i: int| is_substring_at(s, p, i)
}

/// Whether `p` occurs in `s` at position `i`.
#[verifier::loop_isolation(false)]
fn match_at(s: &str, p: &str, m: usize, i: usize) -> (r: bool)
    requires
        m == p@.len(),
        i + m <= s@.len(),
        s@.len() <= usize::MAX as int,
    ensures
        r == is_substring_at(s@, p@, i as int),
{
    let mut j: usize = 0;
    while j < m
        invariant
            j <= m,
            forall|t: int| 0 <= t < j as int ==> s@[i + t] == p@[t],
        decreases m - j,
    {
        if s.get_char(i + j) != p.get_char(j) {
            proof {
                if is_substring_at(s@, p@, i as int) {
                    assert(s@.subrange(i as int, i as int + p@.len() as int)[j as int]
                        == p@[j as int]);
                }
            }
            return false;
        }
        j += 1;
    }
    proof {
        assert(s@.subrange(i as int, i as int + p@.len() as int) =~= p@);
    }
    true
}

/// Whether `p` occurs anywhere in `s`.
#[verifier::loop_isolation(false)]
pub fn str_contains(s: &str, p: &str) -> (r: bool)
    ensures
        r == contains_seq(s@, p@),
{
    let n = s.unicode_len();
    let m = p.unicode_len();
    if m == 0 {
        proof {
            assert(s@.subrange(0, 0) =~= p@);
            assert(is_substring_at(s@, p@, 0));
        }
        return true;
    }
    if m > n {
        proof {
            assert forall|i: int| !is_substring_at(s@, p@, i) by {}
        }
        return false;
    }
    let mut i: usize = 0;
    while i <= n - m
        invariant
            1 <= m <= n,
            i <= n - m + 1,
            forall|k: int| 0 <= k < i as int ==> !is_substring_at(s@, p@, k),
        decreases n - m - i + 1,
    {
        if match_at(s, p, m, i) {
            proof {
                assert(contains_seq(s@, p@));
            }
            return true;
        }
        i += 1;
    }
    proof {
        assert forall|k: int| !is_substring_at(s@, p@, k) by {
            if 0 <= k && k + p@.len() <= s@.len() {
                assert(k < i as int);
            }
        }
    }
    false
}

/// Whether a store failure, by its reported message, is a size-class
/// failure: the statement or its parameters exceeded the transport's limits.
pub open spec fn spec_is_size_error(msg: Seq<char>) -> bool {
    contains_seq(msg, "invalid message length: parameters is not drained"@)
        || contains_seq(msg, "value too large to transmit"@)
}

/// Classifies a store failure by its reported message.
pub fn is_size_class_error(msg: &str) -> (r: bool)
    ensures
        r == spec_is_size_error(msg@),
{
    if str_contains(msg, "invalid message length: parameters is not drained") {
        true
    } else {
        str_contains(msg, "value too large to transmit")
    }
}

/// What the writer does after a failed attempt: retry the two halves of the
/// rejected range, or give up on the batch and surface the error.
#[derive(Debug, PartialEq, Eq, Structural, Clone, Copy)]
pub enum FailureStep {
    Split,
    Abort,
}

/// The bisection step on a stack of pending ranges: the top range is
/// replaced by its two halves — first half on top, to be attempted first —
/// when the failure is size-class and the range is longer than the floor;
/// any other failure leaves the stack as it is and aborts.
pub open spec fn spec_failure_step(stack: Seq<(usize, usize)>, size_error: bool)
    -> (FailureStep, Seq<(usize, usize)>)
    recommends
        stack.len() > 0,
{
    let (lo, hi) = stack.last();
    if size_error && hi - lo > SPLIT_FLOOR {
        let mid = (lo + (hi - lo) / 2) as usize;
        (FailureStep::Split, stack.drop_last().push((mid, hi)).push((lo, mid)))
    } else {
        (FailureStep::Abort, stack)
    }
}

/// One in-progress adaptive upsert of a batch of `len` records: the stack of
/// ranges still to be written, top first.
pub struct UpsertSession {
    len: usize,
    stack: Vec<(usize, usize)>,
}

impl View for UpsertSession {
    type V = Seq<(usize, usize)>;

    closed spec fn view(&self) -> Seq<(usize, usize)> {
        self.stack@
    }
}

impl UpsertSession {
    /// The batch length this session writes.
    pub closed spec fn batch_len(&self) -> int {
        self.len as int
    }

    /// Every pending range is a nonempty range of the batch.
    pub open spec fn wf(&self) -> bool {
        forall|k: int|
            0 <= k < self@.len() ==> (#[trigger] self@[k]).0 < self@[k].1
                && self@[k].1 <= self.batch_len()
    }

    /// The pending ranges tile the not-yet-written tail of the batch: the
    /// bottom range ends at the batch's end, and each range starts where the
    /// range above it on the stack ends. Writing always proceeds from the
    /// top, so the batch is covered exactly once, in order.
    pub open spec fn contiguous(&self) -> bool {
        &&& (self@.len() > 0 ==> self@[0].1 == self.batch_len())
        &&& forall|j: int|
            0 <= j < self@.len() - 1 ==> (#[trigger] self@[j]).0 == self@[j + 1].1
    }

    /// Starts an upsert of a whole batch: one pending range covering it.
    pub fn start(len: usize) -> (s: UpsertSession)
        requires
            1 <= len,
        ensures
            s@ =~= seq![(0usize, len)],
            s.wf(),
            s.contiguous(),
            s.batch_len() == len as int,
    {
        let mut stack: Vec<(usize, usize)> = Vec::new();
        stack.push((0, len));
        UpsertSession { len, stack }
    }

    /// The next range to attempt, if any range is still pending.
    pub fn next_range(&self) -> (r: Option<(usize, usize)>)
        ensures
            self@.len() == 0 ==> r is None,
            self@.len() > 0 ==> r == Some(self@.last()),
    {
        if self.stack.len() == 0 {
            None
        } else {
            Some(self.stack[self.stack.len() - 1])
        }
    }

    /// Records that the top range was written: it is no longer pending.
    pub fn on_success(&mut self)
        requires
            old(self)@.len() > 0,
        ensures
            final(self)@ == old(self)@.drop_last(),
            final(self).batch_len() == old(self).batch_len(),
            old(self).wf() ==> final(self).wf(),
            old(self).contiguous() ==> final(self).contiguous(),
    {
        self.stack.pop();
    }

    /// Records that the attempt on the top range failed, classified by
    /// whether the store reported a size-class failure. A size-rejected
    /// range longer than the floor is replaced by its two halves and the
    /// write goes on; anything else aborts the batch with the stack
    /// unchanged, and the caller surfaces the store's error.
    pub fn on_failure(&mut self, size_error: bool) -> (r: FailureStep)
        requires
            old(self)@.len() > 0,
            old(self).wf(),
        ensures
            (r, final(self)@) == spec_failure_step(old(self)@, size_error),
            final(self).batch_len() == old(self).batch_len(),
            final(self).wf(),
            old(self).contiguous() ==> final(self).contiguous(),
    {
        let (lo, hi) = self.stack[self.stack.len() - 1];
        if size_error && hi - lo > SPLIT_FLOOR {
            let mid = lo + (hi - lo) / 2;
            self.stack.pop();
            self.stack.push((mid, hi));
            self.stack.push((lo, mid));
            proof {
                assert(self@ =~= spec_failure_step(old(self)@, size_error).1);
            }
            FailureStep::Split
        } else {
            FailureStep::Abort
        }
    }
}

/// Law: a size-rejected range longer than the floor is bisected into exactly
/// two pending sub-ranges that together cover exactly the rejected range,
/// attempted first half first, and whose lengths differ by at most one.
pub proof fn lemma_size_error_bisects(stack: Seq<(usize, usize)>)
    requires
        stack.len() > 0,
        stack.last().1 - stack.last().0 > SPLIT_FLOOR,
    ensures
        ({
            let (lo, hi) = stack.last();
            let (step, after) = spec_failure_step(stack, true);
            let first = after.last();
            let second = after[after.len() - 2];
            step is Split && after.len() == stack.len() + 1 && after.drop_last().drop_last()
                == stack.drop_last() && first.0 == lo && first.1 == second.0 && second.1 == hi
                && (first.1 - first.0) + (second.1 - second.0) == hi - lo && (second.1 - second.0)
                - (first.1 - first.0) <= 1 && (first.1 - first.0) <= (second.1 - second.0)
        }),
{
    let (lo, hi) = stack.last();
    let (step, after) = spec_failure_step(stack, true);
    assert(after.drop_last().drop_last() =~= stack.drop_last());
}

/// Law: a size-class failure on a range no longer than the floor, and any
/// failure that is not size-class, aborts with the pending ranges unchanged,
/// so the store's error is surfaced without any further attempt.
pub proof fn lemma_floor_or_foreign_error_aborts(stack: Seq<(usize, usize)>, size_error: bool)
    requires
        stack.len() > 0,
        !(size_error && stack.last().1 - stack.last().0 > SPLIT_FLOOR),
    ensures
        spec_failure_step(stack, size_error) == (FailureStep::Abort, stack),
{
}

} // verus!
