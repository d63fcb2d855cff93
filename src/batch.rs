//! The outcome of applying one operation to every file of a batch.
use vstd::prelude::*;
use crate::workload::Strategy;

verus! {

/// What became of one item of a batch.
#[derive(Debug, Clone, Copy, PartialEq, Eq)]
pub enum ItemStatus {
    /// The operation succeeded.
    Done,
    /// The operation failed with this OS error code.
    Failed(i32),
    /// The operation was never started, because the batch stopped early.
    NotRun,
}

/// What a batch does once an item has failed.
#[derive(Debug, Clone, Copy, PartialEq, Eq)]
pub enum Policy {
    /// Start no further items.
    FailFast,
    /// Run every item regardless, and report all failures at the end.
    KeepGoing,
}

/// The policy that each strategy runs its batches under.
pub open spec fn policy_of_spec(s: Strategy) -> Policy {
    match s {
        Strategy::Sequential => Policy::KeepGoing,
        _ => Policy::FailFast,
    }
}

/// The policy that each strategy runs its batches under: the parallel ones
/// stop at the first failure, the sequential one goes on.
pub fn policy_of(s: Strategy) -> (r: Policy)
    ensures
        r == policy_of_spec(s),
{
    match s {
        Strategy::Sequential => Policy::KeepGoing,
        _ => Policy::FailFast,
    }
}

/// Whether a batch under `policy` starts further items after one ends with
/// `status`.
pub open spec fn continues_after_spec(policy: Policy, status: ItemStatus) -> bool {
    policy == Policy::KeepGoing || status == ItemStatus::Done
}

/// Whether a batch under `policy` starts further items after one ends with
/// `status`.
pub fn continues_after(policy: Policy, status: ItemStatus) -> (r: bool)
    ensures
        r == continues_after_spec(policy, status),
{
    match policy {
        Policy::KeepGoing => true,
        Policy::FailFast => match status {
            ItemStatus::Done => true,
            _ => false,
        },
    }
}

/// How many items of `s` failed.
pub open spec fn failed_count(s: Seq<ItemStatus>) -> nat
    decreases s.len(),
{
    if s.len() == 0 {
        0
    } else {
        failed_count(s.drop_last()) + if s.last() is Failed { 1nat } else { 0nat }
    }
}

/// How many items of `s` were never started.
pub open spec fn skipped_count(s: Seq<ItemStatus>) -> nat
    decreases s.len(),
{
    if s.len() == 0 {
        0
    } else {
        skipped_count(s.drop_last()) + if s.last() is NotRun { 1nat } else { 0nat }
    }
}

/// Whether every item of `s` succeeded.
pub open spec fn all_done(s: Seq<ItemStatus>) -> bool {
    forall|i: int| 0 <= i < s.len() ==> #[trigger] s[i] == ItemStatus::Done
}

/// Whether `(index, code)` is the first failure of `s`.
pub open spec fn is_first_failure(s: Seq<ItemStatus>, index: int, code: i32) -> bool {
    &&& 0 <= index < s.len()
    &&& s[index] == ItemStatus::Failed(code)
    &&& forall|j: int| 0 <= j < index ==> !(#[trigger] s[j] is Failed)
}

/// The summary of a batch.
#[derive(Debug, Clone, Copy, PartialEq, Eq)]
pub enum BatchReport {
    /// Every item succeeded; this many items ran.
    Complete(usize),
    /// Some item failed or never ran.
    Incomplete {
        /// The lowest index that failed, with its error code, if any failed.
        first_failure: Option<(usize, i32)>,
        /// How many items failed.
        failed: usize,
        /// How many items never ran.
        skipped: usize,
    },
}

proof fn lemma_counts_step(s: Seq<ItemStatus>, i: int)
    requires
        0 <= i < s.len(),
    ensures
        failed_count(s.subrange(0, i + 1)) == failed_count(s.subrange(0, i)) + if s[i] is Failed {
            1nat
        } else {
            0nat
        },
        skipped_count(s.subrange(0, i + 1)) == skipped_count(s.subrange(0, i)) + if s[i] is NotRun {
            1nat
        } else {
            0nat
        },
        failed_count(s.subrange(0, i)) <= i,
        skipped_count(s.subrange(0, i)) <= i,
{
    assert(s.subrange(0, i + 1).drop_last() =~= s.subrange(0, i));
    lemma_counts_bounded(s.subrange(0, i));
}

proof fn lemma_counts_bounded(s: Seq<ItemStatus>)
    ensures
        failed_count(s) + skipped_count(s) <= s.len(),
    decreases s.len(),
{
    if s.len() > 0 {
        lemma_counts_bounded(s.drop_last());
    }
}

/// A sequence whose items all succeeded has neither failures nor skipped items,
/// and any other has at least one of them.
pub proof fn lemma_gap_is_counted(s: Seq<ItemStatus>)
    ensures
        all_done(s) <==> failed_count(s) + skipped_count(s) == 0,
    decreases s.len(),
{
    if s.len() > 0 {
        let p = s.drop_last();
        lemma_gap_is_counted(p);
        assert forall|i: int| 0 <= i < p.len() implies p[i] == s[i] by {}
        if all_done(p) && s.last() == ItemStatus::Done {
            assert forall|i: int| 0 <= i < s.len() implies #[trigger] s[i] == ItemStatus::Done by {
                if i < p.len() {
                    assert(p[i] == s[i]);
                }
            }
        }
        if all_done(s) {
            assert(s[s.len() - 1] == ItemStatus::Done);
            assert forall|i: int| 0 <= i < p.len() implies #[trigger] p[i] == ItemStatus::Done by {
                assert(s[i] == ItemStatus::Done);
            }
        }
    }
}

/// Summarises the statuses of a batch: complete exactly when every item
/// succeeded, else the first failure and how many items failed or never ran.
pub fn summarize(statuses: &Vec<ItemStatus>) -> (r: BatchReport)
    ensures
        r is Complete <==> all_done(statuses@),
        r is Complete ==> r->Complete_0 == statuses@.len(),
        r is Incomplete ==> {
            &&& r->failed == failed_count(statuses@)
            &&& r->skipped == skipped_count(statuses@)
            &&& r->failed + r->skipped > 0
            &&& match r->first_failure {
                Some((i, c)) => is_first_failure(statuses@, i as int, c),
                None => forall|j: int| 0 <= j < statuses@.len() ==> !(#[trigger] statuses@[j] is Failed),
            }
        },
{
    let ghost s = statuses@;
    let mut failed: usize = 0;
    let mut skipped: usize = 0;
    let mut first: Option<(usize, i32)> = None;
    let mut i: usize = 0;
    while i < statuses.len()
        invariant
            s == statuses@,
            i <= s.len(),
            failed == failed_count(s.subrange(0, i as int)),
            skipped == skipped_count(s.subrange(0, i as int)),
            match first {
                Some((k, c)) => is_first_failure(s, k as int, c) && k < i,
                None => forall|j: int| 0 <= j < i ==> !(#[trigger] s[j] is Failed),
            },
        decreases s.len() - i,
    {
        proof {
            lemma_counts_step(s, i as int);
        }
        match statuses[i] {
            ItemStatus::Done => {},
            ItemStatus::Failed(code) => {
                if first.is_none() {
                    first = Some((i, code));
                }
                failed = failed + 1;
            },
            ItemStatus::NotRun => {
                skipped = skipped + 1;
            },
        }
        i = i + 1;
    }
    proof {
        assert(s.subrange(0, s.len() as int) =~= s);
        lemma_gap_is_counted(s);
    }
    if failed == 0 && skipped == 0 {
        BatchReport::Complete(statuses.len())
    } else {
        BatchReport::Incomplete { first_failure: first, failed, skipped }
    }
}

} // verus!
