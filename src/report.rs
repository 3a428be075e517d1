//! The summary of a finished run.
use vstd::prelude::*;
use crate::model::DownloadOutcome;

verus! {

/// How many items of a run ended in each way.
#[derive(Clone, Copy, Debug, PartialEq, Eq, Structural)]
pub struct Tally {
    pub saved: usize,
    pub skipped: usize,
    pub failed: usize,
}

/// The three ways in which an item ends.
#[derive(Clone, Copy, Debug, PartialEq, Eq, Structural)]
pub enum OutcomeKind {
    Saved,
    Skipped,
    Failed,
}

/// The way in which `o` ended.
pub open spec fn kind_of(o: DownloadOutcome) -> OutcomeKind {
    match o {
        DownloadOutcome::Saved(_) => OutcomeKind::Saved,
        DownloadOutcome::Skipped(_) => OutcomeKind::Skipped,
        DownloadOutcome::Failed(_) => OutcomeKind::Failed,
    }
}

/// The number of outcomes in `s` of kind `k`.
pub open spec fn count_kind(s: Seq<DownloadOutcome>, k: OutcomeKind) -> nat
    decreases s.len(),
{
    if s.len() == 0 {
        0
    } else {
        count_kind(s.drop_last(), k) + if kind_of(s.last()) == k { 1nat } else { 0nat }
    }
}

proof fn lemma_count_bounded(s: Seq<DownloadOutcome>, k: OutcomeKind)
    ensures
        count_kind(s, k) <= s.len(),
    decreases s.len(),
{
    if s.len() > 0 {
        lemma_count_bounded(s.drop_last(), k);
    }
}

/// Counts the saved, skipped and failed items among `outcomes`.
pub fn tally(outcomes: &Vec<DownloadOutcome>) -> (t: Tally)
    ensures
        t.saved == count_kind(outcomes@, OutcomeKind::Saved),
        t.skipped == count_kind(outcomes@, OutcomeKind::Skipped),
        t.failed == count_kind(outcomes@, OutcomeKind::Failed),
{
    let mut t = Tally { saved: 0, skipped: 0, failed: 0 };
    let mut i: usize = 0;
    while i < outcomes.len()
        invariant
            i <= outcomes@.len(),
            t.saved == count_kind(outcomes@.take(i as int), OutcomeKind::Saved),
            t.skipped == count_kind(outcomes@.take(i as int), OutcomeKind::Skipped),
            t.failed == count_kind(outcomes@.take(i as int), OutcomeKind::Failed),
        decreases outcomes@.len() - i,
    {
        proof {
            assert(outcomes@.take(i + 1).drop_last() =~= outcomes@.take(i as int));
            lemma_count_bounded(outcomes@.take(i as int), OutcomeKind::Saved);
            lemma_count_bounded(outcomes@.take(i as int), OutcomeKind::Skipped);
            lemma_count_bounded(outcomes@.take(i as int), OutcomeKind::Failed);
        }
        match &outcomes[i] {
            DownloadOutcome::Saved(_) => t.saved = t.saved + 1,
            DownloadOutcome::Skipped(_) => t.skipped = t.skipped + 1,
            DownloadOutcome::Failed(_) => t.failed = t.failed + 1,
        }
        i = i + 1;
    }
    assert(outcomes@.take(i as int) =~= outcomes@);
    t
}

} // verus!
