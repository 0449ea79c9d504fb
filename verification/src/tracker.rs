use vstd::prelude::*;

use crate::params::ParameterVector;
use crate::score::WORST_SCORE;

verus! {

/// The mathematical image of a best record: the parameter scalars and the
/// score of the best observation so far.
#[verifier::ext_equal]
pub struct BestView {
    pub params: Seq<u64>,
    pub score: u64,
}

/// One completed trial as the tracker sees it: the parameter scalars, the
/// sanitized score, and whether every per-dimension model accepted the
/// paired tell.
#[verifier::ext_equal]
pub struct TrialView {
    pub params: Seq<u64>,
    pub score: u64,
    pub accepted: bool,
}

/// How one trial changes the best record: only a trial whose tell was
/// accepted may update it, and only on strict improvement, so ties keep the
/// earlier record and a rejected trial's score can never corrupt it.
pub open spec fn step_best(b: BestView, t: TrialView) -> BestView {
    if t.accepted && t.score < b.score {
        BestView { params: t.params, score: t.score }
    } else {
        b
    }
}

/// The best record after a whole sequence of trials, applied in order.
pub open spec fn fold_best(b: BestView, s: Seq<TrialView>) -> BestView
    decreases s.len(),
{
    if s.len() == 0 {
        b
    } else {
        step_best(fold_best(b, s.drop_last()), s.last())
    }
}

/// The single best (parameter vector, score) pair observed so far, under
/// strict minimization ordering. It is only ever touched from the loop's
/// single sequential tell-and-record phase, never concurrently.
pub struct BestTracker {
    pub best_params: ParameterVector,
    pub best_score: u64,
}

impl View for BestTracker {
    type V = BestView;

    open spec fn view(&self) -> BestView {
        BestView { params: self.best_params@, score: self.best_score }
    }
}

impl BestTracker {
    /// Starts from the given placeholder parameters and the worst possible
    /// score, so any accepted finite observation strictly improves on it.
    pub fn new(initial: ParameterVector) -> (r: BestTracker)
        ensures
            r@.params == initial@,
            r@.score == WORST_SCORE,
    {
        BestTracker { best_params: initial, best_score: WORST_SCORE }
    }

    /// Records one trial: on an accepted tell with a strictly better score
    /// the record is replaced; otherwise — a rejected tell, a tie, or a
    /// worse score — it is left untouched.
    pub fn record(&mut self, params: &ParameterVector, score: u64, accepted: bool)
        ensures
            final(self)@ == step_best(
                old(self)@,
                (TrialView { params: params@, score: score, accepted: accepted }),
            ),
            final(self)@.score <= old(self)@.score,
    {
        if accepted && score < self.best_score {
            self.best_params = params.clone();
            self.best_score = score;
        }
    }
}

/// Law (the best is the minimum): after any sequence of trials, the best
/// score never exceeds the score it started from, never exceeds the score
/// of any accepted trial, and is either the starting score or the score of
/// some accepted trial — it is exactly the minimum of the successfully told
/// scores, taken together with the starting score.
pub proof fn lemma_best_is_min(b: BestView, s: Seq<TrialView>)
    ensures
        fold_best(b, s).score <= b.score,
        forall|i: int|
            0 <= i < s.len() && (#[trigger] s[i]).accepted ==> fold_best(b, s).score <= s[i].score,
        fold_best(b, s).score == b.score || exists|i: int|
            0 <= i < s.len() && (#[trigger] s[i]).accepted && fold_best(b, s).score == s[i].score,
    decreases s.len(),
{
    if s.len() > 0 {
        lemma_best_is_min(b, s.drop_last());
        assert(forall|i: int| 0 <= i < s.len() - 1 ==> s[i] == #[trigger] s.drop_last()[i]);
        assert forall|i: int| 0 <= i < s.len() && (#[trigger] s[i]).accepted implies fold_best(
            b,
            s,
        ).score <= s[i].score by {
            if i < s.len() - 1 {
                assert(s.drop_last()[i] == s[i]);
                assert(fold_best(b, s.drop_last()).score <= s.drop_last()[i].score);
            }
        }
        if fold_best(b, s).score != b.score {
            if fold_best(b, s) == step_best(fold_best(b, s.drop_last()), s.last())
                && s.last().accepted && s.last().score < fold_best(b, s.drop_last()).score {
            }
            if fold_best(b, s.drop_last()).score != b.score && fold_best(b, s).score == fold_best(
                b,
                s.drop_last(),
            ).score {
                let j = choose|j: int|
                    0 <= j < s.drop_last().len() && (#[trigger] s.drop_last()[j]).accepted
                        && fold_best(b, s.drop_last()).score == s.drop_last()[j].score;
                assert(0 <= j < s.len() && s[j].accepted && fold_best(b, s).score == s[j].score);
            }
        }
    }
}

} // verus!
