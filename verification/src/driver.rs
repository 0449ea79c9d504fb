use vstd::arithmetic::div_mod::lemma_basic_div;
use vstd::arithmetic::div_mod::lemma_fundamental_div_mod_converse_div;
use vstd::prelude::*;

use crate::params::ParameterVector;
use crate::score::WORST_SCORE;
use crate::tracker::BestTracker;
use crate::tracker::TrialView;
use crate::tracker::fold_best;
use crate::tracker::step_best;

verus! {

/// One completed trial, ready to be recorded: the vector the models
/// suggested, the sanitized score its evaluation produced, and whether
/// every per-dimension model accepted the paired tell.
pub struct TrialRecord {
    pub params: ParameterVector,
    pub score: u64,
    pub accepted: bool,
}

impl View for TrialRecord {
    type V = TrialView;

    open spec fn view(&self) -> TrialView {
        TrialView { params: self.params@, score: self.score, accepted: self.accepted }
    }
}

/// The sequential heart of the batch evaluation loop: the trial budget, the
/// batch size, the count of completed trials — the sole termination signal,
/// checked only between batches — and the best record. The loop's owner
/// asks for a batch of candidates, evaluates them concurrently, and hands
/// every outcome back here in the fixed order in which the batch was
/// issued; everything recorded here happens on the single sequential
/// control thread.
pub struct BatchEvaluationLoop {
    pub budget: usize,
    pub batch_size: usize,
    pub trials_complete: usize,
    pub tracker: BestTracker,
}

impl BatchEvaluationLoop {
    /// Batches are never empty, and the counter never runs past the last
    /// batch: it stays at most one batch short of the budget's overshoot
    /// window, so a whole further batch can always be counted without
    /// overflow.
    pub open spec fn wf(self) -> bool {
        &&& self.batch_size >= 1
        &&& self.budget + self.batch_size <= usize::MAX
        &&& self.trials_complete <= self.budget + self.batch_size - 1
    }

    /// A fresh loop: no trial completed yet, and the best record starts
    /// from the given placeholder parameters at the worst possible score.
    pub fn new(budget: usize, batch_size: usize, initial: ParameterVector) -> (r:
        BatchEvaluationLoop)
        requires
            batch_size >= 1,
            budget + batch_size <= usize::MAX,
        ensures
            r.wf(),
            r.budget == budget,
            r.batch_size == batch_size,
            r.trials_complete == 0,
            r.tracker@.params == initial@,
            r.tracker@.score == WORST_SCORE,
    {
        BatchEvaluationLoop {
            budget,
            batch_size,
            trials_complete: 0,
            tracker: BestTracker::new(initial),
        }
    }

    /// Whether another batch must be issued: exactly when the completed
    /// trials still fall short of the budget. The budget is never checked
    /// mid-batch, so a run may overshoot it by at most one batch less one
    /// trial.
    pub fn needs_batch(&self) -> (r: bool)
        ensures
            r == (self.trials_complete < self.budget),
    {
        self.trials_complete < self.budget
    }

    /// Records one completed trial. The trial counts toward the budget
    /// whether or not its tell was accepted — completion means evaluated —
    /// but only an accepted trial may improve the best record, so a
    /// rejected trial's score never corrupts it.
    pub fn record_trial(&mut self, params: &ParameterVector, score: u64, accepted: bool)
        requires
            old(self).trials_complete < usize::MAX,
        ensures
            final(self).trials_complete == old(self).trials_complete + 1,
            final(self).tracker@ == step_best(
                old(self).tracker@,
                (TrialView { params: params@, score: score, accepted: accepted }),
            ),
            final(self).budget == old(self).budget,
            final(self).batch_size == old(self).batch_size,
    {
        self.tracker.record(params, score, accepted);
        self.trials_complete = self.trials_complete + 1;
    }

    /// Records one whole completed batch, in the fixed order in which the
    /// batch's evaluations were issued. The counter advances by exactly the
    /// batch size — no drift, no double count, no skipped trial — and the
    /// best record becomes the fold of the batch's trials over the old
    /// record.
    pub fn record_batch(&mut self, results: &Vec<TrialRecord>)
        requires
            old(self).wf(),
            old(self).trials_complete < old(self).budget,
            results@.len() == old(self).batch_size,
        ensures
            final(self).wf(),
            final(self).trials_complete == old(self).trials_complete + old(self).batch_size,
            final(self).tracker@ == fold_best(
                old(self).tracker@,
                results@.map_values(|t: TrialRecord| t@),
            ),
            final(self).budget == old(self).budget,
            final(self).batch_size == old(self).batch_size,
    {
        let ghost s = results@.map_values(|t: TrialRecord| t@);
        let mut j: usize = 0;
        while j < results.len()
            invariant
                j <= results@.len(),
                s == results@.map_values(|t: TrialRecord| t@),
                s.len() == results@.len(),
                results@.len() == old(self).batch_size,
                old(self).wf(),
                old(self).trials_complete < old(self).budget,
                self.trials_complete == old(self).trials_complete + j,
                self.tracker@ == fold_best(old(self).tracker@, s.take(j as int)),
                self.budget == old(self).budget,
                self.batch_size == old(self).batch_size,
            decreases results@.len() - j,
        {
            let t = &results[j];
            assert(s[j as int] == results@[j as int]@);
            assert(s.take((j + 1) as int).drop_last() =~= s.take(j as int));
            assert(s.take((j + 1) as int).last() == s[j as int]);
            self.record_trial(&t.params, t.score, t.accepted);
            j = j + 1;
        }
        assert(s.take(s.len() as int) =~= s);
    }
}

/// The number of batches a run still performs once `trials` trials are
/// complete: one more whenever the counter falls short of the budget, each
/// batch advancing the counter by the batch size.
pub open spec fn batches_remaining(trials: nat, budget: nat, batch: nat) -> nat
    decreases (if trials < budget {
        budget - trials
    } else {
        0
    }),
{
    if batch == 0 {
        0
    } else if trials >= budget {
        0
    } else {
        1 + batches_remaining(trials + batch, budget, batch)
    }
}

/// The trial counter after `n` completed batches of the given size, counted
/// batch by batch as the loop counts it.
pub open spec fn counter_after(n: nat, batch: nat) -> nat
    decreases n,
{
    if n == 0 {
        0
    } else {
        counter_after((n - 1) as nat, batch) + batch
    }
}

/// Law (exact counting): after `n` completed batches of size `batch` the
/// trial counter reads exactly `n * batch` — no drift, no double count, no
/// skipped trial.
pub proof fn lemma_counter_exact(n: nat, batch: nat)
    ensures
        counter_after(n, batch) == n * batch,
    decreases n,
{
    if n == 0 {
        assert(n * batch == 0) by (nonlinear_arith)
            requires
                n == 0,
        ;
    } else {
        lemma_counter_exact((n - 1) as nat, batch);
        assert(n * batch == (n - 1) * batch + batch) by (nonlinear_arith)
            requires
                n >= 1,
        ;
    }
}

/// The run from `trials` completed trials stops at or past the budget, and
/// entered its final batch strictly short of the budget.
pub proof fn lemma_batches_remaining_bounds(trials: nat, budget: nat, batch: nat)
    requires
        batch >= 1,
    ensures
        trials + batches_remaining(trials, budget, batch) * batch >= budget,
        batches_remaining(trials, budget, batch) >= 1 ==> trials + (batches_remaining(
            trials,
            budget,
            batch,
        ) - 1) * batch < budget,
    decreases (if trials < budget {
        budget - trials
    } else {
        0
    }),
{
    let k = batches_remaining(trials, budget, batch);
    if trials >= budget {
        assert(k == 0);
        assert(k * batch == 0) by (nonlinear_arith)
            requires
                k == 0,
        ;
    } else {
        let k2 = batches_remaining(trials + batch, budget, batch);
        lemma_batches_remaining_bounds(trials + batch, budget, batch);
        assert(k == k2 + 1);
        assert(k * batch == k2 * batch + batch) by (nonlinear_arith)
            requires
                k == k2 + 1,
        ;
        if k2 >= 1 {
            assert(k2 * batch == (k2 - 1) * batch + batch) by (nonlinear_arith)
                requires
                    k2 >= 1,
            ;
        } else {
            assert(k2 * batch == 0) by (nonlinear_arith)
                requires
                    k2 == 0,
            ;
        }
    }
}

/// Law (loop termination): with a batch size of at least one, a run from
/// zero completed trials performs exactly the rounded-up quotient of budget
/// by batch size, and terminates with a trial counter in the window from
/// the budget up to budget plus batch size less one — the final batch may
/// overshoot the budget, since the budget is checked only between batches,
/// but never by a whole batch.
pub proof fn lemma_loop_termination(budget: nat, batch: nat)
    requires
        batch >= 1,
    ensures
        batches_remaining(0, budget, batch) == (budget + batch - 1) / (batch as int),
        budget <= batches_remaining(0, budget, batch) * batch,
        batches_remaining(0, budget, batch) * batch <= budget + batch - 1,
{
    let k = batches_remaining(0, budget, batch);
    lemma_batches_remaining_bounds(0, budget, batch);
    if budget == 0 {
        assert(k == 0);
        assert(k * batch == 0) by (nonlinear_arith)
            requires
                k == 0,
        ;
        lemma_basic_div((batch - 1) as int, batch as int);
    } else {
        assert(k >= 1) by {
            if k == 0 {
                assert(k * batch == 0) by (nonlinear_arith)
                    requires
                        k == 0,
                ;
            }
        }
        let x = budget + batch - 1;
        assert(k * batch == (k - 1) * batch + batch) by (nonlinear_arith)
            requires
                k >= 1,
        ;
        let r = x - k * batch;
        assert(0 <= r < batch);
        lemma_fundamental_div_mod_converse_div(x as int, batch as int, k as int, r as int);
    }
}

} // verus!
