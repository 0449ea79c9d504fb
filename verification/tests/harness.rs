use batch_opt::bounds::Bound;
use batch_opt::driver::BatchEvaluationLoop;
use batch_opt::driver::TrialRecord;
use batch_opt::joint::AskOutcome;
use batch_opt::joint::JointOptimizer;
use batch_opt::params::ParameterVector;
use batch_opt::score::sanitize_score;
use batch_opt::score::WORST_SCORE;
use batch_opt::tracker::BestTracker;

/// The order code of a floating-point value: an unsigned integer whose
/// order agrees with the value's order, with the finite values mapped
/// strictly between the codes of the two infinities.
fn code_of(x: f64) -> u64 {
    let b = x.to_bits();
    if b >> 63 == 1 {
        !b
    } else {
        b | 0x8000_0000_0000_0000
    }
}

fn unit_bounds(n: usize) -> Vec<Bound> {
    let mut v = Vec::new();
    for _ in 0..n {
        v.push(Bound {
            low: code_of(0.0),
            high: code_of(1.0),
        });
    }
    v
}

fn vector_of(values: &[f64]) -> ParameterVector {
    let mut codes = Vec::new();
    for &x in values {
        codes.push(code_of(x));
    }
    ParameterVector::new(codes)
}

#[test]
fn construction_succeeds_on_valid_bounds() {
    let joint = JointOptimizer::new(unit_bounds(4));
    match joint {
        Ok(o) => assert_eq!(o.dims(), 4),
        Err(_) => panic!("valid bounds must construct"),
    }
}

#[test]
fn construction_accepts_degenerate_interval() {
    let b = Bound {
        low: code_of(0.25),
        high: code_of(0.25),
    };
    assert!(b.is_valid());
    let joint = JointOptimizer::new(vec![b]);
    assert!(joint.is_ok());
}

#[test]
fn construction_rejects_inverted_bound() {
    let mut bounds = unit_bounds(4);
    bounds[2] = Bound {
        low: code_of(1.0),
        high: code_of(0.0),
    };
    match JointOptimizer::new(bounds) {
        Ok(_) => panic!("inverted bound must fail construction"),
        Err(e) => assert_eq!(e.dim, 2),
    }
}

#[test]
fn construction_rejects_non_finite_bound() {
    let mut bounds = unit_bounds(4);
    bounds[1] = Bound {
        low: code_of(0.0),
        high: code_of(f64::INFINITY),
    };
    match JointOptimizer::new(bounds) {
        Ok(_) => panic!("infinite endpoint must fail construction"),
        Err(e) => assert_eq!(e.dim, 1),
    }

    let mut bounds = unit_bounds(4);
    bounds[0] = Bound {
        low: code_of(f64::NAN),
        high: code_of(1.0),
    };
    match JointOptimizer::new(bounds) {
        Ok(_) => panic!("non-numeric endpoint must fail construction"),
        Err(e) => assert_eq!(e.dim, 0),
    }
}

#[test]
fn compose_ask_preserves_dimension_order() {
    let joint = JointOptimizer::new(unit_bounds(3)).unwrap();
    let outcomes = vec![
        AskOutcome::Sample {
            value: code_of(0.1),
        },
        AskOutcome::Sample {
            value: code_of(0.2),
        },
        AskOutcome::Sample {
            value: code_of(0.3),
        },
    ];
    let v = joint.compose_ask(&outcomes).unwrap();
    assert_eq!(v.len(), 3);
    assert_eq!(v.value(0), code_of(0.1));
    assert_eq!(v.value(1), code_of(0.2));
    assert_eq!(v.value(2), code_of(0.3));
}

#[test]
fn compose_ask_reports_first_exhausted_dimension() {
    let joint = JointOptimizer::new(unit_bounds(3)).unwrap();
    let outcomes = vec![
        AskOutcome::Sample {
            value: code_of(0.1),
        },
        AskOutcome::Exhausted,
        AskOutcome::Exhausted,
    ];
    match joint.compose_ask(&outcomes) {
        Ok(_) => panic!("exhaustion must fail the whole batch element"),
        Err(e) => assert_eq!(e.dim, 1),
    }
}

#[test]
fn round_trip_sample_passes_replayed_bound_check() {
    let joint = JointOptimizer::new(unit_bounds(4)).unwrap();
    let outcomes = vec![
        AskOutcome::Sample {
            value: code_of(0.0),
        },
        AskOutcome::Sample {
            value: code_of(0.5),
        },
        AskOutcome::Sample {
            value: code_of(1.0),
        },
        AskOutcome::Sample {
            value: code_of(0.75),
        },
    ];
    let v = joint.compose_ask(&outcomes).unwrap();
    assert_eq!(joint.check_vector(&v), None);
}

#[test]
fn check_vector_reports_first_out_of_bounds_dimension() {
    let joint = JointOptimizer::new(unit_bounds(3)).unwrap();
    let v = vector_of(&[0.5, 1.5, 2.5]);
    assert_eq!(joint.check_vector(&v), Some(1));
}

#[test]
fn sanitize_keeps_finite_scores() {
    assert_eq!(sanitize_score(code_of(0.5)), code_of(0.5));
    assert_eq!(sanitize_score(code_of(-0.5)), code_of(-0.5));
    assert_eq!(sanitize_score(code_of(0.0)), code_of(0.0));
    assert_eq!(sanitize_score(code_of(f64::MAX)), code_of(f64::MAX));
    assert_eq!(sanitize_score(code_of(-f64::MAX)), code_of(-f64::MAX));
}

#[test]
fn sanitize_replaces_non_finite_scores() {
    assert_eq!(sanitize_score(code_of(f64::NAN)), WORST_SCORE);
    assert_eq!(sanitize_score(code_of(-f64::NAN)), WORST_SCORE);
    assert_eq!(sanitize_score(code_of(f64::INFINITY)), WORST_SCORE);
    assert_eq!(sanitize_score(code_of(f64::NEG_INFINITY)), WORST_SCORE);
}

#[test]
fn worst_sentinel_is_positive_infinity_code() {
    assert_eq!(WORST_SCORE, code_of(f64::INFINITY));
}

#[test]
fn tracker_starts_at_worst_score() {
    let t = BestTracker::new(vector_of(&[0.0, 0.0]));
    assert_eq!(t.best_score, WORST_SCORE);
    assert_eq!(t.best_params.value(0), code_of(0.0));
}

#[test]
fn tracker_updates_only_on_strict_improvement() {
    let mut t = BestTracker::new(vector_of(&[0.0]));
    t.record(&vector_of(&[0.3]), code_of(-0.3), true);
    assert_eq!(t.best_score, code_of(-0.3));
    assert_eq!(t.best_params.value(0), code_of(0.3));

    // A tie keeps the earlier record.
    t.record(&vector_of(&[0.9]), code_of(-0.3), true);
    assert_eq!(t.best_params.value(0), code_of(0.3));

    // A worse score keeps the earlier record.
    t.record(&vector_of(&[0.9]), code_of(-0.1), true);
    assert_eq!(t.best_score, code_of(-0.3));
    assert_eq!(t.best_params.value(0), code_of(0.3));

    // A strictly better score replaces it.
    t.record(&vector_of(&[0.6]), code_of(-0.6), true);
    assert_eq!(t.best_score, code_of(-0.6));
    assert_eq!(t.best_params.value(0), code_of(0.6));
}

#[test]
fn tracker_ignores_rejected_trials() {
    let mut t = BestTracker::new(vector_of(&[0.0]));
    t.record(&vector_of(&[0.4]), code_of(-0.9), false);
    assert_eq!(t.best_score, WORST_SCORE);
    assert_eq!(t.best_params.value(0), code_of(0.0));
}

#[test]
fn tracker_best_is_min_of_told_scores() {
    let scores = [-0.2, 0.4, -0.7, -0.5, 0.1];
    let mut t = BestTracker::new(vector_of(&[0.0]));
    for (i, &s) in scores.iter().enumerate() {
        t.record(&vector_of(&[i as f64 / 10.0]), code_of(s), true);
        for &seen in &scores[..=i] {
            assert!(t.best_score <= code_of(seen));
        }
    }
    assert_eq!(t.best_score, code_of(-0.7));
    assert_eq!(t.best_params.value(0), code_of(0.2));
}

fn constant_batch(size: usize, params: &[f64], score: f64, accepted: bool) -> Vec<TrialRecord> {
    let mut batch = Vec::new();
    for _ in 0..size {
        batch.push(TrialRecord {
            params: vector_of(params),
            score: code_of(score),
            accepted,
        });
    }
    batch
}

#[test]
fn counter_advances_exactly_per_batch() {
    let mut state = BatchEvaluationLoop::new(100, 10, vector_of(&[0.0; 4]));
    assert_eq!(state.trials_complete, 0);
    state.record_batch(&constant_batch(10, &[0.5; 4], -0.5, true));
    assert_eq!(state.trials_complete, 10);
    state.record_batch(&constant_batch(10, &[0.5; 4], -0.5, true));
    assert_eq!(state.trials_complete, 20);
}

#[test]
fn loop_runs_ceil_batches_and_stops_in_window() {
    // The budget divides evenly: exactly budget / batch batches, landing on
    // the budget.
    let mut state = BatchEvaluationLoop::new(100, 10, vector_of(&[0.0; 4]));
    let mut batches = 0;
    while state.needs_batch() {
        state.record_batch(&constant_batch(10, &[0.5; 4], -0.5, true));
        batches += 1;
    }
    assert_eq!(batches, 10);
    assert_eq!(state.trials_complete, 100);

    // It does not: one more batch, overshooting by batch - 1 at most.
    let mut state = BatchEvaluationLoop::new(101, 10, vector_of(&[0.0; 4]));
    let mut batches = 0;
    while state.needs_batch() {
        state.record_batch(&constant_batch(10, &[0.5; 4], -0.5, true));
        batches += 1;
    }
    assert_eq!(batches, 11);
    assert_eq!(state.trials_complete, 110);
    assert!(state.trials_complete >= 101 && state.trials_complete <= 110);
}

#[test]
fn budget_is_checked_only_between_batches() {
    let mut state = BatchEvaluationLoop::new(5, 10, vector_of(&[0.0]));
    assert!(state.needs_batch());
    state.record_batch(&constant_batch(10, &[0.5], -0.5, true));
    assert_eq!(state.trials_complete, 10);
    assert!(!state.needs_batch());
}

#[test]
fn scenario_constant_objective_converges() {
    // All bounds [0, 1]; every trial samples a = 0.5, b = 0.5, c = 0.5,
    // d = 0, so the objective c * (a / b) + d evaluates to 0.5 and the
    // negated, sanitized score is -0.5 for every trial.
    let joint = JointOptimizer::new(unit_bounds(4)).unwrap();
    let point = [0.5, 0.5, 0.5, 0.0];
    let objective = point[2] * (point[0] / point[1]) + point[3];
    let raw = -objective;
    let score = sanitize_score(code_of(raw));
    assert_eq!(score, code_of(-0.5));

    let mut state = BatchEvaluationLoop::new(100, 10, vector_of(&[0.0; 4]));
    let mut first_observed = None;
    while state.needs_batch() {
        let vector = joint
            .compose_ask(&point.map(|x| AskOutcome::Sample { value: code_of(x) }).to_vec())
            .unwrap();
        assert_eq!(joint.check_vector(&vector), None);
        state.record_batch(&constant_batch(10, &point, raw, true));
        if first_observed.is_none() {
            first_observed = Some(state.tracker.best_score);
        }
        // Never worse than the first observed score.
        assert!(state.tracker.best_score <= first_observed.unwrap());
    }
    assert_eq!(state.trials_complete, 100);
    assert_eq!(state.tracker.best_score, code_of(-0.5));
    assert_eq!(state.tracker.best_params.value(0), code_of(0.5));
    assert_eq!(state.tracker.best_params.value(3), code_of(0.0));
}

#[test]
fn scenario_rejected_tells_still_count() {
    // One dimension's tell always rejects, so no trial is ever accepted:
    // the counter still advances by the batch size each round, and the best
    // record never updates from a rejected trial.
    let mut state = BatchEvaluationLoop::new(100, 10, vector_of(&[0.0; 4]));
    let mut round = 0;
    while state.needs_batch() {
        state.record_batch(&constant_batch(10, &[0.5; 4], -0.5, false));
        round += 1;
        assert_eq!(state.trials_complete, round * 10);
    }
    assert_eq!(state.trials_complete, 100);
    assert_eq!(state.tracker.best_score, WORST_SCORE);
    assert_eq!(state.tracker.best_params.value(0), code_of(0.0));
}
