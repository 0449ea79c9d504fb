use vstd::prelude::*;

use crate::bounds::Bound;
use crate::params::ParameterVector;

verus! {

/// Why construction of a `JointOptimizer` failed: the bound supplied for
/// dimension `dim` is invalid — inverted, or with a non-finite endpoint.
#[derive(Clone, Copy, PartialEq, Eq, Structural, Debug)]
pub struct InvalidBound {
    pub dim: usize,
}

/// Why no candidate vector could be composed: the per-dimension optimizer
/// for dimension `dim` exhausted its candidate generation. Exhaustion is
/// fatal to the whole batch element — no partial vector is ever built.
#[derive(Clone, Copy, PartialEq, Eq, Structural, Debug)]
pub struct AskExhausted {
    pub dim: usize,
}

/// What one per-dimension ask produced: a sampled scalar, or exhaustion of
/// candidate generation.
#[derive(Clone, Copy, PartialEq, Eq, Structural, Debug)]
pub enum AskOutcome {
    Sample { value: u64 },
    Exhausted,
}

/// The joint face of the independent per-dimension optimizers. It fixes the
/// number of dimensions and their bounds at construction, composes
/// per-dimension samples into parameter vectors in a fixed positional order,
/// and replays the per-dimension bound check that a tell is held to. The
/// per-dimension models themselves and the shared randomness source stay
/// with the caller, which mutates them only from the single sequential
/// control thread; the rules here are what keeps the field-to-dimension
/// pairing stable between an ask and its paired tell.
pub struct JointOptimizer {
    bounds: Vec<Bound>,
}

impl JointOptimizer {
    /// The per-dimension bounds, in dimension order.
    pub closed spec fn bounds_spec(self) -> Seq<Bound> {
        self.bounds@
    }

    /// The number of dimensions.
    pub open spec fn dims_spec(self) -> nat {
        self.bounds_spec().len()
    }

    /// Every dimension's bound is valid.
    pub open spec fn wf(self) -> bool {
        forall|i: int|
            0 <= i < self.bounds_spec().len() ==> (#[trigger] self.bounds_spec()[i]).valid()
    }

    /// Every coordinate of the vector lies within its own dimension's bound.
    pub open spec fn in_bounds(self, v: Seq<u64>) -> bool {
        v.len() == self.dims_spec() && forall|i: int|
            0 <= i < v.len() ==> self.bounds_spec()[i].contains(#[trigger] v[i])
    }

    /// Validates every dimension's bound. Construction succeeds exactly when
    /// all bounds are valid; otherwise it fails on the first invalid
    /// dimension, and the error names that dimension.
    pub fn new(bounds: Vec<Bound>) -> (r: Result<JointOptimizer, InvalidBound>)
        ensures
            match r {
                Ok(o) => o.bounds_spec() == bounds@ && o.wf(),
                Err(e) => {
                    &&& e.dim < bounds@.len()
                    &&& !bounds@[e.dim as int].valid()
                    &&& forall|i: int| 0 <= i < e.dim ==> (#[trigger] bounds@[i]).valid()
                },
            },
    {
        let mut i: usize = 0;
        while i < bounds.len()
            invariant
                i <= bounds@.len(),
                forall|j: int| 0 <= j < i ==> (#[trigger] bounds@[j]).valid(),
            decreases bounds@.len() - i,
        {
            if !bounds[i].is_valid() {
                return Err(InvalidBound { dim: i });
            }
            i = i + 1;
        }
        Ok(JointOptimizer { bounds })
    }

    /// The number of dimensions.
    pub fn dims(&self) -> (r: usize)
        ensures
            r == self.dims_spec(),
    {
        self.bounds.len()
    }

    /// The bound of dimension `i`.
    pub fn bound(&self, i: usize) -> (r: Bound)
        requires
            i < self.dims_spec(),
        ensures
            r == self.bounds_spec()[i as int],
    {
        self.bounds[i]
    }

    /// Composes one candidate vector from the per-dimension ask outcomes,
    /// taken in the fixed dimension order. All or nothing: if any dimension
    /// exhausted its candidates, no partial vector is built, and the first
    /// exhausted dimension is reported.
    pub fn compose_ask(&self, outcomes: &Vec<AskOutcome>) -> (r: Result<
        ParameterVector,
        AskExhausted,
    >)
        requires
            outcomes@.len() == self.dims_spec(),
        ensures
            match r {
                Ok(v) => {
                    &&& v@.len() == self.dims_spec()
                    &&& forall|i: int|
                        0 <= i < v@.len() ==> (#[trigger] outcomes@[i]) is Sample && v@[i]
                            == outcomes@[i]->value
                },
                Err(e) => {
                    &&& e.dim < outcomes@.len()
                    &&& outcomes@[e.dim as int] is Exhausted
                    &&& forall|i: int| 0 <= i < e.dim ==> (#[trigger] outcomes@[i]) is Sample
                },
            },
    {
        let mut values: Vec<u64> = Vec::new();
        let mut i: usize = 0;
        while i < outcomes.len()
            invariant
                i <= outcomes@.len(),
                values@.len() == i,
                forall|j: int|
                    0 <= j < i ==> (#[trigger] outcomes@[j]) is Sample && values@[j]
                        == outcomes@[j]->value,
            decreases outcomes@.len() - i,
        {
            match outcomes[i] {
                AskOutcome::Sample { value } => {
                    values.push(value);
                },
                AskOutcome::Exhausted => {
                    return Err(AskExhausted { dim: i });
                },
            }
            i = i + 1;
        }
        Ok(ParameterVector::new(values))
    }

    /// Replays the per-dimension bound check that a tell is held to: reports
    /// the first dimension whose scalar falls outside its bound, or nothing
    /// when the whole vector is in bounds.
    pub fn check_vector(&self, v: &ParameterVector) -> (r: Option<usize>)
        requires
            v@.len() == self.dims_spec(),
        ensures
            match r {
                None => self.in_bounds(v@),
                Some(d) => {
                    &&& d < v@.len()
                    &&& !self.bounds_spec()[d as int].contains(v@[d as int])
                    &&& forall|i: int|
                        0 <= i < d ==> self.bounds_spec()[i].contains(#[trigger] v@[i])
                },
            },
    {
        let mut i: usize = 0;
        while i < v.len()
            invariant
                i <= v@.len(),
                v@.len() == self.dims_spec(),
                forall|j: int| 0 <= j < i ==> self.bounds_spec()[j].contains(#[trigger] v@[j]),
            decreases v@.len() - i,
        {
            if !self.bounds[i].contains_code(v.value(i)) {
                return Some(i);
            }
            i = i + 1;
        }
        None
    }
}

/// Law (ask–tell round trip): a vector composed from per-dimension samples
/// that each lie within their own dimension's bound — which is what every
/// per-dimension ask promises of the scalars it draws — is in bounds for the
/// paired tell: the bound check replayed on the unmodified vector cannot
/// reject any dimension. The composition keeps the pairing positional, so
/// no scalar is ever checked against another dimension's bound.
pub proof fn lemma_ask_tell_round_trip(
    opt: JointOptimizer,
    outcomes: Seq<AskOutcome>,
    v: Seq<u64>,
)
    requires
        outcomes.len() == opt.dims_spec(),
        v.len() == opt.dims_spec(),
        forall|i: int|
            0 <= i < v.len() ==> (#[trigger] outcomes[i]) is Sample && v[i] == outcomes[i]->value,
        forall|i: int|
            0 <= i < outcomes.len() ==> opt.bounds_spec()[i].contains(
                (#[trigger] outcomes[i])->value,
            ),
    ensures
        opt.in_bounds(v),
{
    assert forall|i: int| 0 <= i < v.len() implies opt.bounds_spec()[i].contains(
        #[trigger] v[i],
    ) by {
        assert(v[i] == outcomes[i]->value);
    }
}

} // verus!
