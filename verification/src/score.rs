use vstd::prelude::*;

verus! {

/// Scores and parameter scalars enter this library as *order codes*:
/// unsigned integers whose order agrees with the order of the real values
/// they stand for. The band of codes strictly between `CODE_NEG_INFINITY`
/// and `CODE_POS_INFINITY` stands for the finite values; the two named codes
/// stand for the infinities themselves, and codes outside the band stand for
/// values that are not numbers at all. The caller that talks to the outside
/// world converts in both directions; everything the optimization core
/// decides depends only on order and on the finite band.
pub const CODE_NEG_INFINITY: u64 = 0x000F_FFFF_FFFF_FFFF;

/// The order code of positive infinity; see `CODE_NEG_INFINITY`.
pub const CODE_POS_INFINITY: u64 = 0xFFF0_0000_0000_0000;

/// The sentinel recorded for a trial whose evaluation produced no usable
/// score: the worst possible value under minimization, positive infinity.
pub const WORST_SCORE: u64 = CODE_POS_INFINITY;

/// A code stands for a finite value exactly when it lies strictly inside
/// the finite band.
pub open spec fn is_finite_code(c: u64) -> bool {
    CODE_NEG_INFINITY < c && c < CODE_POS_INFINITY
}

/// What sanitation leaves of a raw score: a finite score passes through
/// unchanged; anything else becomes the worst-score sentinel.
pub open spec fn sanitize_spec(c: u64) -> u64 {
    if is_finite_code(c) {
        c
    } else {
        WORST_SCORE
    }
}

/// Whether a score code stands for a finite value.
pub fn code_is_finite(c: u64) -> (r: bool)
    ensures
        r == is_finite_code(c),
{
    CODE_NEG_INFINITY < c && c < CODE_POS_INFINITY
}

/// Screens a raw evaluation result before it may reach the model: a
/// non-finite score is replaced by the worst-score sentinel, so the model
/// never observes an undefined value while the trial is still recorded.
pub fn sanitize_score(c: u64) -> (r: u64)
    ensures
        r == sanitize_spec(c),
{
    if code_is_finite(c) {
        c
    } else {
        WORST_SCORE
    }
}

/// Law: sanitation never lets a non-finite score through. The result is
/// either the finite raw score itself or exactly the worst-score sentinel.
pub proof fn lemma_sanitize_screens(c: u64)
    ensures
        is_finite_code(c) ==> sanitize_spec(c) == c,
        !is_finite_code(c) ==> sanitize_spec(c) == WORST_SCORE,
        is_finite_code(sanitize_spec(c)) || sanitize_spec(c) == WORST_SCORE,
{
}

} // verus!
