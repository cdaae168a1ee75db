//! Selection policy of the template matcher: which correlation result
//! wins across a scale sweep, and when a result counts as a match.
//!
//! Correlation itself runs outside this crate and reports a normalized
//! coefficient in `(-inf, 1]`; here it arrives as a `Score` in
//! millionths, with non-finite coefficients kept apart, so every
//! decision below is exact integer logic.

use vstd::prelude::*;

verus! {

/// A correlation coefficient in millionths (`1_000_000` is a perfect
/// match), or the marker for a non-finite coefficient (degenerate
/// template or flat region).
#[derive(Clone, Copy, Debug, PartialEq, Eq, Structural)]
pub enum Score {
    Finite(i64),
    NonFinite,
}

/// One correlation outcome: the best score over a frame, where it was
/// found (frame-space), and the template scale that produced it, in
/// thousandths.
#[derive(Clone, Copy, Debug, PartialEq, Eq, Structural)]
pub struct Candidate {
    pub score: Score,
    pub x: u32,
    pub y: u32,
    pub scale_mils: u32,
}

/// Score order: a non-finite score ranks below every finite one.
pub open spec fn score_le(a: Score, b: Score) -> bool {
    match (a, b) {
        (Score::NonFinite, _) => true,
        (Score::Finite(x), Score::Finite(y)) => x <= y,
        (Score::Finite(_), Score::NonFinite) => false,
    }
}

pub open spec fn score_lt(a: Score, b: Score) -> bool {
    score_le(a, b) && !score_le(b, a)
}

/// The candidate kept after scanning the sequence left to right,
/// replacing the current best only on a strictly higher score — so
/// ties keep the earlier result.
pub open spec fn fold_best(all: Seq<Candidate>) -> Candidate
    recommends
        all.len() > 0,
    decreases all.len(),
{
    if all.len() <= 1 {
        all[0]
    } else {
        let prev = fold_best(all.drop_last());
        if score_lt(prev.score, all.last().score) {
            all.last()
        } else {
            prev
        }
    }
}

/// The kept candidate is the earliest among those with the maximal
/// score: no candidate scores above it, and every earlier one scores
/// strictly below it.
pub proof fn lemma_fold_best_is_first_maximum(all: Seq<Candidate>)
    requires
        all.len() > 0,
    ensures
        exists|i: int|
            0 <= i < all.len() && fold_best(all) == all[i] && (forall|j: int|
                0 <= j < all.len() ==> score_le(#[trigger] all[j].score, all[i].score)) && (forall|
                j: int,
            |
                0 <= j < i ==> score_lt(#[trigger] all[j].score, all[i].score)),
    decreases all.len(),
{
    if all.len() == 1 {
        assert(fold_best(all) == all[0]);
    } else {
        let prefix = all.drop_last();
        lemma_fold_best_is_first_maximum(prefix);
        let i = choose|i: int|
            0 <= i < prefix.len() && fold_best(prefix) == prefix[i] && (forall|j: int|
                0 <= j < prefix.len() ==> score_le(#[trigger] prefix[j].score, prefix[i].score))
                && (forall|j: int|
                0 <= j < i ==> score_lt(#[trigger] prefix[j].score, prefix[i].score));
        assert(forall|j: int| 0 <= j < all.len() - 1 ==> all[j] == prefix[j]);
        if score_lt(prefix[i].score, all.last().score) {
            let w = all.len() - 1;
            assert(fold_best(all) == all[w]);
            assert(forall|j: int|
                0 <= j < all.len() ==> score_le(#[trigger] all[j].score, all[w].score));
            assert(forall|j: int| 0 <= j < w ==> score_lt(#[trigger] all[j].score, all[w].score));
        } else {
            assert(fold_best(all) == all[i]);
        }
    }
}

/// Exact strict comparison on scores, mirroring `score_lt`.
pub fn score_gt(a: &Score, b: &Score) -> (r: bool)
    ensures
        r == score_lt(*b, *a),
{
    match (a, b) {
        (Score::Finite(x), Score::Finite(y)) => *x > *y,
        (Score::Finite(_), Score::NonFinite) => true,
        (Score::NonFinite, _) => false,
    }
}

/// Keeps the single best result seen across the native-scale attempt
/// and every sweep attempt, strictly improving only on a higher score;
/// ties keep the earlier result, so the native scale is favored.
pub fn best_candidate(native: Candidate, scaled: &Vec<Candidate>) -> (r: Candidate)
    ensures
        r == fold_best(seq![native] + scaled@),
{
    let all_ghost = Ghost(seq![native] + scaled@);
    let mut best = native;
    proof {
        assert(all_ghost@.subrange(0, 1) =~= seq![native]);
        assert(fold_best(seq![native]) == native);
    }
    let n = scaled.len();
    for k in 0..n
        invariant
            n == scaled.len(),
            all_ghost@ == seq![native] + scaled@,
            all_ghost@.len() == 1 + n,
            best == fold_best(all_ghost@.subrange(0, k as int + 1)),
    {
        proof {
            let pre = all_ghost@.subrange(0, k as int + 1);
            let post = all_ghost@.subrange(0, k as int + 2);
            assert(post.drop_last() =~= pre);
            assert(post.last() == scaled@[k as int]);
        }
        let c = scaled[k];
        if score_gt(&c.score, &best.score) {
            best = c;
        }
    }
    proof {
        assert(all_ghost@.subrange(0, all_ghost@.len() as int) =~= all_ghost@);
    }
    best
}

/// A result is a positive match iff its score is finite and at least
/// the threshold; a non-finite score is a non-match at every threshold.
pub open spec fn spec_is_match(score: Score, threshold_micros: i64) -> bool {
    score matches Score::Finite(v) && v >= threshold_micros
}

pub fn is_match(score: &Score, threshold_micros: i64) -> (r: bool)
    ensures
        r == spec_is_match(*score, threshold_micros),
{
    match score {
        Score::Finite(v) => *v >= threshold_micros,
        Score::NonFinite => false,
    }
}

/// A non-finite score — a degenerate template or a flat frame region —
/// is a non-match regardless of the threshold.
pub proof fn lemma_non_finite_never_matches(threshold_micros: i64)
    ensures
        !spec_is_match(Score::NonFinite, threshold_micros),
{
}

/// Distance between neighboring sweep scales, in thousandths.
pub const SCALE_STEP_MILS: u32 = 50;

/// The candidate template scales for a sweep over the inclusive range
/// `[lo, hi]`, in thousandths: `lo`, `lo + 50`, ... up to `hi`.  An
/// empty range (`lo > hi`) yields no scales, and the caller then keeps
/// the native-scale result alone.
pub fn sweep_scales(lo_mils: u32, hi_mils: u32) -> (r: Vec<u32>)
    requires
        hi_mils <= u32::MAX - SCALE_STEP_MILS,
    ensures
        lo_mils <= hi_mils ==> r@.len() == (hi_mils - lo_mils) / (SCALE_STEP_MILS as int) + 1,
        lo_mils > hi_mils ==> r@.len() == 0,
        forall|i: int| 0 <= i < r@.len() ==> r@[i] == lo_mils + i * SCALE_STEP_MILS,
{
    let mut r: Vec<u32> = Vec::new();
    let mut s = lo_mils;
    while s <= hi_mils
        invariant
            hi_mils <= u32::MAX - SCALE_STEP_MILS,
            lo_mils <= s,
            lo_mils <= hi_mils ==> s <= hi_mils + SCALE_STEP_MILS,
            lo_mils > hi_mils ==> s == lo_mils,
            s - lo_mils == r@.len() * SCALE_STEP_MILS,
            forall|i: int| 0 <= i < r@.len() ==> r@[i] == lo_mils + i * SCALE_STEP_MILS,
        decreases hi_mils + SCALE_STEP_MILS - s,
    {
        r.push(s);
        s = s + SCALE_STEP_MILS;
    }
    proof {
        let len = r@.len() as int;
        let step = SCALE_STEP_MILS as int;
        if lo_mils <= hi_mils {
            assert(len >= 1) by (nonlinear_arith)
                requires
                    len * step == s - lo_mils,
                    s > hi_mils >= lo_mils,
                    step == 50,
                    len >= 0,
            ;
            vstd::arithmetic::div_mod::lemma_fundamental_div_mod_converse(
                (hi_mils - lo_mils) as int,
                step,
                len - 1,
                hi_mils + step - s,
            );
        } else {
            assert(len == 0) by (nonlinear_arith)
                requires
                    len * step == s - lo_mils,
                    s == lo_mils,
                    step == 50,
                    len >= 0,
            ;
        }
    }
    r
}

} // verus!
