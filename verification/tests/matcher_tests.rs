use sr_plot_rs::matcher::{best_candidate, is_match, sweep_scales, Candidate, Score};

fn cand(score: Score, x: u32) -> Candidate {
    Candidate { score, x, y: 0, scale_mils: 1000 }
}

#[test]
fn sweep_scales_inclusive_bounds() {
    // (0.9, 1.1) at 0.05 granularity yields exactly five steps.
    assert_eq!(sweep_scales(900, 1100), vec![900, 950, 1000, 1050, 1100]);
}

#[test]
fn sweep_scales_empty_range_yields_no_steps() {
    assert_eq!(sweep_scales(1100, 900), Vec::<u32>::new());
}

#[test]
fn sweep_scales_single_point_range() {
    assert_eq!(sweep_scales(1000, 1000), vec![1000]);
}

#[test]
fn sweep_scales_stops_at_the_bound() {
    // A range that is not a whole number of steps never oversteps.
    assert_eq!(sweep_scales(900, 1120), vec![900, 950, 1000, 1050, 1100]);
}

#[test]
fn best_candidate_prefers_strictly_higher_scores() {
    let native = cand(Score::Finite(500_000), 1);
    let scaled = vec![cand(Score::Finite(700_000), 2), cand(Score::Finite(600_000), 3)];
    let best = best_candidate(native, &scaled);
    assert_eq!(best.x, 2);
}

#[test]
fn best_candidate_tie_keeps_the_earlier_result() {
    let native = cand(Score::Finite(500_000), 1);
    let scaled = vec![cand(Score::Finite(500_000), 2), cand(Score::Finite(500_000), 3)];
    let best = best_candidate(native, &scaled);
    assert_eq!(best.x, 1);
}

#[test]
fn best_candidate_ranks_non_finite_below_everything() {
    let native = cand(Score::NonFinite, 1);
    let scaled = vec![cand(Score::Finite(-100_000), 2)];
    let best = best_candidate(native, &scaled);
    assert_eq!(best.x, 2);
}

#[test]
fn best_candidate_native_only() {
    let native = cand(Score::Finite(123), 9);
    let best = best_candidate(native, &Vec::new());
    assert_eq!(best.x, 9);
}

#[test]
fn non_finite_score_never_matches() {
    // Degenerate correlation (all-black frame) is a non-match at any
    // threshold, even the lowest possible one.
    for threshold in [i64::MIN, -1, 0, 800_000, i64::MAX] {
        assert!(!is_match(&Score::NonFinite, threshold));
    }
}

#[test]
fn is_match_compares_against_the_threshold() {
    assert!(is_match(&Score::Finite(900_000), 900_000));
    assert!(!is_match(&Score::Finite(899_999), 900_000));
    assert!(is_match(&Score::Finite(1_000_000), 880_000));
}
