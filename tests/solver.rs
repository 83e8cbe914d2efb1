use boss_time_estimate::bracket::{
    find_exact, find_lower, find_upper, locate, plan, Bracket, Estimate, Side, SolveError,
};

/// Compares the cumulative damage (time times DPS) of each sample, scaled
/// by `k`, with `threshold`.
fn sides(samples: &[(f64, f64)], k: f64, threshold: f64) -> Vec<Side> {
    samples
        .iter()
        .map(|&(t, d)| Side::from_comparison((t * (d * k)).partial_cmp(&threshold)))
        .collect()
}

const PROFILE: [(f64, f64); 3] = [(1.0, 10.0), (2.0, 20.0), (3.0, 30.0)];

#[test]
fn comparison_outcomes() {
    assert_eq!(Side::from_comparison(1.0f64.partial_cmp(&2.0)), Side::Below);
    assert_eq!(Side::from_comparison(2.0f64.partial_cmp(&2.0)), Side::Equal);
    assert_eq!(Side::from_comparison(3.0f64.partial_cmp(&2.0)), Side::Above);
    assert_eq!(Side::from_comparison(f64::NAN.partial_cmp(&2.0)), Side::Unordered);
}

#[test]
fn lower_is_last_below() {
    let v = vec![Side::Below, Side::Below, Side::Equal, Side::Above];
    assert_eq!(find_lower(&v), Some(1));
    assert_eq!(find_lower(&vec![Side::Above, Side::Equal]), None);
    assert_eq!(find_lower(&vec![]), None);
}

#[test]
fn upper_is_first_above() {
    let v = vec![Side::Below, Side::Equal, Side::Above, Side::Above];
    assert_eq!(find_upper(&v), Some(2));
    assert_eq!(find_upper(&vec![Side::Below, Side::Equal]), None);
    assert_eq!(find_upper(&vec![]), None);
}

#[test]
fn unordered_samples_bracket_nothing() {
    let v = vec![Side::Unordered, Side::Below, Side::Unordered];
    assert_eq!(find_exact(&v), None);
    assert_eq!(locate(&v), Ok(Bracket::AboveRange { lower: 1 }));
}

#[test]
fn empty_profile_is_unsorted() {
    assert_eq!(locate(&vec![]), Err(SolveError::UnsortedProfile));
}

#[test]
fn unordered_only_is_unsorted() {
    let s = sides(&[(10.0, f64::NAN)], 5.0, 100.0);
    assert_eq!(s, vec![Side::Unordered]);
    assert_eq!(locate(&s), Err(SolveError::UnsortedProfile));
}

#[test]
fn single_equal_sample_is_exact() {
    let s = sides(&[(10.0, 2.0)], 5.0, 100.0);
    assert_eq!(s, vec![Side::Equal]);
    assert_eq!(locate(&s), Ok(Bracket::Exact { sample: 0 }));
    assert_eq!(plan(Bracket::Exact { sample: 0 }, false), Estimate::Exact { sample: 0 });
}

#[test]
fn exact_sample_is_its_own_time() {
    // Cumulative damage is 10, 40, 90.
    for (threshold, k) in [(10.0, 0), (40.0, 1), (90.0, 2)] {
        let b = locate(&sides(&PROFILE, 1.0, threshold)).unwrap();
        assert_eq!(b, Bracket::Exact { sample: k });
        assert_eq!(plan(b, false), Estimate::Exact { sample: k });
    }
}

#[test]
fn first_of_several_exact_hits() {
    let v = vec![Side::Below, Side::Equal, Side::Equal, Side::Above];
    assert_eq!(locate(&v), Ok(Bracket::Exact { sample: 1 }));
}

#[test]
fn between_adjacent_samples() {
    let b = locate(&sides(&PROFILE, 1.0, 25.0)).unwrap();
    assert_eq!(b, Bracket::Within { lower: 0, upper: 1 });
    assert_eq!(plan(b, false), Estimate::Accelerated { lower: 0, upper: 1 });
    let b = locate(&sides(&PROFILE, 1.0, 60.0)).unwrap();
    assert_eq!(b, Bracket::Within { lower: 1, upper: 2 });
}

#[test]
fn below_first_sample_plateaus_at_first_rate() {
    let b = locate(&sides(&PROFILE, 1.0, 5.0)).unwrap();
    assert_eq!(b, Bracket::BelowRange { upper: 0 });
    assert_eq!(plan(b, false), Estimate::Plateau { sample: 0 });
}

#[test]
fn above_last_sample_plateaus_at_last_rate() {
    let b = locate(&sides(&PROFILE, 1.0, 120.0)).unwrap();
    assert_eq!(b, Bracket::AboveRange { lower: 2 });
    assert_eq!(plan(b, true), Estimate::Plateau { sample: 2 });
}

#[test]
fn equal_dps_bracket_is_linear() {
    let flat = [(1.0, 10.0), (2.0, 10.0)];
    let b = locate(&sides(&flat, 1.0, 15.0)).unwrap();
    assert_eq!(b, Bracket::Within { lower: 0, upper: 1 });
    assert_eq!(plan(b, flat[0].1 == flat[1].1), Estimate::Linear { lower: 0 });
}

#[test]
fn scaling_moves_threshold_by_the_multiplier() {
    for threshold in [5.0, 10.0, 25.0, 40.0, 60.0, 90.0, 200.0] {
        assert_eq!(
            locate(&sides(&PROFILE, 4.0, threshold * 4.0)),
            locate(&sides(&PROFILE, 1.0, threshold))
        );
    }
}

#[test]
fn single_sample_power_phase() {
    // health 1000, coeff 1, power coefficient 0.5, five participants.
    let threshold = 1000.0 / 0.5 / 1.0;
    let sample = (10.0, 2.0);
    let b = locate(&sides(&[sample], 5.0, threshold)).unwrap();
    assert_eq!(b, Bracket::AboveRange { lower: 0 });
    assert_eq!(plan(b, false), Estimate::Plateau { sample: 0 });
}
