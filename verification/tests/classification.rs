//! Tests of the threshold classifier: both directions, the degenerate
//! equal-threshold case, and non-finite inputs.

use metric_sampler::classify::ValueCheck;
use metric_sampler::ratio::MetricValue;
use metric_sampler::ratio::Ratio;

fn fin(num: i64) -> MetricValue {
    MetricValue::from_int(num)
}

#[test]
fn ascending_boundaries() {
    // warn 55 > err 25: higher is better.
    let w = Ratio::from_int(55);
    let e = Ratio::from_int(25);
    assert_eq!(ValueCheck::from_threshold(w, e, fin(55)), ValueCheck::Correct);
    assert_eq!(ValueCheck::from_threshold(w, e, fin(60)), ValueCheck::Correct);
    assert_eq!(ValueCheck::from_threshold(w, e, fin(25)), ValueCheck::Warning);
    assert_eq!(ValueCheck::from_threshold(w, e, fin(54)), ValueCheck::Warning);
    assert_eq!(ValueCheck::from_threshold(w, e, fin(24)), ValueCheck::Error);
    assert_eq!(ValueCheck::from_threshold(w, e, fin(-5)), ValueCheck::Error);
    // just below the error bound by a tiny epsilon: 25 - 1/1000
    let just_below = MetricValue::Finite(Ratio::new(24999, 1000));
    assert_eq!(ValueCheck::from_threshold(w, e, just_below), ValueCheck::Error);
}

#[test]
fn descending_boundaries() {
    // warn 50 <= err 100: lower is better.
    let w = Ratio::from_int(50);
    let e = Ratio::from_int(100);
    assert_eq!(ValueCheck::from_threshold(w, e, fin(50)), ValueCheck::Correct);
    assert_eq!(ValueCheck::from_threshold(w, e, fin(0)), ValueCheck::Correct);
    // just above the warning bound: 50 + 1/1000
    let just_above_warn = MetricValue::Finite(Ratio::new(50001, 1000));
    assert_eq!(ValueCheck::from_threshold(w, e, just_above_warn), ValueCheck::Warning);
    assert_eq!(ValueCheck::from_threshold(w, e, fin(100)), ValueCheck::Warning);
    // just above the error bound: 100 + 1/1000
    let just_above_err = MetricValue::Finite(Ratio::new(100001, 1000));
    assert_eq!(ValueCheck::from_threshold(w, e, just_above_err), ValueCheck::Error);
    assert_eq!(ValueCheck::from_threshold(w, e, fin(101)), ValueCheck::Error);
}

#[test]
fn degenerate_equal_thresholds() {
    // warn == err: the descending rule applies and the warning band is empty.
    let t = Ratio::from_int(10);
    assert_eq!(ValueCheck::from_threshold(t, t, fin(10)), ValueCheck::Correct);
    assert_eq!(ValueCheck::from_threshold(t, t, fin(9)), ValueCheck::Correct);
    // 10 + 1/1000000 is already an error: no Warning in between.
    let just_above = MetricValue::Finite(Ratio::new(10_000_001, 1_000_000));
    assert_eq!(ValueCheck::from_threshold(t, t, just_above), ValueCheck::Error);
    assert_eq!(ValueCheck::from_threshold(t, t, fin(11)), ValueCheck::Error);
}

#[test]
fn non_finite_is_always_error() {
    let nan = MetricValue::NonFinite;
    assert_eq!(
        ValueCheck::from_threshold(Ratio::from_int(55), Ratio::from_int(25), nan),
        ValueCheck::Error
    );
    assert_eq!(
        ValueCheck::from_threshold(Ratio::from_int(50), Ratio::from_int(100), nan),
        ValueCheck::Error
    );
    assert_eq!(
        ValueCheck::from_threshold(Ratio::from_int(0), Ratio::from_int(0), nan),
        ValueCheck::Error
    );
}

#[test]
fn representation_independent_comparison() {
    // 62914560/1048576 is exactly 60, whatever the representation.
    let scaled = Ratio::new(62_914_560, 1_048_576);
    assert!(scaled.eq_val(&Ratio::from_int(60)));
    assert!(!scaled.lt(&Ratio::from_int(60)));
    assert!(scaled.le(&Ratio::from_int(60)));
    assert!(Ratio::new(1, 3).lt(&Ratio::new(2, 5)));
    assert!(Ratio::new(2, 4).eq_val(&Ratio::new(1, 2)));
    // classification sees through the representation too: 60 in descending
    // mode with warn 50, err 100 is a warning.
    assert_eq!(
        ValueCheck::from_threshold(
            Ratio::from_int(50),
            Ratio::from_int(100),
            MetricValue::Finite(scaled)
        ),
        ValueCheck::Warning
    );
}

#[test]
fn severity_order() {
    assert_eq!(ValueCheck::Correct.severity(), 0);
    assert_eq!(ValueCheck::Warning.severity(), 1);
    assert_eq!(ValueCheck::Error.severity(), 2);
    assert!(ValueCheck::Correct.severity() < ValueCheck::Warning.severity());
    assert!(ValueCheck::Warning.severity() < ValueCheck::Error.severity());
}

#[test]
fn default_rating_is_correct() {
    assert_eq!(ValueCheck::default(), ValueCheck::Correct);
}
