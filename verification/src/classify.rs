//! Tri-state threshold classification.
//!
//! A value is compared against a warning threshold and an error threshold;
//! the relative order of the two thresholds — not a separate flag — encodes
//! the direction of the metric. When the warning bound lies numerically above
//! the error bound the metric is "higher is better" (frames per second);
//! otherwise it is "lower is better" (memory usage, latency). When the two
//! thresholds are equal the descending rule applies and the warning band is
//! empty. A non-finite value always classifies as an error, so a broken
//! collector shows up as a visible alarm instead of a healthy reading.

use vstd::prelude::*;

use crate::ratio::MetricValue;
use crate::ratio::Ratio;
use crate::ratio::lemma_ratio_le_lt_trans;
use crate::ratio::lemma_ratio_lt_trans;

verus! {

/// Health rating of a displayed value; affects the color the monitor draws
/// it with. Severity rises from `Correct` through `Warning` to `Error`
/// (see [`ValueCheck::severity`]).
#[derive(Clone, Copy, Debug, PartialEq, Eq, Structural)]
pub enum ValueCheck {
    Correct,
    Warning,
    Error,
}

/// The classification rule of [`ValueCheck::from_threshold`].
///
/// Ascending case (`err < warn`, higher is better):
/// `warn <= value` is `Correct`, `err <= value < warn` is `Warning`,
/// `value < err` is `Error`.
/// Descending case (`warn <= err`, lower is better):
/// `value <= warn` is `Correct`, `warn < value <= err` is `Warning`,
/// `err < value` is `Error`.
/// Non-finite values are always `Error`.
pub open spec fn classify_spec(warn_threshold: Ratio, err_threshold: Ratio, value: MetricValue)
    -> ValueCheck {
    match value {
        MetricValue::NonFinite => ValueCheck::Error,
        MetricValue::Finite(v) => if err_threshold.lt_spec(warn_threshold) {
            if warn_threshold.le_spec(v) {
                ValueCheck::Correct
            } else if err_threshold.le_spec(v) {
                ValueCheck::Warning
            } else {
                ValueCheck::Error
            }
        } else {
            if v.le_spec(warn_threshold) {
                ValueCheck::Correct
            } else if v.le_spec(err_threshold) {
                ValueCheck::Warning
            } else {
                ValueCheck::Error
            }
        },
    }
}

impl Default for ValueCheck {
    /// The default rating is `Correct`.
    fn default() -> (r: Self)
        ensures
            r == ValueCheck::Correct,
    {
        ValueCheck::Correct
    }
}

impl ValueCheck {
    /// Construct the check by comparing the provided value to two threshold
    /// values; the exact rule is [`classify_spec`].
    pub fn from_threshold(warn_threshold: Ratio, err_threshold: Ratio, value: MetricValue) -> (r:
        ValueCheck)
        requires
            warn_threshold.wf(),
            err_threshold.wf(),
            value.wf(),
        ensures
            r == classify_spec(warn_threshold, err_threshold, value),
    {
        match value {
            MetricValue::NonFinite => ValueCheck::Error,
            MetricValue::Finite(v) => if err_threshold.lt(&warn_threshold) {
                if warn_threshold.le(&v) {
                    ValueCheck::Correct
                } else if err_threshold.le(&v) {
                    ValueCheck::Warning
                } else {
                    ValueCheck::Error
                }
            } else {
                if v.le(&warn_threshold) {
                    ValueCheck::Correct
                } else if v.le(&err_threshold) {
                    ValueCheck::Warning
                } else {
                    ValueCheck::Error
                }
            },
        }
    }

    /// Position of this rating in the severity order
    /// `Correct < Warning < Error`: 0, 1 or 2.
    pub fn severity(&self) -> (r: u8)
        ensures
            r == match *self {
                ValueCheck::Correct => 0u8,
                ValueCheck::Warning => 1u8,
                ValueCheck::Error => 2u8,
            },
    {
        match self {
            ValueCheck::Correct => 0,
            ValueCheck::Warning => 1,
            ValueCheck::Error => 2,
        }
    }
}

/// The classification is total: for every pair of thresholds and every value
/// (finite or not) it yields one of the three ratings — and, the result being
/// one enumerator, never more than one.
pub proof fn lemma_classify_total(warn_threshold: Ratio, err_threshold: Ratio, value: MetricValue)
    ensures
        classify_spec(warn_threshold, err_threshold, value) == ValueCheck::Correct
            || classify_spec(warn_threshold, err_threshold, value) == ValueCheck::Warning
            || classify_spec(warn_threshold, err_threshold, value) == ValueCheck::Error,
{
}

/// Ascending mode (`err < warn`, higher is better): the warning threshold
/// itself rates `Correct`, the error threshold itself rates `Warning`, and
/// anything strictly below the error threshold rates `Error`.
pub proof fn lemma_classify_ascending(warn_threshold: Ratio, err_threshold: Ratio, low: Ratio)
    requires
        warn_threshold.wf(),
        err_threshold.wf(),
        low.wf(),
        err_threshold.lt_spec(warn_threshold),
    ensures
        classify_spec(warn_threshold, err_threshold, MetricValue::Finite(warn_threshold))
            == ValueCheck::Correct,
        classify_spec(warn_threshold, err_threshold, MetricValue::Finite(err_threshold))
            == ValueCheck::Warning,
        low.lt_spec(err_threshold) ==> classify_spec(warn_threshold, err_threshold,
            MetricValue::Finite(low)) == ValueCheck::Error,
{
    if low.lt_spec(err_threshold) {
        lemma_ratio_lt_trans(low, err_threshold, warn_threshold);
    }
}

/// Descending mode (`warn <= err`, lower is better): the warning threshold
/// itself rates `Correct`, anything in the half-open band above the warning
/// threshold up to the error threshold rates `Warning`, and anything strictly
/// above the error threshold rates `Error`.
pub proof fn lemma_classify_descending(warn_threshold: Ratio, err_threshold: Ratio, mid: Ratio,
    high: Ratio)
    requires
        warn_threshold.wf(),
        err_threshold.wf(),
        mid.wf(),
        high.wf(),
        warn_threshold.le_spec(err_threshold),
    ensures
        classify_spec(warn_threshold, err_threshold, MetricValue::Finite(warn_threshold))
            == ValueCheck::Correct,
        warn_threshold.lt_spec(mid) && mid.le_spec(err_threshold) ==> classify_spec(warn_threshold,
            err_threshold, MetricValue::Finite(mid)) == ValueCheck::Warning,
        err_threshold.lt_spec(high) ==> classify_spec(warn_threshold, err_threshold,
            MetricValue::Finite(high)) == ValueCheck::Error,
{
    if err_threshold.lt_spec(high) {
        lemma_ratio_le_lt_trans(warn_threshold, err_threshold, high);
    }
}

/// Degenerate thresholds (`warn == err`): the threshold itself rates
/// `Correct`, anything strictly above it rates `Error`, and no value at all
/// rates `Warning` — the warning band is empty.
pub proof fn lemma_classify_degenerate(threshold: Ratio, value: Ratio)
    requires
        threshold.wf(),
        value.wf(),
    ensures
        classify_spec(threshold, threshold, MetricValue::Finite(threshold)) == ValueCheck::Correct,
        threshold.lt_spec(value) ==> classify_spec(threshold, threshold, MetricValue::Finite(
            value)) == ValueCheck::Error,
        classify_spec(threshold, threshold, MetricValue::Finite(value)) != ValueCheck::Warning,
{
}

/// A non-finite value classifies as `Error` whatever the thresholds are.
pub proof fn lemma_classify_non_finite(warn_threshold: Ratio, err_threshold: Ratio)
    ensures
        classify_spec(warn_threshold, err_threshold, MetricValue::NonFinite) == ValueCheck::Error,
{
}

} // verus!
