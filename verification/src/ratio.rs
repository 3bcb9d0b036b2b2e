//! Exact rational numbers and the metric-value domain.
//!
//! The sampling layer works over real numbers; here they are modelled as
//! exact fractions of `i64` with a positive denominator, together with a
//! distinguished non-finite value. Comparisons are exact (by cross
//! multiplication in `i128`, which cannot overflow), and division is exact
//! whenever the resulting fraction is representable; a quotient whose
//! components do not fit in `i64` degrades to [`MetricValue::NonFinite`],
//! which the classifier treats as an error (fail toward a visible alarm).

use vstd::prelude::*;

verus! {

/// An exact rational number `num / den` with `den > 0` (see [`Ratio::wf`]).
///
/// Fractions are not kept normalized: `60/1` and `62914560/1048576` are the
/// same rational. Ordering and equality of the represented value are given by
/// [`Ratio::le_spec`], [`Ratio::lt_spec`] and [`Ratio::eq_spec`], all defined
/// by cross multiplication, which agrees with the usual order on fractions
/// exactly because denominators are positive.
#[derive(Clone, Copy, Debug)]
pub struct Ratio {
    /// Numerator; carries the sign of the value.
    pub num: i64,
    /// Denominator; positive for every well-formed value.
    pub den: i64,
}

/// A value extracted from the statistics snapshot: either an exact rational
/// or a non-finite reading (the model of NaN/infinity handed over by a broken
/// collector, and of a quotient that is not representable).
#[derive(Clone, Copy, Debug)]
pub enum MetricValue {
    /// A finite, exactly represented value.
    Finite(Ratio),
    /// A non-finite reading; always classified as an error.
    NonFinite,
}

impl Ratio {
    /// Well-formedness: the denominator is positive.
    pub open spec fn wf(self) -> bool {
        self.den > 0
    }

    /// `self <= other` as rationals: `a/b <= c/d  <=>  a*d <= c*b` (for positive `b`, `d`).
    pub open spec fn le_spec(self, other: Ratio) -> bool {
        self.num * other.den <= other.num * self.den
    }

    /// `self < other` as rationals.
    pub open spec fn lt_spec(self, other: Ratio) -> bool {
        self.num * other.den < other.num * self.den
    }

    /// `self == other` as rationals (representation-independent).
    pub open spec fn eq_spec(self, other: Ratio) -> bool {
        self.num * other.den == other.num * self.den
    }

    /// The exact quotient `self / divisor`, as a metric value: the fraction
    /// `(self.num * divisor.den) / (self.den * divisor.num)` when its two
    /// components fit in `i64`, and `NonFinite` otherwise.
    pub open spec fn div_spec(self, divisor: Ratio) -> MetricValue {
        let n = self.num * divisor.den;
        let d = self.den * divisor.num;
        if -0x8000_0000_0000_0000 <= n <= 0x7fff_ffff_ffff_ffff && 1 <= d <= 0x7fff_ffff_ffff_ffff {
            MetricValue::Finite(Ratio { num: n as i64, den: d as i64 })
        } else {
            MetricValue::NonFinite
        }
    }

    /// Build the fraction `num / den`.
    pub fn new(num: i64, den: i64) -> (r: Ratio)
        requires
            den > 0,
        ensures
            r == (Ratio { num, den }),
    {
        Ratio { num, den }
    }

    /// Build the integer value `num`.
    pub fn from_int(num: i64) -> (r: Ratio)
        ensures
            r == (Ratio { num, den: 1 }),
    {
        Ratio { num, den: 1 }
    }

    /// Exact `<=` on the represented rationals.
    pub fn le(&self, other: &Ratio) -> (r: bool)
        requires
            self.wf(),
            other.wf(),
        ensures
            r == self.le_spec(*other),
    {
        proof {
            lemma_i64_product_in_i128(self.num as int, other.den as int);
            lemma_i64_product_in_i128(other.num as int, self.den as int);
        }
        let lhs: i128 = (self.num as i128) * (other.den as i128);
        let rhs: i128 = (other.num as i128) * (self.den as i128);
        lhs <= rhs
    }

    /// Exact `<` on the represented rationals.
    pub fn lt(&self, other: &Ratio) -> (r: bool)
        requires
            self.wf(),
            other.wf(),
        ensures
            r == self.lt_spec(*other),
    {
        proof {
            lemma_i64_product_in_i128(self.num as int, other.den as int);
            lemma_i64_product_in_i128(other.num as int, self.den as int);
        }
        let lhs: i128 = (self.num as i128) * (other.den as i128);
        let rhs: i128 = (other.num as i128) * (self.den as i128);
        lhs < rhs
    }

    /// Exact equality of the represented rationals (`60/1 == 62914560/1048576`).
    pub fn eq_val(&self, other: &Ratio) -> (r: bool)
        requires
            self.wf(),
            other.wf(),
        ensures
            r == self.eq_spec(*other),
    {
        proof {
            lemma_i64_product_in_i128(self.num as int, other.den as int);
            lemma_i64_product_in_i128(other.num as int, self.den as int);
        }
        let lhs: i128 = (self.num as i128) * (other.den as i128);
        let rhs: i128 = (other.num as i128) * (self.den as i128);
        lhs == rhs
    }

    /// Exact division by a positive divisor; `NonFinite` when the exact
    /// quotient is not representable.
    pub fn div(&self, divisor: &Ratio) -> (r: MetricValue)
        requires
            self.wf(),
            divisor.wf(),
            divisor.num > 0,
        ensures
            r == self.div_spec(*divisor),
            r.wf(),
    {
        proof {
            lemma_i64_product_in_i128(self.num as int, divisor.den as int);
            lemma_i64_product_in_i128(self.den as int, divisor.num as int);
        }
        let n: i128 = (self.num as i128) * (divisor.den as i128);
        let d: i128 = (self.den as i128) * (divisor.num as i128);
        if -0x8000_0000_0000_0000 <= n && n <= 0x7fff_ffff_ffff_ffff && 1 <= d
            && d <= 0x7fff_ffff_ffff_ffff {
            MetricValue::Finite(Ratio { num: n as i64, den: d as i64 })
        } else {
            MetricValue::NonFinite
        }
    }
}

impl MetricValue {
    /// Well-formedness: a finite value holds a well-formed fraction.
    pub open spec fn wf(self) -> bool {
        match self {
            MetricValue::Finite(r) => r.wf(),
            MetricValue::NonFinite => true,
        }
    }

    /// Build the finite integer value `num`.
    pub fn from_int(num: i64) -> (r: MetricValue)
        ensures
            r == MetricValue::Finite(Ratio { num, den: 1 }),
    {
        MetricValue::Finite(Ratio { num, den: 1 })
    }

    /// Whether this is a finite value.
    pub fn is_finite(&self) -> (r: bool)
        ensures
            r == (self is Finite),
    {
        match self {
            MetricValue::Finite(_) => true,
            MetricValue::NonFinite => false,
        }
    }

    /// Exact equality of metric values: both non-finite, or both finite and
    /// equal as rationals.
    pub fn eq_val(&self, other: &MetricValue) -> (r: bool)
        requires
            self.wf(),
            other.wf(),
        ensures
            r == match (*self, *other) {
                (MetricValue::Finite(a), MetricValue::Finite(b)) => a.eq_spec(b),
                (MetricValue::NonFinite, MetricValue::NonFinite) => true,
                _ => false,
            },
    {
        match (self, other) {
            (MetricValue::Finite(a), MetricValue::Finite(b)) => a.eq_val(b),
            (MetricValue::NonFinite, MetricValue::NonFinite) => true,
            _ => false,
        }
    }
}

/// The product of two `i64`-range factors stays well inside `i128`.
proof fn lemma_i64_product_in_i128(x: int, y: int)
    by (nonlinear_arith)
    requires
        -0x8000_0000_0000_0000 <= x <= 0x7fff_ffff_ffff_ffff,
        -0x8000_0000_0000_0000 <= y <= 0x7fff_ffff_ffff_ffff,
    ensures
        -0x4000_0000_0000_0000_0000_0000_0000_0000 <= x * y
            <= 0x4000_0000_0000_0000_0000_0000_0000_0000,
{
}

/// Strict order on rationals is transitive (denominators positive).
pub proof fn lemma_ratio_lt_trans(a: Ratio, b: Ratio, c: Ratio)
    requires
        a.wf(),
        b.wf(),
        c.wf(),
        a.lt_spec(b),
        b.lt_spec(c),
    ensures
        a.lt_spec(c),
{
    lemma_frac_lt_lt_trans(a.num as int, a.den as int, b.num as int, b.den as int, c.num as int,
        c.den as int);
}

/// A rational `<=` followed by `<` yields `<` (denominators positive).
pub proof fn lemma_ratio_le_lt_trans(a: Ratio, b: Ratio, c: Ratio)
    requires
        a.wf(),
        b.wf(),
        c.wf(),
        a.le_spec(b),
        b.lt_spec(c),
    ensures
        a.lt_spec(c),
{
    lemma_frac_le_lt_trans(a.num as int, a.den as int, b.num as int, b.den as int, c.num as int,
        c.den as int);
}

proof fn lemma_frac_lt_lt_trans(an: int, ad: int, bn: int, bd: int, cn: int, cd: int)
    by (nonlinear_arith)
    requires
        ad > 0,
        bd > 0,
        cd > 0,
        an * bd < bn * ad,
        bn * cd < cn * bd,
    ensures
        an * cd < cn * ad,
{
}

proof fn lemma_frac_le_lt_trans(an: int, ad: int, bn: int, bd: int, cn: int, cd: int)
    by (nonlinear_arith)
    requires
        ad > 0,
        bd > 0,
        cd > 0,
        an * bd <= bn * ad,
        bn * cd < cn * bd,
    ensures
        an * cd < cn * ad,
{
}

} // verus!
