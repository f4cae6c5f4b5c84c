//! Exact rational arithmetic on ratios of integers: addition, subtraction,
//! multiplication, division (with a distinguished "undefined" outcome for a
//! zero divisor), and sign and order comparisons, all without precision loss.

use vstd::prelude::*;

verus! {

/// An exact ratio `num / den` of two integers. The denominator is kept
/// strictly positive, so the sign of the value is the sign of `num`.
#[derive(Clone, Copy, PartialEq, Eq, Structural, Debug)]
pub struct Ratio {
    pub num: i64,
    pub den: i64,
}

impl Ratio {
    /// Well-formed: the denominator is strictly positive.
    pub open spec fn wf(self) -> bool {
        self.den > 0
    }

    /// Two ratios denote the same rational number.
    pub open spec fn same_value(self, other: Ratio) -> bool {
        self.num * other.den == other.num * self.den
    }

    /// This ratio denotes the rational number `p / q`.
    pub open spec fn represents(self, p: int, q: int) -> bool {
        self.num * q == p * self.den
    }
}

/// Builds the exact ratio `p / q`, normalised to a positive denominator.
pub fn ratio(p: i64, q: i64) -> (r: Ratio)
    requires
        q != 0,
        i64::MIN < p,
        i64::MIN < q,
    ensures
        r.wf(),
        r.represents(p as int, q as int),
        q > 0 ==> r.num == p && r.den == q,
        q < 0 ==> r.num == -p && r.den == -q,
{
    let r = if q > 0 {
        Ratio { num: p, den: q }
    } else {
        Ratio { num: -p, den: -q }
    };
    proof {
        assert(r.num * q == p * r.den) by (nonlinear_arith)
            requires
                (q > 0 && r.num == p && r.den == q) || (q < 0 && r.num == -p && r.den == -q),
        ;
    }
    r
}

impl Ratio {
    /// Exact sum of two ratios; the result's fields are pinned exactly.
    pub fn add(self, other: Ratio) -> (r: Ratio)
        requires
            self.wf(),
            other.wf(),
            i64::MIN <= self.num * other.den <= i64::MAX,
            i64::MIN <= other.num * self.den <= i64::MAX,
            i64::MIN <= self.num * other.den + other.num * self.den <= i64::MAX,
            self.den * other.den <= i64::MAX,
        ensures
            r.wf(),
            r.num == self.num * other.den + other.num * self.den,
            r.den == self.den * other.den,
    {
        proof {
            assert(self.den * other.den > 0) by (nonlinear_arith)
                requires
                    self.den > 0,
                    other.den > 0,
            ;
        }
        Ratio { num: self.num * other.den + other.num * self.den, den: self.den * other.den }
    }

    /// Exact difference of two ratios; the result's fields are pinned exactly.
    pub fn sub(self, other: Ratio) -> (r: Ratio)
        requires
            self.wf(),
            other.wf(),
            i64::MIN <= self.num * other.den <= i64::MAX,
            i64::MIN <= other.num * self.den <= i64::MAX,
            i64::MIN <= self.num * other.den - other.num * self.den <= i64::MAX,
            self.den * other.den <= i64::MAX,
        ensures
            r.wf(),
            r.num == self.num * other.den - other.num * self.den,
            r.den == self.den * other.den,
    {
        proof {
            assert(self.den * other.den > 0) by (nonlinear_arith)
                requires
                    self.den > 0,
                    other.den > 0,
            ;
        }
        Ratio { num: self.num * other.den - other.num * self.den, den: self.den * other.den }
    }

    /// Exact product of two ratios; the result's fields are pinned exactly.
    pub fn mul(self, other: Ratio) -> (r: Ratio)
        requires
            self.wf(),
            other.wf(),
            i64::MIN <= self.num * other.num <= i64::MAX,
            self.den * other.den <= i64::MAX,
        ensures
            r.wf(),
            r.num == self.num * other.num,
            r.den == self.den * other.den,
    {
        proof {
            assert(self.den * other.den > 0) by (nonlinear_arith)
                requires
                    self.den > 0,
                    other.den > 0,
            ;
        }
        Ratio { num: self.num * other.num, den: self.den * other.den }
    }

    /// Exact quotient of two ratios. Division by a ratio whose value is zero
    /// is undefined and reported as `None` rather than an aborted run: the
    /// caller detects and branches on that outcome.
    pub fn div(self, other: Ratio) -> (r: Option<Ratio>)
        requires
            self.wf(),
            other.wf(),
            i64::MIN < self.num * other.den <= i64::MAX,
            i64::MIN < self.den * other.num <= i64::MAX,
        ensures
            r is Some <==> other.num != 0,
            other.num > 0 ==> (r matches Some(q) && q.num == self.num * other.den && q.den
                == self.den * other.num),
            other.num < 0 ==> (r matches Some(q) && q.num == -(self.num * other.den) && q.den == -(
            self.den * other.num)),
            r matches Some(q) ==> q.wf() && q.represents(
                self.num * other.den,
                self.den * other.num,
            ),
    {
        if other.num == 0 {
            return None;
        }
        proof {
            assert(self.den * other.num != 0 && (other.num > 0 ==> self.den * other.num > 0) && (
            other.num < 0 ==> self.den * other.num < 0)) by (nonlinear_arith)
                requires
                    self.den > 0,
                    other.num != 0,
            ;
        }
        let q = ratio(self.num * other.den, self.den * other.num);
        Some(q)
    }

    /// The ratio's value is exactly zero.
    pub fn is_zero(&self) -> (r: bool)
        requires
            self.wf(),
        ensures
            r == (self.num == 0),
    {
        self.num == 0
    }

    /// The ratio's value is strictly negative.
    pub fn is_negative(&self) -> (r: bool)
        requires
            self.wf(),
        ensures
            r == (self.num < 0),
    {
        self.num < 0
    }

    /// The ratio's value is strictly positive.
    pub fn is_positive(&self) -> (r: bool)
        requires
            self.wf(),
        ensures
            r == (self.num > 0),
    {
        self.num > 0
    }

    /// Exact order comparison: this ratio's value is strictly below the other's.
    pub fn lt(&self, other: &Ratio) -> (r: bool)
        requires
            self.wf(),
            other.wf(),
            i64::MIN <= self.num * other.den <= i64::MAX,
            i64::MIN <= other.num * self.den <= i64::MAX,
        ensures
            r == (self.num * other.den < other.num * self.den),
    {
        self.num * other.den < other.num * self.den
    }

    /// Exact equality of values: `2/4` equals `1/2`.
    pub fn eq_value(&self, other: &Ratio) -> (r: bool)
        requires
            self.wf(),
            other.wf(),
            i64::MIN <= self.num * other.den <= i64::MAX,
            i64::MIN <= other.num * self.den <= i64::MAX,
        ensures
            r == self.same_value(*other),
    {
        self.num * other.den == other.num * self.den
    }
}

} // verus!
