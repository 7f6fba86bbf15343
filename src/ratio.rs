//! Exact non-negative-denominator fractions used for every derived metric.
use vstd::prelude::*;

verus! {

/// The fraction `num / den`. A well-formed ratio has `den > 0`.
#[derive(Clone, Copy, Debug, PartialEq, Eq, Structural)]
pub struct Ratio {
    pub num: i64,
    pub den: u64,
}

impl Ratio {
    pub open spec fn wf(self) -> bool {
        self.den > 0
    }

    /// `self < p / q`, for `q > 0`.
    pub open spec fn lt_frac(self, p: int, q: int) -> bool {
        self.num * q < p * self.den
    }

    /// `self > p / q`, for `q > 0`.
    pub open spec fn gt_frac(self, p: int, q: int) -> bool {
        self.num * q > p * self.den
    }

    /// `self == p / q`, for `q > 0`.
    pub open spec fn eq_frac(self, p: int, q: int) -> bool {
        self.num * q == p * self.den
    }

    pub open spec fn spec_zero() -> Ratio {
        Ratio { num: 0, den: 1 }
    }

    /// The ratio `0 / 1`.
    pub fn zero() -> (r: Ratio)
        ensures
            r == Ratio::spec_zero(),
    {
        Ratio { num: 0, den: 1 }
    }

    /// Whether `self < p / q`.
    pub fn less_than(&self, p: u32, q: u32) -> (r: bool)
        requires
            q > 0,
        ensures
            r == self.lt_frac(p as int, q as int),
    {
        let n: i128 = self.num as i128;
        let d: i128 = self.den as i128;
        let a: i128 = q as i128;
        let b: i128 = p as i128;
        proof {
            lemma_product_fits(n as int, a as int);
            lemma_product_fits(d as int, b as int);
        }
        n * a < b * d
    }

    /// Whether `self > p / q`.
    pub fn greater_than(&self, p: u32, q: u32) -> (r: bool)
        requires
            q > 0,
        ensures
            r == self.gt_frac(p as int, q as int),
    {
        let n: i128 = self.num as i128;
        let d: i128 = self.den as i128;
        let a: i128 = q as i128;
        let b: i128 = p as i128;
        proof {
            lemma_product_fits(n as int, a as int);
            lemma_product_fits(d as int, b as int);
        }
        n * a > b * d
    }
}

/// A product of a 64-bit factor and a 32-bit factor fits in `i128`.
proof fn lemma_product_fits(x: int, y: int)
    requires
        -0x1_0000_0000_0000_0000 < x < 0x1_0000_0000_0000_0000,
        -0x1_0000_0000 < y < 0x1_0000_0000,
    ensures
        -0x1_0000_0000_0000_0000_0000_0000 < x * y < 0x1_0000_0000_0000_0000_0000_0000,
{
    assert(-0x1_0000_0000_0000_0000_0000_0000 < x * y < 0x1_0000_0000_0000_0000_0000_0000)
        by (nonlinear_arith)
        requires
            -0x1_0000_0000_0000_0000 < x < 0x1_0000_0000_0000_0000,
            -0x1_0000_0000 < y < 0x1_0000_0000,
    ;
}

} // verus!
