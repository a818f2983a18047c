//! A fixed-point fraction that counts in units of `1 / u32::MAX`, wide
//! enough for proportions and for their sums alike.

use crate::arith::lemma_floor_div_nonneg;
use crate::arith::lemma_ratio_le;
use crate::arith::lemma_scale_down_le;
use vstd::prelude::*;

verus! {

/// The number of units of a `UFDFraction` in one.
pub const DENOM: u64 = 0xFFFF_FFFF;

/// A fraction: the numerator over `u32::MAX`.
#[derive(Debug, Clone, Copy, Hash, PartialEq, Eq, Structural, PartialOrd, Ord)]
pub struct UFDFraction(pub u64);

/// The product of two fractions in units, rounded down to a unit.
pub open spec fn fraction_product(a: int, b: int) -> int {
    a * b / (DENOM as int)
}

/// The ratio of two fractions in units, rounded down to a unit.
pub open spec fn fraction_ratio(a: int, b: int) -> int {
    a * (DENOM as int) / b
}

impl UFDFraction {
    /// The numerator as a mathematical integer.
    pub open spec fn num(self) -> int {
        self.0 as int
    }

    /// Whether the fraction is a proportion: at most one.
    pub open spec fn vp(self) -> bool {
        self.num() <= DENOM
    }

    /// Whether the fraction is a sum of three proportions: at most three.
    pub open spec fn vs(self) -> bool {
        self.num() <= 3 * DENOM
    }

    /// The fraction 0.
    pub fn zero() -> (f: UFDFraction)
        ensures
            f.num() == 0,
    {
        UFDFraction(0)
    }

    /// The fraction 1.
    pub fn one() -> (f: UFDFraction)
        ensures
            f.num() == DENOM,
    {
        UFDFraction(DENOM)
    }

    /// The fraction 2.
    pub fn two() -> (f: UFDFraction)
        ensures
            f.num() == 2 * DENOM,
    {
        UFDFraction(DENOM * 2)
    }

    /// The fraction 3.
    pub fn three() -> (f: UFDFraction)
        ensures
            f.num() == 3 * DENOM,
    {
        UFDFraction(DENOM * 3)
    }

    /// The level out of 255 that a proportion stands for, rounded down.
    pub fn to_u8(self) -> (level: u8)
        requires
            self.vp(),
        ensures
            level == self.num() * 255 / (DENOM as int),
    {
        proof {
            lemma_scale_down_le(255, self.num(), DENOM as int);
            assert(self.num() * 255 == 255 * self.num()) by (nonlinear_arith);
            assert(0 <= self.num() * 255 <= DENOM * 255) by (nonlinear_arith)
                requires
                    0 <= self.num() <= DENOM,
            ;
        }
        (self.0 * 255 / DENOM) as u8
    }

    /// The level out of 65535 that a proportion stands for, rounded down.
    pub fn to_u16(self) -> (level: u16)
        requires
            self.vp(),
        ensures
            level == self.num() * 65535 / (DENOM as int),
    {
        proof {
            lemma_scale_down_le(65535, self.num(), DENOM as int);
            assert(self.num() * 65535 == 65535 * self.num()) by (nonlinear_arith);
            assert(0 <= self.num() * 65535 <= DENOM * 65535) by (nonlinear_arith)
                requires
                    0 <= self.num() <= DENOM,
            ;
        }
        (self.0 * 65535 / DENOM) as u16
    }
}

impl vstd::std_specs::ops::AddSpecImpl for UFDFraction {
    open spec fn obeys_add_spec() -> bool {
        true
    }

    open spec fn add_req(self, rhs: UFDFraction) -> bool {
        self.num() + rhs.num() <= u64::MAX
    }

    open spec fn add_spec(self, rhs: UFDFraction) -> UFDFraction {
        UFDFraction((self.num() + rhs.num()) as u64)
    }
}

impl core::ops::Add for UFDFraction {
    type Output = UFDFraction;

    fn add(self, rhs: UFDFraction) -> (sum: UFDFraction) {
        UFDFraction(self.0 + rhs.0)
    }
}

impl vstd::std_specs::ops::SubSpecImpl for UFDFraction {
    open spec fn obeys_sub_spec() -> bool {
        true
    }

    open spec fn sub_req(self, rhs: UFDFraction) -> bool {
        rhs.num() <= self.num()
    }

    open spec fn sub_spec(self, rhs: UFDFraction) -> UFDFraction {
        UFDFraction((self.num() - rhs.num()) as u64)
    }
}

impl core::ops::Sub for UFDFraction {
    type Output = UFDFraction;

    fn sub(self, rhs: UFDFraction) -> (diff: UFDFraction) {
        UFDFraction(self.0 - rhs.0)
    }
}

impl vstd::std_specs::ops::MulSpecImpl for UFDFraction {
    open spec fn obeys_mul_spec() -> bool {
        true
    }

    open spec fn mul_req(self, rhs: UFDFraction) -> bool {
        fraction_product(self.num(), rhs.num()) <= u64::MAX
    }

    open spec fn mul_spec(self, rhs: UFDFraction) -> UFDFraction {
        UFDFraction(fraction_product(self.num(), rhs.num()) as u64)
    }
}

impl core::ops::Mul for UFDFraction {
    type Output = UFDFraction;

    /// The product, rounded down to a unit.
    fn mul(self, rhs: UFDFraction) -> (product: UFDFraction) {
        proof {
            assert(0 <= self.num() * rhs.num() <= u64::MAX * u64::MAX) by (nonlinear_arith)
                requires
                    0 <= self.num() <= u64::MAX,
                    0 <= rhs.num() <= u64::MAX,
            ;
            lemma_floor_div_nonneg(self.num() * rhs.num(), DENOM as int);
        }
        let ws: u128 = self.0 as u128 * rhs.0 as u128 / DENOM as u128;
        UFDFraction(ws as u64)
    }
}

impl vstd::std_specs::ops::DivSpecImpl for UFDFraction {
    open spec fn obeys_div_spec() -> bool {
        true
    }

    open spec fn div_req(self, rhs: UFDFraction) -> bool {
        0 < rhs.num() && fraction_ratio(self.num(), rhs.num()) <= u64::MAX
    }

    open spec fn div_spec(self, rhs: UFDFraction) -> UFDFraction {
        UFDFraction(fraction_ratio(self.num(), rhs.num()) as u64)
    }
}

impl core::ops::Div for UFDFraction {
    type Output = UFDFraction;

    /// The ratio, rounded down to a unit.
    fn div(self, rhs: UFDFraction) -> (ratio: UFDFraction) {
        proof {
            assert(0 <= self.num() * DENOM <= u64::MAX * DENOM) by (nonlinear_arith)
                requires
                    0 <= self.num() <= u64::MAX,
            ;
            lemma_floor_div_nonneg(self.num() * DENOM, rhs.num());
        }
        let ws: u128 = self.0 as u128 * DENOM as u128 / rhs.0 as u128;
        UFDFraction(ws as u64)
    }
}

impl vstd::std_specs::convert::FromSpecImpl<u8> for UFDFraction {
    open spec fn obeys_from_spec() -> bool {
        true
    }

    open spec fn from_spec(level: u8) -> UFDFraction {
        UFDFraction((level as int * DENOM / 255) as u64)
    }
}

impl From<u8> for UFDFraction {
    fn from(level: u8) -> (f: UFDFraction) {
        proof {
            lemma_ratio_le(level as int, 255, DENOM as int);
            assert(0 <= level as int * DENOM <= 255 * DENOM) by (nonlinear_arith)
                requires
                    0 <= level as int <= 255,
            ;
        }
        UFDFraction(level as u64 * DENOM / 255)
    }
}

impl vstd::std_specs::convert::FromSpecImpl<u16> for UFDFraction {
    open spec fn obeys_from_spec() -> bool {
        true
    }

    open spec fn from_spec(level: u16) -> UFDFraction {
        UFDFraction((level as int * DENOM / 65535) as u64)
    }
}

impl From<u16> for UFDFraction {
    fn from(level: u16) -> (f: UFDFraction) {
        proof {
            lemma_ratio_le(level as int, 65535, DENOM as int);
            assert(0 <= level as int * DENOM <= 65535 * DENOM) by (nonlinear_arith)
                requires
                    0 <= level as int <= 65535,
            ;
        }
        UFDFraction(level as u64 * DENOM / 65535)
    }
}

} // verus!
