//! Fixed-point proportions in [0, 1] and sums of up to three of them.
//!
//! Both types count in units of `1 / u64::MAX`, so that one is "all bits
//! set" and both ends of the range are held without error.

use crate::arith::lemma_floor_div_bounds;
use crate::arith::lemma_floor_div_nonneg;
use crate::arith::lemma_floor_div_split;
use crate::arith::lemma_ratio_le;
use crate::arith::lemma_scale_down_le;
use vstd::prelude::*;

verus! {

/// The number of units in one.
pub const UNIT: u64 = 0xFFFF_FFFF_FFFF_FFFF;

/// The tolerance, in units, that `approx_eq` applies when given none:
/// values pass that differ by less.
pub const DEFAULT_ROUNDING_ERROR: u64 = 3;

/// The number of units in one, as a mathematical integer.
#[verifier::inline]
pub open spec fn unit() -> int {
    0xFFFF_FFFF_FFFF_FFFF
}

/// The product of two fixed-point numbers, rounded down to a unit.
pub open spec fn scaled_product(a: int, b: int) -> int {
    a * b / unit()
}

/// The ratio of two fixed-point numbers, rounded down to a unit.
pub open spec fn scaled_ratio(a: int, b: int) -> int {
    a * unit() / b
}

/// The distance between two integers.
pub open spec fn distance(a: int, b: int) -> int {
    if a <= b {
        b - a
    } else {
        a - b
    }
}

/// A fraction in [0, 1]: the numerator over `u64::MAX`.
#[derive(Debug, Clone, Copy, Hash, PartialEq, Eq, Structural, PartialOrd, Ord)]
pub struct Prop(pub u64);

/// A quantity in [0, 3], the sum of up to three proportions, in the same
/// units as `Prop`. The type admits larger values; `is_valid` tells.
#[derive(Debug, Clone, Copy, Hash, PartialEq, Eq, Structural, PartialOrd, Ord)]
pub struct UFDRNumber(pub u128);

/// The sum of the three components of a colour.
pub type Sum = UFDRNumber;

impl Prop {
    /// The numerator as a mathematical integer.
    pub open spec fn num(self) -> int {
        self.0 as int
    }

    /// The proportion 0.
    pub fn zero() -> (p: Prop)
        ensures
            p.num() == 0,
    {
        Prop(0)
    }

    /// The proportion 1.
    pub fn one() -> (p: Prop)
        ensures
            p.num() == unit(),
    {
        Prop(UNIT)
    }

    /// The distance between two proportions.
    pub fn abs_diff(&self, other: &Prop) -> (diff: Prop)
        ensures
            diff.num() == distance(self.num(), other.num()),
    {
        if self.0 <= other.0 {
            Prop(other.0 - self.0)
        } else {
            Prop(self.0 - other.0)
        }
    }

    /// Whether two proportions differ by less than the given number of
    /// units, or than `DEFAULT_ROUNDING_ERROR` where none is given.
    pub fn approx_eq(&self, other: &Prop, acceptable_rounding_error: Option<u64>) -> (close: bool)
        ensures
            close == (distance(self.num(), other.num()) < tolerance(acceptable_rounding_error)),
    {
        let limit: u64 = match acceptable_rounding_error {
            Some(units) => units,
            None => DEFAULT_ROUNDING_ERROR,
        };
        self.abs_diff(other).0 < limit
    }
}

/// The number of units that an optional tolerance stands for.
pub open spec fn tolerance(acceptable_rounding_error: Option<u64>) -> int {
    match acceptable_rounding_error {
        Some(units) => units as int,
        None => DEFAULT_ROUNDING_ERROR as int,
    }
}

impl UFDRNumber {
    /// The number of units as a mathematical integer.
    pub open spec fn num(self) -> int {
        self.0 as int
    }

    /// Whether the value lies in [0, 3].
    pub open spec fn valid(self) -> bool {
        self.num() <= 3 * unit()
    }

    /// The sum 0.
    pub fn zero() -> (s: UFDRNumber)
        ensures
            s.num() == 0,
    {
        UFDRNumber(0)
    }

    /// The sum 1.
    pub fn one() -> (s: UFDRNumber)
        ensures
            s.num() == unit(),
    {
        UFDRNumber(0xFFFF_FFFF_FFFF_FFFF)
    }

    /// The sum 2.
    pub fn two() -> (s: UFDRNumber)
        ensures
            s.num() == 2 * unit(),
    {
        UFDRNumber(0x1_FFFF_FFFF_FFFF_FFFE)
    }

    /// The sum 3.
    pub fn three() -> (s: UFDRNumber)
        ensures
            s.num() == 3 * unit(),
    {
        UFDRNumber(0x2_FFFF_FFFF_FFFF_FFFD)
    }

    /// Whether the value lies in [0, 3].
    pub fn is_valid(self) -> (ok: bool)
        ensures
            ok == self.valid(),
    {
        self.0 <= 0x2_FFFF_FFFF_FFFF_FFFD
    }

    /// Whether the value is a proportion, that is lies in [0, 1].
    pub fn is_proportion(self) -> (ok: bool)
        ensures
            ok == (self.num() <= unit()),
    {
        self.0 <= 0xFFFF_FFFF_FFFF_FFFF
    }

    /// The value as a proportion.
    pub fn to_prop(self) -> (p: Prop)
        requires
            self.num() <= unit(),
        ensures
            p.num() == self.num(),
    {
        Prop(self.0 as u64)
    }

    /// The distance between two sums.
    pub fn abs_diff(&self, other: &UFDRNumber) -> (diff: UFDRNumber)
        ensures
            diff.num() == distance(self.num(), other.num()),
    {
        if self.0 <= other.0 {
            UFDRNumber(other.0 - self.0)
        } else {
            UFDRNumber(self.0 - other.0)
        }
    }

    /// Whether two sums differ by less than the given number of units,
    /// or than `DEFAULT_ROUNDING_ERROR` where none is given.
    pub fn approx_eq(&self, other: &UFDRNumber, acceptable_rounding_error: Option<u64>) -> (close:
        bool)
        ensures
            close == (distance(self.num(), other.num()) < tolerance(acceptable_rounding_error)),
    {
        let limit: u64 = match acceptable_rounding_error {
            Some(units) => units,
            None => DEFAULT_ROUNDING_ERROR,
        };
        self.abs_diff(other).0 < limit as u128
    }
}

impl vstd::std_specs::ops::MulSpecImpl for Prop {
    open spec fn obeys_mul_spec() -> bool {
        true
    }

    open spec fn mul_req(self, rhs: Prop) -> bool {
        true
    }

    open spec fn mul_spec(self, rhs: Prop) -> Prop {
        Prop(scaled_product(self.num(), rhs.num()) as u64)
    }
}

impl core::ops::Mul for Prop {
    type Output = Prop;

    /// The product, rounded down to a unit.
    fn mul(self, rhs: Prop) -> (product: Prop) {
        proof {
            lemma_scale_down_le(self.num(), rhs.num(), unit());
            assert(self.num() * rhs.num() <= unit() * unit()) by (nonlinear_arith)
                requires
                    0 <= self.num() <= unit(),
                    0 <= rhs.num() <= unit(),
            ;
        }
        let wide: u128 = (self.0 as u128) * (rhs.0 as u128);
        Prop((wide / 0xFFFF_FFFF_FFFF_FFFFu128) as u64)
    }
}

impl vstd::std_specs::ops::DivSpecImpl for Prop {
    open spec fn obeys_div_spec() -> bool {
        true
    }

    open spec fn div_req(self, rhs: Prop) -> bool {
        0 < rhs.num() && self.num() <= rhs.num()
    }

    open spec fn div_spec(self, rhs: Prop) -> Prop {
        Prop(scaled_ratio(self.num(), rhs.num()) as u64)
    }
}

impl core::ops::Div for Prop {
    type Output = Prop;

    /// The ratio to a proportion that is no smaller, rounded down to a unit.
    fn div(self, rhs: Prop) -> (ratio: Prop) {
        proof {
            lemma_ratio_le(self.num(), rhs.num(), unit());
            assert(self.num() * unit() <= unit() * unit()) by (nonlinear_arith)
                requires
                    0 <= self.num() <= unit(),
            ;
        }
        let wide: u128 = (self.0 as u128) * 0xFFFF_FFFF_FFFF_FFFFu128;
        Prop((wide / (rhs.0 as u128)) as u64)
    }
}

impl vstd::std_specs::ops::AddSpecImpl for Prop {
    open spec fn obeys_add_spec() -> bool {
        true
    }

    open spec fn add_req(self, rhs: Prop) -> bool {
        true
    }

    open spec fn add_spec(self, rhs: Prop) -> UFDRNumber {
        UFDRNumber((self.num() + rhs.num()) as u128)
    }
}

impl core::ops::Add for Prop {
    type Output = UFDRNumber;

    /// The sum of two proportions, which may exceed one.
    fn add(self, rhs: Prop) -> (sum: UFDRNumber) {
        UFDRNumber(self.0 as u128 + rhs.0 as u128)
    }
}

impl vstd::std_specs::ops::SubSpecImpl for Prop {
    open spec fn obeys_sub_spec() -> bool {
        true
    }

    open spec fn sub_req(self, rhs: Prop) -> bool {
        rhs.num() <= self.num()
    }

    open spec fn sub_spec(self, rhs: Prop) -> Prop {
        Prop((self.num() - rhs.num()) as u64)
    }
}

impl core::ops::Sub for Prop {
    type Output = Prop;

    /// The difference from a proportion that is no smaller.
    fn sub(self, rhs: Prop) -> (diff: Prop) {
        Prop(self.0 - rhs.0)
    }
}

impl vstd::std_specs::ops::MulSpecImpl<u8> for Prop {
    open spec fn obeys_mul_spec() -> bool {
        true
    }

    open spec fn mul_req(self, rhs: u8) -> bool {
        true
    }

    open spec fn mul_spec(self, rhs: u8) -> UFDRNumber {
        UFDRNumber((self.num() * rhs as int) as u128)
    }
}

impl core::ops::Mul<u8> for Prop {
    type Output = UFDRNumber;

    /// A whole multiple of a proportion.
    fn mul(self, rhs: u8) -> (product: UFDRNumber) {
        proof {
            assert(0 <= self.num() * (rhs as int) <= unit() * 255) by (nonlinear_arith)
                requires
                    0 <= self.num() <= unit(),
                    0 <= rhs as int <= 255,
            ;
        }
        UFDRNumber(self.0 as u128 * rhs as u128)
    }
}

impl vstd::std_specs::convert::FromSpecImpl<Prop> for UFDRNumber {
    open spec fn obeys_from_spec() -> bool {
        true
    }

    open spec fn from_spec(p: Prop) -> UFDRNumber {
        UFDRNumber(p.0 as u128)
    }
}

impl From<Prop> for UFDRNumber {
    fn from(p: Prop) -> (s: UFDRNumber) {
        UFDRNumber(p.0 as u128)
    }
}

impl vstd::std_specs::ops::AddSpecImpl for UFDRNumber {
    open spec fn obeys_add_spec() -> bool {
        true
    }

    open spec fn add_req(self, rhs: UFDRNumber) -> bool {
        self.num() + rhs.num() <= u128::MAX
    }

    open spec fn add_spec(self, rhs: UFDRNumber) -> UFDRNumber {
        UFDRNumber((self.num() + rhs.num()) as u128)
    }
}

impl core::ops::Add for UFDRNumber {
    type Output = UFDRNumber;

    fn add(self, rhs: UFDRNumber) -> (sum: UFDRNumber) {
        UFDRNumber(self.0 + rhs.0)
    }
}

impl vstd::std_specs::ops::AddSpecImpl<Prop> for UFDRNumber {
    open spec fn obeys_add_spec() -> bool {
        true
    }

    open spec fn add_req(self, rhs: Prop) -> bool {
        self.num() + rhs.num() <= u128::MAX
    }

    open spec fn add_spec(self, rhs: Prop) -> UFDRNumber {
        UFDRNumber((self.num() + rhs.num()) as u128)
    }
}

impl core::ops::Add<Prop> for UFDRNumber {
    type Output = UFDRNumber;

    fn add(self, rhs: Prop) -> (sum: UFDRNumber) {
        UFDRNumber(self.0 + rhs.0 as u128)
    }
}

impl vstd::std_specs::ops::SubSpecImpl for UFDRNumber {
    open spec fn obeys_sub_spec() -> bool {
        true
    }

    open spec fn sub_req(self, rhs: UFDRNumber) -> bool {
        rhs.num() <= self.num()
    }

    open spec fn sub_spec(self, rhs: UFDRNumber) -> UFDRNumber {
        UFDRNumber((self.num() - rhs.num()) as u128)
    }
}

impl core::ops::Sub for UFDRNumber {
    type Output = UFDRNumber;

    fn sub(self, rhs: UFDRNumber) -> (diff: UFDRNumber) {
        UFDRNumber(self.0 - rhs.0)
    }
}

impl vstd::std_specs::ops::SubSpecImpl<Prop> for UFDRNumber {
    open spec fn obeys_sub_spec() -> bool {
        true
    }

    open spec fn sub_req(self, rhs: Prop) -> bool {
        rhs.num() <= self.num()
    }

    open spec fn sub_spec(self, rhs: Prop) -> UFDRNumber {
        UFDRNumber((self.num() - rhs.num()) as u128)
    }
}

impl core::ops::Sub<Prop> for UFDRNumber {
    type Output = UFDRNumber;

    fn sub(self, rhs: Prop) -> (diff: UFDRNumber) {
        UFDRNumber(self.0 - rhs.0 as u128)
    }
}

impl vstd::std_specs::ops::MulSpecImpl<Prop> for UFDRNumber {
    open spec fn obeys_mul_spec() -> bool {
        true
    }

    open spec fn mul_req(self, rhs: Prop) -> bool {
        true
    }

    open spec fn mul_spec(self, rhs: Prop) -> UFDRNumber {
        UFDRNumber(scaled_product(self.num(), rhs.num()) as u128)
    }
}

impl core::ops::Mul<Prop> for UFDRNumber {
    type Output = UFDRNumber;

    /// The sum scaled by a proportion, rounded down to a unit. The whole
    /// ones of the sum are scaled apart from its fraction, which keeps
    /// every intermediate value within 128 bits.
    fn mul(self, rhs: Prop) -> (product: UFDRNumber) {
        let ones: u128 = self.0 / 0xFFFF_FFFF_FFFF_FFFFu128;
        let fraction: u128 = self.0 % 0xFFFF_FFFF_FFFF_FFFFu128;
        proof {
            let m = unit();
            let p = rhs.num();
            let q = ones as int;
            let r = fraction as int;
            lemma_floor_div_bounds(self.num(), m);
            lemma_scale_down_le(self.num(), p, m);
            assert(self.num() * p == (q * p) * m + r * p) by (nonlinear_arith)
                requires
                    self.num() == q * m + r,
            ;
            lemma_floor_div_split(q * p, r * p, m);
            assert(0 <= r * p <= m * m) by (nonlinear_arith)
                requires
                    0 <= r < m,
                    0 <= p <= m,
            ;
            assert(0 <= q * p) by (nonlinear_arith)
                requires
                    0 <= q,
                    0 <= p,
            ;
            lemma_floor_div_nonneg(r * p, m);
        }
        UFDRNumber(ones * (rhs.0 as u128) + fraction * (rhs.0 as u128) / 0xFFFF_FFFF_FFFF_FFFFu128)
    }
}

impl vstd::std_specs::ops::MulSpecImpl<u8> for UFDRNumber {
    open spec fn obeys_mul_spec() -> bool {
        true
    }

    open spec fn mul_req(self, rhs: u8) -> bool {
        self.num() * rhs as int <= u128::MAX
    }

    open spec fn mul_spec(self, rhs: u8) -> UFDRNumber {
        UFDRNumber((self.num() * rhs as int) as u128)
    }
}

impl core::ops::Mul<u8> for UFDRNumber {
    type Output = UFDRNumber;

    fn mul(self, rhs: u8) -> (product: UFDRNumber) {
        proof {
            assert(0 <= self.num() * (rhs as int)) by (nonlinear_arith)
                requires
                    0 <= self.num(),
                    0 <= rhs as int,
            ;
        }
        UFDRNumber(self.0 * rhs as u128)
    }
}

impl vstd::std_specs::ops::DivSpecImpl<u8> for UFDRNumber {
    open spec fn obeys_div_spec() -> bool {
        true
    }

    open spec fn div_req(self, rhs: u8) -> bool {
        rhs > 0
    }

    open spec fn div_spec(self, rhs: u8) -> UFDRNumber {
        UFDRNumber((self.num() / rhs as int) as u128)
    }
}

impl core::ops::Div<u8> for UFDRNumber {
    type Output = UFDRNumber;

    /// The sum shared out in equal parts, rounded down to a unit.
    fn div(self, rhs: u8) -> (part: UFDRNumber) {
        UFDRNumber(self.0 / rhs as u128)
    }
}

impl vstd::std_specs::ops::RemSpecImpl<u8> for UFDRNumber {
    open spec fn obeys_rem_spec() -> bool {
        true
    }

    open spec fn rem_req(self, rhs: u8) -> bool {
        rhs > 0
    }

    open spec fn rem_spec(self, rhs: u8) -> u8 {
        (self.num() % rhs as int) as u8
    }
}

impl core::ops::Rem<u8> for UFDRNumber {
    type Output = u8;

    /// The units left over when the sum is shared out in equal parts.
    fn rem(self, rhs: u8) -> (left: u8) {
        (self.0 % rhs as u128) as u8
    }
}

impl vstd::std_specs::ops::DivSpecImpl for UFDRNumber {
    open spec fn obeys_div_spec() -> bool {
        true
    }

    open spec fn div_req(self, rhs: UFDRNumber) -> bool {
        &&& self.valid()
        &&& rhs.valid()
        &&& 0 < rhs.num()
        &&& scaled_ratio(self.num(), rhs.num()) <= 3 * unit()
    }

    open spec fn div_spec(self, rhs: UFDRNumber) -> UFDRNumber {
        UFDRNumber(scaled_ratio(self.num(), rhs.num()) as u128)
    }
}

impl core::ops::Div for UFDRNumber {
    type Output = UFDRNumber;

    /// The ratio of two sums, rounded down to a unit. The scaled dividend
    /// does not fit in 128 bits, so the division is done in two steps of 32
    /// bits each.
    fn div(self, rhs: UFDRNumber) -> (ratio: UFDRNumber) {
        let high: u128 = self.0 * 0xFFFF_FFFFu128;
        let high_quotient: u128 = high / rhs.0;
        let high_left: u128 = high % rhs.0;
        proof {
            let a = self.num();
            let b = rhs.num();
            let q1 = high_quotient as int;
            let r1 = high_left as int;
            lemma_floor_div_bounds(a * 0xFFFF_FFFF, b);
            let t0 = r1 * 0x1_0000_0000 + a * 0xFFFF_FFFF;
            assert(a * unit() == (q1 * 0x1_0000_0000) * b + t0) by (nonlinear_arith)
                requires
                    a * 0xFFFF_FFFF == q1 * b + r1,
                    t0 == r1 * 0x1_0000_0000 + a * 0xFFFF_FFFF,
                    unit() == 0xFFFF_FFFF * 0x1_0000_0000 + 0xFFFF_FFFF,
            ;
            lemma_floor_div_split(q1 * 0x1_0000_0000, t0, b);
            lemma_floor_div_nonneg(t0, b);
        }
        let low: u128 = high_left * 0x1_0000_0000u128 + self.0 * 0xFFFF_FFFFu128;
        UFDRNumber(high_quotient * 0x1_0000_0000u128 + low / rhs.0)
    }
}

} // verus!
