//! Conversions between proportions and the light levels of fixed-width
//! pixel formats. Every level of a format maps to a proportion of its own
//! and back without loss.

use crate::arith::lemma_exact_div;
use crate::arith::lemma_ratio_le;
use crate::arith::lemma_scale_down_le;
use crate::proportion::unit;
use crate::proportion::Prop;
use vstd::prelude::*;

verus! {

/// The proportion, in units, that stands for `level` out of `top`.
pub open spec fn units_of_level(level: int, top: int) -> int {
    level * unit() / top
}

/// The level out of `top`, rounded down, that a number of units stands for.
pub open spec fn level_of_units(units: int, top: int) -> int {
    units * top / unit()
}

/// Every level of a format whose top level divides the unit comes back
/// unchanged from its proportion.
pub proof fn lemma_level_round_trip(level: int, top: int)
    requires
        0 <= level <= top,
        0 < top,
        unit() % top == 0,
    ensures
        level_of_units(units_of_level(level, top), top) == level,
        0 <= units_of_level(level, top) <= unit(),
{
    let k = unit() / top;
    vstd::arithmetic::div_mod::lemma_fundamental_div_mod(unit(), top);
    assert(unit() == k * top) by (nonlinear_arith)
        requires
            unit() == top * k + 0,
    ;
    assert(level * unit() == (level * k) * top) by (nonlinear_arith)
        requires
            unit() == k * top,
    ;
    lemma_exact_div(level * k, top);
    assert((level * k) * top == level * unit());
    lemma_exact_div(level, unit());
    lemma_ratio_le(level, top, unit());
}

/// The lowest level of a format stands for zero and its top level for one.
pub proof fn lemma_level_ends(top: int)
    requires
        0 < top,
    ensures
        units_of_level(0, top) == 0,
        units_of_level(top, top) == unit(),
        level_of_units(0, top) == 0,
        level_of_units(unit(), top) == top,
{
    assert(0 * unit() == 0) by (nonlinear_arith);
    assert(0 * top == 0) by (nonlinear_arith);
    lemma_exact_div(0, top);
    lemma_exact_div(0, unit());
    lemma_exact_div(unit(), top);
    lemma_exact_div(top, unit());
}

/// Distinct levels of such a format have distinct proportions.
pub proof fn lemma_levels_distinct(a: int, b: int, top: int)
    requires
        0 <= a <= top,
        0 <= b <= top,
        0 < top,
        unit() % top == 0,
        units_of_level(a, top) == units_of_level(b, top),
    ensures
        a == b,
{
    lemma_level_round_trip(a, top);
    lemma_level_round_trip(b, top);
}

impl vstd::std_specs::convert::FromSpecImpl<u8> for Prop {
    open spec fn obeys_from_spec() -> bool {
        true
    }

    open spec fn from_spec(level: u8) -> Prop {
        Prop(units_of_level(level as int, 255) as u64)
    }
}

impl From<u8> for Prop {
    fn from(level: u8) -> (p: Prop) {
        proof {
            lemma_ratio_le(level as int, 255, unit());
            assert(0 <= level as int * unit() <= 255 * unit()) by (nonlinear_arith)
                requires
                    0 <= level as int <= 255,
            ;
        }
        Prop((level as u128 * 0xFFFF_FFFF_FFFF_FFFFu128 / 255u128) as u64)
    }
}

impl vstd::std_specs::convert::FromSpecImpl<u16> for Prop {
    open spec fn obeys_from_spec() -> bool {
        true
    }

    open spec fn from_spec(level: u16) -> Prop {
        Prop(units_of_level(level as int, 65535) as u64)
    }
}

impl From<u16> for Prop {
    fn from(level: u16) -> (p: Prop) {
        proof {
            lemma_ratio_le(level as int, 65535, unit());
            assert(0 <= level as int * unit() <= 65535 * unit()) by (nonlinear_arith)
                requires
                    0 <= level as int <= 65535,
            ;
        }
        Prop((level as u128 * 0xFFFF_FFFF_FFFF_FFFFu128 / 65535u128) as u64)
    }
}

impl vstd::std_specs::convert::FromSpecImpl<u32> for Prop {
    open spec fn obeys_from_spec() -> bool {
        true
    }

    open spec fn from_spec(level: u32) -> Prop {
        Prop(units_of_level(level as int, 0xFFFF_FFFF) as u64)
    }
}

impl From<u32> for Prop {
    fn from(level: u32) -> (p: Prop) {
        proof {
            lemma_ratio_le(level as int, 0xFFFF_FFFF, unit());
            assert(0 <= level as int * unit() <= 0xFFFF_FFFF * unit()) by (nonlinear_arith)
                requires
                    0 <= level as int <= 0xFFFF_FFFF,
            ;
        }
        Prop((level as u128 * 0xFFFF_FFFF_FFFF_FFFFu128 / 0xFFFF_FFFFu128) as u64)
    }
}

impl vstd::std_specs::convert::FromSpecImpl<u64> for Prop {
    open spec fn obeys_from_spec() -> bool {
        true
    }

    open spec fn from_spec(level: u64) -> Prop {
        Prop(level)
    }
}

impl From<u64> for Prop {
    fn from(level: u64) -> (p: Prop) {
        Prop(level)
    }
}

impl vstd::std_specs::convert::FromSpecImpl<Prop> for u8 {
    open spec fn obeys_from_spec() -> bool {
        true
    }

    open spec fn from_spec(p: Prop) -> u8 {
        level_of_units(p.num(), 255) as u8
    }
}

impl From<Prop> for u8 {
    fn from(p: Prop) -> (level: u8) {
        proof {
            lemma_scale_down_le(255, p.num(), unit());
            assert(0 <= p.num() * 255 <= unit() * 255) by (nonlinear_arith)
                requires
                    0 <= p.num() <= unit(),
            ;
            assert(p.num() * 255 == 255 * p.num()) by (nonlinear_arith);
        }
        (p.0 as u128 * 255u128 / 0xFFFF_FFFF_FFFF_FFFFu128) as u8
    }
}

impl vstd::std_specs::convert::FromSpecImpl<Prop> for u16 {
    open spec fn obeys_from_spec() -> bool {
        true
    }

    open spec fn from_spec(p: Prop) -> u16 {
        level_of_units(p.num(), 65535) as u16
    }
}

impl From<Prop> for u16 {
    fn from(p: Prop) -> (level: u16) {
        proof {
            lemma_scale_down_le(65535, p.num(), unit());
            assert(0 <= p.num() * 65535 <= unit() * 65535) by (nonlinear_arith)
                requires
                    0 <= p.num() <= unit(),
            ;
            assert(p.num() * 65535 == 65535 * p.num()) by (nonlinear_arith);
        }
        (p.0 as u128 * 65535u128 / 0xFFFF_FFFF_FFFF_FFFFu128) as u16
    }
}

impl vstd::std_specs::convert::FromSpecImpl<Prop> for u32 {
    open spec fn obeys_from_spec() -> bool {
        true
    }

    open spec fn from_spec(p: Prop) -> u32 {
        level_of_units(p.num(), 0xFFFF_FFFF) as u32
    }
}

impl From<Prop> for u32 {
    fn from(p: Prop) -> (level: u32) {
        proof {
            lemma_scale_down_le(0xFFFF_FFFF, p.num(), unit());
            assert(0 <= p.num() * 0xFFFF_FFFF <= unit() * 0xFFFF_FFFF) by (nonlinear_arith)
                requires
                    0 <= p.num() <= unit(),
            ;
            assert(p.num() * 0xFFFF_FFFF == 0xFFFF_FFFF * p.num()) by (nonlinear_arith);
        }
        (p.0 as u128 * 0xFFFF_FFFFu128 / 0xFFFF_FFFF_FFFF_FFFFu128) as u32
    }
}

impl vstd::std_specs::convert::FromSpecImpl<Prop> for u64 {
    open spec fn obeys_from_spec() -> bool {
        true
    }

    open spec fn from_spec(p: Prop) -> u64 {
        p.0
    }
}

impl From<Prop> for u64 {
    fn from(p: Prop) -> (level: u64) {
        p.0
    }
}

} // verus!
