//! Chroma: how colourful a colour is, together with the side of its hue's
//! peak on which it lies.

use crate::proportion::distance;
use crate::proportion::tolerance;
use crate::proportion::unit;
use crate::proportion::Prop;
use vstd::prelude::*;

verus! {

/// A chroma. `Shade` is for a colour whose component sum lies below the
/// sum at which its hue reaches full chroma, `Tint` for one at or above it.
#[derive(Debug, Clone, Copy, Hash, PartialEq, Eq, Structural)]
pub enum Chroma {
    Shade(Prop),
    Tint(Prop),
}

impl Chroma {
    /// The magnitude, whichever the side.
    pub open spec fn magnitude(self) -> Prop {
        match self {
            Chroma::Shade(p) => p,
            Chroma::Tint(p) => p,
        }
    }

    /// Whether the chroma lies on the shade side.
    pub open spec fn shade(self) -> bool {
        self is Shade
    }

    /// The chroma of every grey: `Shade(0)`.
    pub fn zero() -> (chroma: Chroma)
        ensures
            chroma == Chroma::Shade(Prop(0)),
    {
        Chroma::Shade(Prop(0))
    }

    /// Full chroma: `Tint(1)`.
    pub fn one() -> (chroma: Chroma)
        ensures
            chroma == Chroma::Tint(Prop(0xFFFF_FFFF_FFFF_FFFF)),
    {
        Chroma::Tint(Prop(0xFFFF_FFFF_FFFF_FFFF))
    }

    /// Whether the magnitude is zero.
    pub fn is_zero(&self) -> (none: bool)
        ensures
            none == (self.magnitude().num() == 0),
    {
        match self {
            Chroma::Shade(proportion) => proportion.0 == 0,
            Chroma::Tint(proportion) => proportion.0 == 0,
        }
    }

    /// Whether the chroma lies on the shade side.
    pub fn is_shade(&self) -> (below: bool)
        ensures
            below == self.shade(),
    {
        match self {
            Chroma::Shade(_) => true,
            Chroma::Tint(_) => false,
        }
    }

    /// Whether the chroma lies on the tint side.
    pub fn is_tint(&self) -> (above: bool)
        ensures
            above == !self.shade(),
    {
        match self {
            Chroma::Shade(_) => false,
            Chroma::Tint(_) => true,
        }
    }

    /// The magnitude, whichever the side.
    pub fn proportion(&self) -> (p: Prop)
        ensures
            p == self.magnitude(),
    {
        match self {
            Chroma::Shade(proportion) => *proportion,
            Chroma::Tint(proportion) => *proportion,
        }
    }

    /// The magnitude, whichever the side.
    pub fn prop(&self) -> (p: Prop)
        ensures
            p == self.magnitude(),
    {
        self.proportion()
    }

    /// The distance between the magnitudes of two chromas, sides ignored.
    pub fn abs_diff(&self, other: &Chroma) -> (diff: Prop)
        ensures
            diff.num() == distance(self.magnitude().num(), other.magnitude().num()),
    {
        self.proportion().abs_diff(&other.proportion())
    }

    /// Whether two chromas lie on the same side and their magnitudes differ
    /// by less than the tolerance. A shade never equals a tint.
    pub fn approx_eq(&self, other: &Chroma, acceptable_rounding_error: Option<u64>) -> (close: bool)
        ensures
            close == (self.shade() == other.shade() && distance(
                self.magnitude().num(),
                other.magnitude().num(),
            ) < tolerance(acceptable_rounding_error)),
    {
        match self {
            Chroma::Shade(proportion) => match other {
                Chroma::Shade(other_proportion) => proportion.approx_eq(
                    other_proportion,
                    acceptable_rounding_error,
                ),
                Chroma::Tint(_) => false,
            },
            Chroma::Tint(proportion) => match other {
                Chroma::Shade(_) => false,
                Chroma::Tint(other_proportion) => proportion.approx_eq(
                    other_proportion,
                    acceptable_rounding_error,
                ),
            },
        }
    }
}

/// How warm a colour looks: 1 for full red, 0 for full cyan and one half
/// for every grey.
#[derive(Debug, Clone, Copy, Hash, PartialEq, Eq, Structural, PartialOrd, Ord)]
pub struct Warmth(pub Prop);

impl Warmth {
    /// The warmth as a proportion.
    pub open spec fn level(self) -> Prop {
        self.0
    }

    /// The warmth as a proportion.
    pub fn prop(&self) -> (p: Prop)
        ensures
            p == self.level(),
    {
        self.0
    }

    /// The warmth of every grey: one half, rounded down to a unit.
    pub fn neutral() -> (warmth: Warmth)
        ensures
            warmth.level().num() == unit() / 2,
    {
        Warmth(Prop(0x7FFF_FFFF_FFFF_FFFF))
    }
}

} // verus!
