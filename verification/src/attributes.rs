//! The scalar attributes of a colour: its chroma, greyness, value and
//! warmth, each a proportion.

use crate::chroma::Chroma;
use crate::chroma::Warmth;
use crate::geometry::HueIfce;
use crate::hue::hue_of;
use crate::hue::Hue;
use crate::proportion::unit;
use crate::proportion::Prop;
use crate::proportion::UFDRNumber;
use crate::rgb::highest_of;
use crate::rgb::lowest_of;
use crate::rgb::spread_of;
use crate::rgb::sum_of;
use crate::rgb::LightLevel;
use crate::rgb::RGB;
use vstd::prelude::*;

verus! {

/// The index of a component of a colour.
#[derive(Debug, PartialEq, Eq, Clone, Copy, Structural, PartialOrd, Ord, Hash)]
pub enum CCI {
    Red,
    Green,
    Blue,
}

/// The scalar attributes that a colour can be asked for.
#[derive(Debug, PartialEq, Eq, Clone, Copy, Structural, Hash)]
pub enum ScalarAttribute {
    Chroma,
    Greyness,
    Value,
    Warmth,
}

/// A direction in which a figure can point.
#[derive(Debug, PartialEq, Eq, Clone, Copy, Structural, Hash)]
pub enum Dirn {
    Down,
    Up,
    Right,
    Left,
}

impl ScalarAttribute {
    /// The name of the attribute.
    pub fn name(&self) -> (name: &'static str)
        ensures
            name@ == match self {
                ScalarAttribute::Chroma => "Chroma"@,
                ScalarAttribute::Greyness => "Greyness"@,
                ScalarAttribute::Value => "Value"@,
                ScalarAttribute::Warmth => "Warmth"@,
            },
    {
        match self {
            ScalarAttribute::Chroma => "Chroma",
            ScalarAttribute::Greyness => "Greyness",
            ScalarAttribute::Value => "Value",
            ScalarAttribute::Warmth => "Warmth",
        }
    }
}

impl Chroma {
    /// The chroma of magnitude `prop` for a colour of a hue and a sum:
    /// a shade where the sum lies below that of the hue's peak, a tint
    /// where it lies at or above it. Zero and one have no side: they are
    /// `Shade(0)` and `Tint(1)` at every sum.
    pub open spec fn of(prop: Prop, hue: Hue, sum: UFDRNumber) -> Chroma {
        if prop.num() == 0 {
            Chroma::Shade(prop)
        } else if prop.num() == unit() {
            Chroma::Tint(prop)
        } else if sum.num() < hue.peak_sum().num() {
            Chroma::Shade(prop)
        } else {
            Chroma::Tint(prop)
        }
    }

    /// The chroma of a magnitude for a colour of a hue and a sum.
    pub fn from(arg: (Prop, Hue, UFDRNumber)) -> (chroma: Chroma)
        requires
            arg.1.wf(),
        ensures
            chroma == Chroma::of(arg.0, arg.1, arg.2),
    {
        if arg.0.0 == 0 {
            Chroma::zero()
        } else if arg.0.0 == 0xFFFF_FFFF_FFFF_FFFF {
            Chroma::one()
        } else if arg.2.0 < arg.1.sum_for_max_chroma().0 {
            Chroma::Shade(arg.0)
        } else {
            Chroma::Tint(arg.0)
        }
    }
}

/// The chroma of a colour given as three proportions: its magnitude is the
/// spread of the components, and its side that of the colour's sum with
/// respect to the peak of its hue. A grey has the chroma `Shade(0)`.
pub open spec fn chroma_of(levels: (Prop, Prop, Prop)) -> Chroma {
    match hue_of(levels) {
        Some(hue) => Chroma::of(
            Prop(spread_of(levels) as u64),
            hue,
            UFDRNumber(sum_of(levels) as u128),
        ),
        None => Chroma::Shade(Prop(0)),
    }
}

/// The warmth of a colour given as three proportions; that of a grey is
/// one half.
pub open spec fn warmth_of(levels: (Prop, Prop, Prop)) -> Warmth {
    match hue_of(levels) {
        Some(hue) => hue.warmth(chroma_of(levels)),
        None => Warmth(Prop((unit() / 2) as u64)),
    }
}

impl<T: LightLevel> RGB<T> {
    /// The component that an index names.
    pub fn component(&self, index: CCI) -> (level: T)
        ensures
            level == match index {
                CCI::Red => self.red,
                CCI::Green => self.green,
                CCI::Blue => self.blue,
            },
    {
        match index {
            CCI::Red => self.red,
            CCI::Green => self.green,
            CCI::Blue => self.blue,
        }
    }

    /// The hue of the colour; none for a grey.
    pub fn hue(&self) -> (hue: Option<Hue>)
        ensures
            hue == hue_of(self.props()),
            hue is Some ==> hue->Some_0.wf(),
    {
        match Hue::try_from(self) {
            Ok(hue) => Some(hue),
            Err(_) => None,
        }
    }

    /// The chroma of the colour.
    pub fn chroma(&self) -> (chroma: Chroma)
        ensures
            chroma == chroma_of(self.props()),
    {
        match Hue::try_from(self) {
            Ok(hue) => {
                let red = self.red.to_prop();
                let green = self.green.to_prop();
                let blue = self.blue.to_prop();
                let mut high = red;
                let mut low = red;
                if green.0 > high.0 {
                    high = green;
                }
                if blue.0 > high.0 {
                    high = blue;
                }
                if green.0 < low.0 {
                    low = green;
                }
                if blue.0 < low.0 {
                    low = blue;
                }
                assert(high.num() == highest_of(self.props()));
                assert(low.num() == lowest_of(self.props()));
                Chroma::from((high - low, hue, self.sum()))
            },
            Err(_) => Chroma::zero(),
        }
    }

    /// The greyness of the colour: what its chroma lacks to one.
    pub fn greyness(&self) -> (greyness: Prop)
        ensures
            greyness.num() == unit() - chroma_of(self.props()).magnitude().num(),
    {
        Prop::one() - self.chroma().prop()
    }

    /// The warmth of the colour.
    pub fn warmth(&self) -> (warmth: Warmth)
        ensures
            warmth == warmth_of(self.props()),
    {
        match Hue::try_from(self) {
            Ok(hue) => hue.warmth_for_chroma(self.chroma()),
            Err(_) => Warmth::neutral(),
        }
    }

    /// The colour's hue at full chroma; white for a grey, which has no
    /// hue.
    pub fn max_chroma_rgb(&self) -> (rgb: RGB<T>)
        ensures
            rgb == match hue_of(self.props()) {
                Some(hue) => Self::of_props(hue.peak_levels()),
                None => Self::of_props(
                    (
                        Prop(0xFFFF_FFFF_FFFF_FFFF),
                        Prop(0xFFFF_FFFF_FFFF_FFFF),
                        Prop(0xFFFF_FFFF_FFFF_FFFF),
                    ),
                ),
            },
    {
        match Hue::try_from(self) {
            Ok(hue) => hue.max_chroma_rgb(),
            Err(_) => RGB::<T>::white(),
        }
    }

    /// The attribute asked for, as a proportion.
    pub fn scalar_attribute(&self, attr: ScalarAttribute) -> (level: Prop)
        ensures
            level.num() == match attr {
                ScalarAttribute::Chroma => chroma_of(self.props()).magnitude().num(),
                ScalarAttribute::Greyness => unit() - chroma_of(self.props()).magnitude().num(),
                ScalarAttribute::Value => sum_of(self.props()) / 3,
                ScalarAttribute::Warmth => warmth_of(self.props()).level().num(),
            },
    {
        match attr {
            ScalarAttribute::Chroma => self.chroma().prop(),
            ScalarAttribute::Greyness => self.greyness(),
            ScalarAttribute::Value => self.value(),
            ScalarAttribute::Warmth => self.warmth().prop(),
        }
    }
}

} // verus!
