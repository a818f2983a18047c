//! The primary hues: red, green and blue.

use crate::chroma::Chroma;
use crate::chroma::Warmth;
use crate::geometry::HueIfce;
use crate::proportion::unit;
use crate::proportion::Prop;
use crate::proportion::UFDRNumber;
use crate::rgb::LightLevel;
use crate::rgb::RGB;
use crate::sum_range::UFDRNumberRange;
use vstd::prelude::*;

verus! {

/// A primary hue: one component stands above the other two, which are
/// equal.
#[derive(Debug, PartialEq, Eq, Clone, Copy, Structural, PartialOrd, Ord, Hash)]
pub enum RGBHue {
    Blue,
    Red,
    Green,
}

impl RGBHue {
    /// The colour whose leading component is `high` and whose other two
    /// are `low`.
    pub open spec fn arrange(self, high: Prop, low: Prop) -> (Prop, Prop, Prop) {
        match self {
            RGBHue::Red => (high, low, low),
            RGBHue::Green => (low, high, low),
            RGBHue::Blue => (low, low, high),
        }
    }

    /// The level shared by the two lower components of the colour with a
    /// sum and a chroma of magnitude `c`: a third of what the sum holds
    /// beyond the chroma, rounded down to a unit.
    pub open spec fn low_level(sum: int, c: int) -> int {
        (sum - c) / 3
    }

    fn make_rgb<T: LightLevel>(&self, components: (Prop, Prop)) -> (rgb: RGB<T>)
        ensures
            rgb == RGB::<T>::of_props(self.arrange(components.0, components.1)),
    {
        match self {
            RGBHue::Red => RGB::from_props(components.0, components.1, components.1),
            RGBHue::Green => RGB::from_props(components.1, components.0, components.1),
            RGBHue::Blue => RGB::from_props(components.1, components.1, components.0),
        }
    }
}

impl HueIfce for RGBHue {
    open spec fn wf(&self) -> bool {
        true
    }

    open spec fn peak_sum(&self) -> UFDRNumber {
        UFDRNumber(unit() as u128)
    }

    open spec fn sum_range(&self, prop: Prop) -> Option<UFDRNumberRange> {
        if prop.num() == 0 {
            None
        } else {
            Some(
                UFDRNumberRange {
                    min: UFDRNumber(prop.num() as u128),
                    max_chroma_sum: UFDRNumber(unit() as u128),
                    max: UFDRNumber((3 * unit() - 2 * prop.num()) as u128),
                },
            )
        }
    }

    open spec fn peak_chroma(&self, sum: UFDRNumber) -> Option<Chroma> {
        if sum.num() == 0 || sum.num() == 3 * unit() {
            None
        } else if sum.num() < unit() {
            Some(Chroma::Shade(Prop(sum.num() as u64)))
        } else if sum.num() > unit() {
            Some(Chroma::Tint(Prop(((3 * unit() - sum.num()) / 2) as u64)))
        } else {
            Some(Chroma::Tint(Prop(unit() as u64)))
        }
    }

    open spec fn warmth(&self, chroma: Chroma) -> Warmth {
        match self {
            RGBHue::Red => Warmth(Prop(((unit() + chroma.magnitude().num()) / 2) as u64)),
            RGBHue::Green | RGBHue::Blue => Warmth(
                Prop(((2 * unit() - chroma.magnitude().num()) / 4) as u64),
            ),
        }
    }

    open spec fn peak_levels(&self) -> (Prop, Prop, Prop) {
        self.arrange(Prop(unit() as u64), Prop(0))
    }

    open spec fn peak_levels_for_sum(&self, sum: UFDRNumber) -> Option<(Prop, Prop, Prop)> {
        if sum.num() == 0 || sum.num() == 3 * unit() {
            None
        } else if sum.num() <= unit() {
            Some(self.arrange(Prop(sum.num() as u64), Prop(0)))
        } else {
            Some(self.arrange(Prop(unit() as u64), Prop(((sum.num() - unit()) / 2) as u64)))
        }
    }

    open spec fn darkest_levels(&self, chroma: Chroma) -> (Prop, Prop, Prop) {
        self.arrange(chroma.magnitude(), Prop(0))
    }

    open spec fn lightest_levels(&self, chroma: Chroma) -> (Prop, Prop, Prop) {
        self.arrange(Prop(unit() as u64), Prop((unit() - chroma.magnitude().num()) as u64))
    }

    open spec fn levels_for(&self, sum: UFDRNumber, chroma: Chroma) -> Option<(Prop, Prop, Prop)> {
        let c = chroma.magnitude().num();
        let low = Self::low_level(sum.num(), c);
        if c == 0 || sum.num() == 3 * unit() || sum.num() < c || low + c > unit() {
            None
        } else {
            Some(self.arrange(Prop((low + c) as u64), Prop(low as u64)))
        }
    }

    fn sum_range_for_chroma_prop(&self, prop: Prop) -> (range: Option<UFDRNumberRange>) {
        if prop.0 == 0 {
            None
        } else if prop.0 == 0xFFFF_FFFF_FFFF_FFFF {
            Some(UFDRNumberRange::from((UFDRNumber::one(), UFDRNumber::one(), UFDRNumber::one())))
        } else {
            Some(
                UFDRNumberRange::from(
                    (UFDRNumber::from(prop), UFDRNumber::one(), UFDRNumber::three() - prop * 2u8),
                ),
            )
        }
    }

    fn sum_for_max_chroma(&self) -> (sum: UFDRNumber) {
        UFDRNumber::one()
    }

    fn max_chroma_for_sum(&self, sum: UFDRNumber) -> (chroma: Option<Chroma>) {
        if sum.0 == 0 || sum.0 == UFDRNumber::three().0 {
            None
        } else if sum.0 < UFDRNumber::one().0 {
            Some(Chroma::Shade(sum.to_prop()))
        } else if sum.0 > UFDRNumber::one().0 {
            Some(Chroma::Tint(((UFDRNumber::three() - sum) / 2u8).to_prop()))
        } else {
            Some(Chroma::one())
        }
    }

    fn warmth_for_chroma(&self, chroma: Chroma) -> (warmth: Warmth) {
        let x_dash = match self {
            RGBHue::Red => ((UFDRNumber::one() + chroma.prop()) / 2u8).to_prop(),
            RGBHue::Green | RGBHue::Blue => ((UFDRNumber::two() - chroma.prop()) / 4u8).to_prop(),
        };
        Warmth(x_dash)
    }

    fn max_chroma_rgb<T: LightLevel>(&self) -> (rgb: RGB<T>) {
        self.make_rgb((Prop::one(), Prop::zero()))
    }

    fn max_chroma_rgb_for_sum<T: LightLevel>(&self, sum: UFDRNumber) -> (rgb: Option<RGB<T>>) {
        if sum.0 == 0 || sum.0 == UFDRNumber::three().0 {
            None
        } else if sum.0 <= UFDRNumber::one().0 {
            Some(self.make_rgb((sum.to_prop(), Prop::zero())))
        } else {
            Some(self.make_rgb((Prop::one(), ((sum - UFDRNumber::one()) / 2u8).to_prop())))
        }
    }

    fn min_sum_rgb_for_chroma<T: LightLevel>(&self, chroma: Chroma) -> (rgb: RGB<T>) {
        let prop = chroma.prop();
        if prop.0 == 0 {
            RGB::<T>::black()
        } else if prop.0 == 0xFFFF_FFFF_FFFF_FFFF {
            self.max_chroma_rgb()
        } else {
            self.make_rgb((prop, Prop::zero()))
        }
    }

    fn max_sum_rgb_for_chroma<T: LightLevel>(&self, chroma: Chroma) -> (rgb: RGB<T>) {
        let prop = chroma.prop();
        if prop.0 == 0 {
            RGB::<T>::white()
        } else if prop.0 == 0xFFFF_FFFF_FFFF_FFFF {
            self.max_chroma_rgb()
        } else {
            self.make_rgb((Prop::one(), Prop::one() - prop))
        }
    }

    fn rgb_for_sum_and_chroma<T: LightLevel>(&self, sum: UFDRNumber, chroma: Chroma) -> (rgb:
        Option<RGB<T>>) {
        let c_prop = chroma.prop();
        if c_prop.0 == 0 {
            None
        } else if sum.0 == UFDRNumber::three().0 {
            // At the sum three white stands alone, and white has no chroma.
            None
        } else if sum.0 < c_prop.0 as u128 {
            None
        } else if sum.0 == c_prop.0 as u128 {
            Some(self.make_rgb::<T>((c_prop, Prop::zero())))
        } else {
            // The chroma is kept exact; the sum of what is handed out may
            // fall short of the sum asked for by up to two units.
            let other = ((sum - c_prop) / 3u8).to_prop();
            let first = other + c_prop;
            if first.is_proportion() {
                Some(self.make_rgb::<T>((first.to_prop(), other)))
            } else {
                None
            }
        }
    }
}

} // verus!
