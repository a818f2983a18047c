//! The secondary hues: cyan, magenta and yellow.

use crate::arith::lemma_floor_div_bounds;
use crate::chroma::Chroma;
use crate::chroma::Warmth;
use crate::geometry::HueIfce;
use crate::proportion::unit;
use crate::proportion::Prop;
use crate::proportion::UFDRNumber;
use crate::rgb::LightLevel;
use crate::rgb::RGB;
use crate::sum_range::UFDRNumberOrdering;
use crate::sum_range::UFDRNumberRange;
use vstd::prelude::*;

verus! {

/// A secondary hue: two equal components stand above the third.
#[derive(Debug, PartialEq, Eq, Clone, Copy, Structural, PartialOrd, Ord, Hash)]
pub enum CMYHue {
    Magenta,
    Yellow,
    Cyan,
}

impl CMYHue {
    /// The colour whose two leading components are `high` and whose third
    /// is `low`.
    pub open spec fn arrange(self, high: Prop, low: Prop) -> (Prop, Prop, Prop) {
        match self {
            CMYHue::Cyan => (low, high, high),
            CMYHue::Magenta => (high, low, high),
            CMYHue::Yellow => (high, high, low),
        }
    }

    /// The range of sums for a chroma of magnitude `c`, whatever `c`.
    pub open spec fn range_for(c: int) -> UFDRNumberRange {
        UFDRNumberRange {
            min: UFDRNumber((2 * c) as u128),
            max_chroma_sum: UFDRNumber((2 * unit()) as u128),
            max: UFDRNumber((3 * unit() - c) as u128),
        }
    }

    fn make_rgb<T: LightLevel>(&self, components: (Prop, Prop)) -> (rgb: RGB<T>)
        ensures
            rgb == RGB::<T>::of_props(self.arrange(components.0, components.1)),
    {
        match self {
            CMYHue::Cyan => RGB::from_props(components.1, components.0, components.0),
            CMYHue::Magenta => RGB::from_props(components.0, components.1, components.0),
            CMYHue::Yellow => RGB::from_props(components.0, components.0, components.1),
        }
    }
}

impl HueIfce for CMYHue {
    open spec fn wf(&self) -> bool {
        true
    }

    open spec fn peak_sum(&self) -> UFDRNumber {
        UFDRNumber((2 * unit()) as u128)
    }

    open spec fn sum_range(&self, prop: Prop) -> Option<UFDRNumberRange> {
        if prop.num() == 0 {
            None
        } else {
            Some(Self::range_for(prop.num()))
        }
    }

    open spec fn peak_chroma(&self, sum: UFDRNumber) -> Option<Chroma> {
        if sum.num() == 0 || sum.num() == 3 * unit() {
            None
        } else if sum.num() < 2 * unit() {
            Some(Chroma::Shade(Prop((sum.num() / 2) as u64)))
        } else if sum.num() > 2 * unit() {
            Some(Chroma::Tint(Prop((3 * unit() - sum.num()) as u64)))
        } else {
            Some(Chroma::Tint(Prop(unit() as u64)))
        }
    }

    open spec fn warmth(&self, chroma: Chroma) -> Warmth {
        match self {
            CMYHue::Cyan => Warmth(Prop(((unit() - chroma.magnitude().num()) / 2) as u64)),
            CMYHue::Magenta | CMYHue::Yellow => Warmth(
                Prop(((2 * unit() + chroma.magnitude().num()) / 4) as u64),
            ),
        }
    }

    open spec fn peak_levels(&self) -> (Prop, Prop, Prop) {
        self.arrange(Prop(unit() as u64), Prop(0))
    }

    open spec fn peak_levels_for_sum(&self, sum: UFDRNumber) -> Option<(Prop, Prop, Prop)> {
        if sum.num() == 0 || sum.num() == 3 * unit() {
            None
        } else if sum.num() < 2 * unit() {
            Some(self.arrange(Prop((sum.num() / 2) as u64), Prop(0)))
        } else {
            Some(self.arrange(Prop(unit() as u64), Prop((sum.num() - 2 * unit()) as u64)))
        }
    }

    open spec fn darkest_levels(&self, chroma: Chroma) -> (Prop, Prop, Prop) {
        self.arrange(chroma.magnitude(), Prop(0))
    }

    open spec fn lightest_levels(&self, chroma: Chroma) -> (Prop, Prop, Prop) {
        self.arrange(Prop(unit() as u64), Prop((unit() - chroma.magnitude().num()) as u64))
    }

    open spec fn levels_for(&self, sum: UFDRNumber, chroma: Chroma) -> Option<(Prop, Prop, Prop)> {
        let c = chroma.magnitude().num();
        if c == 0 || Self::range_for(c).place_of(sum).failure() {
            None
        } else {
            Some(
                self.arrange(
                    Prop(((sum.num() + c) / 3) as u64),
                    Prop(((sum.num() - 2 * c) / 3) as u64),
                ),
            )
        }
    }

    fn sum_range_for_chroma_prop(&self, prop: Prop) -> (range: Option<UFDRNumberRange>) {
        if prop.0 == 0 {
            None
        } else if prop.0 == 0xFFFF_FFFF_FFFF_FFFF {
            Some(UFDRNumberRange::from((UFDRNumber::two(), UFDRNumber::two(), UFDRNumber::two())))
        } else {
            Some(
                UFDRNumberRange::from(
                    (prop * 2u8, UFDRNumber::two(), UFDRNumber::three() - prop),
                ),
            )
        }
    }

    fn sum_for_max_chroma(&self) -> (sum: UFDRNumber) {
        UFDRNumber::two()
    }

    fn max_chroma_for_sum(&self, sum: UFDRNumber) -> (chroma: Option<Chroma>) {
        if sum.0 == 0 || sum.0 == UFDRNumber::three().0 {
            None
        } else if sum.0 < UFDRNumber::two().0 {
            Some(Chroma::Shade((sum / 2u8).to_prop()))
        } else if sum.0 > UFDRNumber::two().0 {
            Some(Chroma::Tint((UFDRNumber::three() - sum).to_prop()))
        } else {
            Some(Chroma::one())
        }
    }

    fn warmth_for_chroma(&self, chroma: Chroma) -> (warmth: Warmth) {
        let x_dash = match self {
            CMYHue::Cyan => ((UFDRNumber::one() - chroma.prop()) / 2u8).to_prop(),
            CMYHue::Magenta | CMYHue::Yellow => ((UFDRNumber::two() + chroma.prop())
                / 4u8).to_prop(),
        };
        Warmth(x_dash)
    }

    fn max_chroma_rgb<T: LightLevel>(&self) -> (rgb: RGB<T>) {
        self.make_rgb((Prop::one(), Prop::zero()))
    }

    fn max_chroma_rgb_for_sum<T: LightLevel>(&self, sum: UFDRNumber) -> (rgb: Option<RGB<T>>) {
        if sum.0 == 0 || sum.0 == UFDRNumber::three().0 {
            None
        } else if sum.0 < UFDRNumber::two().0 {
            Some(self.make_rgb(((sum / 2u8).to_prop(), Prop::zero())))
        } else if sum.0 > UFDRNumber::two().0 {
            Some(self.make_rgb((Prop::one(), (sum - UFDRNumber::two()).to_prop())))
        } else {
            Some(self.max_chroma_rgb())
        }
    }

    fn min_sum_rgb_for_chroma<T: LightLevel>(&self, chroma: Chroma) -> (rgb: RGB<T>) {
        let prop = chroma.prop();
        if prop.0 == 0 {
            RGB::<T>::black()
        } else if prop.0 == 0xFFFF_FFFF_FFFF_FFFF {
            self.max_chroma_rgb()
        } else {
            self.make_rgb((prop, Prop::zero()))
        }
    }

    fn max_sum_rgb_for_chroma<T: LightLevel>(&self, chroma: Chroma) -> (rgb: RGB<T>) {
        let prop = chroma.prop();
        if prop.0 == 0 {
            RGB::<T>::white()
        } else if prop.0 == 0xFFFF_FFFF_FFFF_FFFF {
            self.max_chroma_rgb()
        } else {
            self.make_rgb((Prop::one(), Prop::one() - prop))
        }
    }

    fn rgb_for_sum_and_chroma<T: LightLevel>(&self, sum: UFDRNumber, chroma: Chroma) -> (rgb:
        Option<RGB<T>>) {
        match self.sum_range_for_chroma_prop(chroma.prop()) {
            None => None,
            Some(sum_range) => match sum_range.compare_sum(sum) {
                UFDRNumberOrdering::TooSmall(_) | UFDRNumberOrdering::TooBig(_) => None,
                _ => {
                    proof {
                        lemma_floor_div_bounds(sum.num() + chroma.magnitude().num(), 3);
                        lemma_floor_div_bounds(sum.num() - 2 * chroma.magnitude().num(), 3);
                    }
                    Some(
                        self.make_rgb(
                            (
                                ((sum + chroma.prop()) / 3u8).to_prop(),
                                ((sum - chroma.prop() * 2u8) / 3u8).to_prop(),
                            ),
                        ),
                    )
                },
            },
        }
    }
}

} // verus!
