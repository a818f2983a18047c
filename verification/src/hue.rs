//! Hue: the identity of a colour round the hue circle, whatever its
//! lightness and chroma.

use crate::chroma::Chroma;
use crate::chroma::Warmth;
use crate::geometry::HueIfce;
use crate::primary::RGBHue;
use crate::proportion::distance;
use crate::proportion::tolerance;
use crate::proportion::unit;
use crate::proportion::Prop;
use crate::proportion::UFDRNumber;
use crate::rgb::LightLevel;
use crate::rgb::RGB;
use crate::secondary::CMYHue;
use crate::sextant::Sextant;
use crate::sextant::SextantHue;
use crate::sum_range::UFDRNumberRange;
use vstd::prelude::*;

verus! {

/// A hue: a primary, a secondary, or a hue strictly inside one of the six
/// wedges between them.
#[derive(Debug, PartialEq, Eq, Clone, Copy, Structural, Hash)]
pub enum Hue {
    Primary(RGBHue),
    Secondary(CMYHue),
    Sextant(SextantHue),
}

/// The hue of a colour given as three proportions; none for a grey, whose
/// components are equal. Two equal components make a primary where they
/// are the lower ones and a secondary where they are the higher ones; three
/// distinct components lie in the wedge that their order names.
pub open spec fn hue_of(levels: (Prop, Prop, Prop)) -> Option<Hue> {
    let red = levels.0.num();
    let green = levels.1.num();
    let blue = levels.2.num();
    if red == green && green == blue {
        None
    } else if red == green {
        if red > blue {
            Some(Hue::Secondary(CMYHue::Yellow))
        } else {
            Some(Hue::Primary(RGBHue::Blue))
        }
    } else if green == blue {
        if red > green {
            Some(Hue::Primary(RGBHue::Red))
        } else {
            Some(Hue::Secondary(CMYHue::Cyan))
        }
    } else if red == blue {
        if red > green {
            Some(Hue::Secondary(CMYHue::Magenta))
        } else {
            Some(Hue::Primary(RGBHue::Green))
        }
    } else {
        let sextant = wedge_of(levels);
        Some(Hue::Sextant(SextantHue(sextant, SextantHue::place_of(sextant, levels))))
    }
}

/// The wedge named by the order of three distinct components.
pub open spec fn wedge_of(levels: (Prop, Prop, Prop)) -> Sextant {
    let red = levels.0.num();
    let green = levels.1.num();
    let blue = levels.2.num();
    if red > green && green > blue {
        Sextant::RedYellow
    } else if red > blue && blue > green {
        Sextant::RedMagenta
    } else if green > red && red > blue {
        Sextant::GreenYellow
    } else if green > blue && blue > red {
        Sextant::GreenCyan
    } else if blue > green && green > red {
        Sextant::BlueCyan
    } else {
        Sextant::BlueMagenta
    }
}

impl Hue {
    /// Red.
    pub fn red() -> (hue: Hue)
        ensures
            hue == Hue::Primary(RGBHue::Red),
    {
        Hue::Primary(RGBHue::Red)
    }

    /// Green.
    pub fn green() -> (hue: Hue)
        ensures
            hue == Hue::Primary(RGBHue::Green),
    {
        Hue::Primary(RGBHue::Green)
    }

    /// Blue.
    pub fn blue() -> (hue: Hue)
        ensures
            hue == Hue::Primary(RGBHue::Blue),
    {
        Hue::Primary(RGBHue::Blue)
    }

    /// Cyan.
    pub fn cyan() -> (hue: Hue)
        ensures
            hue == Hue::Secondary(CMYHue::Cyan),
    {
        Hue::Secondary(CMYHue::Cyan)
    }

    /// Magenta.
    pub fn magenta() -> (hue: Hue)
        ensures
            hue == Hue::Secondary(CMYHue::Magenta),
    {
        Hue::Secondary(CMYHue::Magenta)
    }

    /// Yellow.
    pub fn yellow() -> (hue: Hue)
        ensures
            hue == Hue::Secondary(CMYHue::Yellow),
    {
        Hue::Secondary(CMYHue::Yellow)
    }

    /// The primaries: red, green, blue.
    pub fn primaries() -> (hues: [Hue; 3])
        ensures
            hues@ =~= seq![
                Hue::Primary(RGBHue::Red),
                Hue::Primary(RGBHue::Green),
                Hue::Primary(RGBHue::Blue),
            ],
    {
        [Hue::red(), Hue::green(), Hue::blue()]
    }

    /// The secondaries: cyan, magenta, yellow.
    pub fn secondaries() -> (hues: [Hue; 3])
        ensures
            hues@ =~= seq![
                Hue::Secondary(CMYHue::Cyan),
                Hue::Secondary(CMYHue::Magenta),
                Hue::Secondary(CMYHue::Yellow),
            ],
    {
        [Hue::cyan(), Hue::magenta(), Hue::yellow()]
    }

    /// The hue of a colour, or an error for a grey, which has none.
    pub fn try_from<T: LightLevel>(rgb: &RGB<T>) -> (hue: Result<Hue, &'static str>)
        ensures
            hue is Err <==> rgb.grey(),
            hue is Err ==> hue->Err_0@ == "RGB is grey and has no hue"@,
            hue is Ok ==> Some(hue->Ok_0) == hue_of(rgb.props()),
            hue is Ok ==> hue->Ok_0.wf(),
    {
        let red = rgb.red.to_prop();
        let green = rgb.green.to_prop();
        let blue = rgb.blue.to_prop();
        if red.0 > green.0 {
            if green.0 > blue.0 {
                Ok(Hue::Sextant(SextantHue::from((Sextant::RedYellow, rgb))))
            } else if green.0 < blue.0 {
                if red.0 > blue.0 {
                    Ok(Hue::Sextant(SextantHue::from((Sextant::RedMagenta, rgb))))
                } else if red.0 < blue.0 {
                    Ok(Hue::Sextant(SextantHue::from((Sextant::BlueMagenta, rgb))))
                } else {
                    Ok(Hue::Secondary(CMYHue::Magenta))
                }
            } else {
                Ok(Hue::Primary(RGBHue::Red))
            }
        } else if red.0 < green.0 {
            if red.0 > blue.0 {
                Ok(Hue::Sextant(SextantHue::from((Sextant::GreenYellow, rgb))))
            } else if red.0 < blue.0 {
                if green.0 > blue.0 {
                    Ok(Hue::Sextant(SextantHue::from((Sextant::GreenCyan, rgb))))
                } else if green.0 < blue.0 {
                    Ok(Hue::Sextant(SextantHue::from((Sextant::BlueCyan, rgb))))
                } else {
                    Ok(Hue::Secondary(CMYHue::Cyan))
                }
            } else {
                Ok(Hue::Primary(RGBHue::Green))
            }
        } else {
            if red.0 > blue.0 {
                Ok(Hue::Secondary(CMYHue::Yellow))
            } else if red.0 < blue.0 {
                Ok(Hue::Primary(RGBHue::Blue))
            } else {
                Err("RGB is grey and has no hue")
            }
        }
    }

    /// The values, thirds of sums, at which the hue can show a chroma of
    /// magnitude `prop`: the least and the greatest, each rounded down to a
    /// unit.
    pub fn value_range_for_chroma(&self, prop: Prop) -> (range: Option<(Prop, Prop)>)
        requires
            self.wf(),
        ensures
            range == match self.sum_range(prop) {
                Some(sums) => Some(
                    (Prop((sums.min.num() / 3) as u64), Prop((sums.max.num() / 3) as u64)),
                ),
                None => None::<(Prop, Prop)>,
            },
    {
        proof {
            if prop.num() > 0 {
                crate::laws::lemma_sum_range_narrows(*self, prop, prop);
            }
        }
        match self.sum_range_for_chroma_prop(prop) {
            Some(sums) => Some(((sums.min / 3u8).to_prop(), (sums.max / 3u8).to_prop())),
            None => None,
        }
    }

    /// The greatest chroma that the hue can show at a value.
    pub fn max_chroma_for_value(&self, value: Prop) -> (chroma: Option<Chroma>)
        requires
            self.wf(),
        ensures
            chroma == self.peak_chroma(UFDRNumber((3 * value.num()) as u128)),
    {
        self.max_chroma_for_sum(value * 3u8)
    }

    /// The hue at the greatest chroma that it can show at a value.
    pub fn max_chroma_rgb_for_value<T: LightLevel>(&self, value: Prop) -> (rgb: Option<RGB<T>>)
        requires
            self.wf(),
        ensures
            rgb == RGB::<T>::of_optional_props(
                self.peak_levels_for_sum(UFDRNumber((3 * value.num()) as u128)),
            ),
    {
        self.max_chroma_rgb_for_sum(value * 3u8)
    }

    /// The colour of the hue with a value and a chroma, or none where the
    /// hue has no such colour.
    pub fn rgb_for_value_and_chroma<T: LightLevel>(&self, value: Prop, chroma: Chroma) -> (rgb:
        Option<RGB<T>>)
        requires
            self.wf(),
        ensures
            rgb == RGB::<T>::of_optional_props(
                self.levels_for(UFDRNumber((3 * value.num()) as u128), chroma),
            ),
    {
        self.rgb_for_sum_and_chroma(value * 3u8, chroma)
    }

    /// The rank of the hue among hues; every hue has the same.
    pub fn ord_index(&self) -> (index: u8)
        ensures
            index == 0,
    {
        0
    }

    /// How far apart two hues are, as a proportion.
    pub open spec fn gap(self, other: Hue) -> int {
        match (self, other) {
            (Hue::Primary(mine), Hue::Primary(theirs)) => if mine == theirs {
                0
            } else {
                unit()
            },
            (Hue::Secondary(mine), Hue::Secondary(theirs)) => if mine == theirs {
                0
            } else {
                unit()
            },
            (Hue::Sextant(mine), Hue::Sextant(theirs)) => distance(mine.second(), theirs.second()),
            _ => unit(),
        }
    }

    /// How far apart two hues are: nothing for the same primary or
    /// secondary, the distance of their places for two hues inside wedges,
    /// and one for every other pair.
    pub fn abs_diff(&self, other: &Hue) -> (diff: Prop)
        ensures
            diff.num() == self.gap(*other),
    {
        match self {
            Hue::Primary(rgb_hue) => match other {
                Hue::Primary(other_rgb_hue) => {
                    if *rgb_hue == *other_rgb_hue {
                        Prop::zero()
                    } else {
                        Prop::one()
                    }
                },
                _ => Prop::one(),
            },
            Hue::Secondary(cmy_hue) => match other {
                Hue::Secondary(other_cmy_hue) => {
                    if *cmy_hue == *other_cmy_hue {
                        Prop::zero()
                    } else {
                        Prop::one()
                    }
                },
                _ => Prop::one(),
            },
            Hue::Sextant(sextant_hue) => match other {
                Hue::Sextant(other_sextant_hue) => sextant_hue.1.abs_diff(&other_sextant_hue.1),
                _ => Prop::one(),
            },
        }
    }

    /// Whether two hues are the same up to a tolerance.
    pub open spec fn near(self, other: Hue, acceptable_rounding_error: Option<u64>) -> bool {
        match (self, other) {
            (Hue::Primary(mine), Hue::Primary(theirs)) => mine == theirs,
            (Hue::Secondary(mine), Hue::Secondary(theirs)) => mine == theirs,
            (Hue::Sextant(mine), Hue::Sextant(theirs)) => mine.0 == theirs.0 && distance(
                mine.second(),
                theirs.second(),
            ) < tolerance(acceptable_rounding_error),
            _ => false,
        }
    }

    /// Whether two hues are the same primary or secondary, or lie in the
    /// same wedge at places that differ by less than the tolerance.
    pub fn approx_eq(&self, other: &Hue, acceptable_rounding_error: Option<u64>) -> (close: bool)
        ensures
            close == self.near(*other, acceptable_rounding_error),
    {
        match self {
            Hue::Primary(rgb_hue) => match other {
                Hue::Primary(other_rgb_hue) => *rgb_hue == *other_rgb_hue,
                _ => false,
            },
            Hue::Secondary(cmy_hue) => match other {
                Hue::Secondary(other_cmy_hue) => *cmy_hue == *other_cmy_hue,
                _ => false,
            },
            Hue::Sextant(sextant_hue) => match other {
                Hue::Sextant(other_sextant_hue) => sextant_hue.approx_eq(
                    other_sextant_hue,
                    acceptable_rounding_error,
                ),
                _ => false,
            },
        }
    }
}

impl Default for Hue {
    /// Red.
    fn default() -> (hue: Hue)
        ensures
            hue == Hue::Primary(RGBHue::Red),
    {
        Hue::Primary(RGBHue::Red)
    }
}

impl HueIfce for Hue {
    open spec fn wf(&self) -> bool {
        match self {
            Hue::Primary(rgb_hue) => rgb_hue.wf(),
            Hue::Secondary(cmy_hue) => cmy_hue.wf(),
            Hue::Sextant(sextant_hue) => sextant_hue.wf(),
        }
    }

    open spec fn peak_sum(&self) -> UFDRNumber {
        match self {
            Hue::Primary(rgb_hue) => rgb_hue.peak_sum(),
            Hue::Secondary(cmy_hue) => cmy_hue.peak_sum(),
            Hue::Sextant(sextant_hue) => sextant_hue.peak_sum(),
        }
    }

    open spec fn sum_range(&self, prop: Prop) -> Option<UFDRNumberRange> {
        match self {
            Hue::Primary(rgb_hue) => rgb_hue.sum_range(prop),
            Hue::Secondary(cmy_hue) => cmy_hue.sum_range(prop),
            Hue::Sextant(sextant_hue) => sextant_hue.sum_range(prop),
        }
    }

    open spec fn peak_chroma(&self, sum: UFDRNumber) -> Option<Chroma> {
        match self {
            Hue::Primary(rgb_hue) => rgb_hue.peak_chroma(sum),
            Hue::Secondary(cmy_hue) => cmy_hue.peak_chroma(sum),
            Hue::Sextant(sextant_hue) => sextant_hue.peak_chroma(sum),
        }
    }

    open spec fn warmth(&self, chroma: Chroma) -> Warmth {
        match self {
            Hue::Primary(rgb_hue) => rgb_hue.warmth(chroma),
            Hue::Secondary(cmy_hue) => cmy_hue.warmth(chroma),
            Hue::Sextant(sextant_hue) => sextant_hue.warmth(chroma),
        }
    }

    open spec fn peak_levels(&self) -> (Prop, Prop, Prop) {
        match self {
            Hue::Primary(rgb_hue) => rgb_hue.peak_levels(),
            Hue::Secondary(cmy_hue) => cmy_hue.peak_levels(),
            Hue::Sextant(sextant_hue) => sextant_hue.peak_levels(),
        }
    }

    open spec fn peak_levels_for_sum(&self, sum: UFDRNumber) -> Option<(Prop, Prop, Prop)> {
        match self {
            Hue::Primary(rgb_hue) => rgb_hue.peak_levels_for_sum(sum),
            Hue::Secondary(cmy_hue) => cmy_hue.peak_levels_for_sum(sum),
            Hue::Sextant(sextant_hue) => sextant_hue.peak_levels_for_sum(sum),
        }
    }

    open spec fn darkest_levels(&self, chroma: Chroma) -> (Prop, Prop, Prop) {
        match self {
            Hue::Primary(rgb_hue) => rgb_hue.darkest_levels(chroma),
            Hue::Secondary(cmy_hue) => cmy_hue.darkest_levels(chroma),
            Hue::Sextant(sextant_hue) => sextant_hue.darkest_levels(chroma),
        }
    }

    open spec fn lightest_levels(&self, chroma: Chroma) -> (Prop, Prop, Prop) {
        match self {
            Hue::Primary(rgb_hue) => rgb_hue.lightest_levels(chroma),
            Hue::Secondary(cmy_hue) => cmy_hue.lightest_levels(chroma),
            Hue::Sextant(sextant_hue) => sextant_hue.lightest_levels(chroma),
        }
    }

    open spec fn levels_for(&self, sum: UFDRNumber, chroma: Chroma) -> Option<(Prop, Prop, Prop)> {
        match self {
            Hue::Primary(rgb_hue) => rgb_hue.levels_for(sum, chroma),
            Hue::Secondary(cmy_hue) => cmy_hue.levels_for(sum, chroma),
            Hue::Sextant(sextant_hue) => sextant_hue.levels_for(sum, chroma),
        }
    }

    fn sum_range_for_chroma_prop(&self, prop: Prop) -> (range: Option<UFDRNumberRange>) {
        match self {
            Hue::Primary(rgb_hue) => rgb_hue.sum_range_for_chroma_prop(prop),
            Hue::Secondary(cmy_hue) => cmy_hue.sum_range_for_chroma_prop(prop),
            Hue::Sextant(sextant_hue) => sextant_hue.sum_range_for_chroma_prop(prop),
        }
    }

    fn sum_for_max_chroma(&self) -> (sum: UFDRNumber) {
        match self {
            Hue::Primary(rgb_hue) => rgb_hue.sum_for_max_chroma(),
            Hue::Secondary(cmy_hue) => cmy_hue.sum_for_max_chroma(),
            Hue::Sextant(sextant_hue) => sextant_hue.sum_for_max_chroma(),
        }
    }

    fn max_chroma_for_sum(&self, sum: UFDRNumber) -> (chroma: Option<Chroma>) {
        match self {
            Hue::Primary(rgb_hue) => rgb_hue.max_chroma_for_sum(sum),
            Hue::Secondary(cmy_hue) => cmy_hue.max_chroma_for_sum(sum),
            Hue::Sextant(sextant_hue) => sextant_hue.max_chroma_for_sum(sum),
        }
    }

    fn warmth_for_chroma(&self, chroma: Chroma) -> (warmth: Warmth) {
        match self {
            Hue::Primary(rgb_hue) => rgb_hue.warmth_for_chroma(chroma),
            Hue::Secondary(cmy_hue) => cmy_hue.warmth_for_chroma(chroma),
            Hue::Sextant(sextant_hue) => sextant_hue.warmth_for_chroma(chroma),
        }
    }

    fn max_chroma_rgb<T: LightLevel>(&self) -> (rgb: RGB<T>) {
        match self {
            Hue::Primary(rgb_hue) => rgb_hue.max_chroma_rgb(),
            Hue::Secondary(cmy_hue) => cmy_hue.max_chroma_rgb(),
            Hue::Sextant(sextant_hue) => sextant_hue.max_chroma_rgb(),
        }
    }

    fn max_chroma_rgb_for_sum<T: LightLevel>(&self, sum: UFDRNumber) -> (rgb: Option<RGB<T>>) {
        match self {
            Hue::Primary(rgb_hue) => rgb_hue.max_chroma_rgb_for_sum(sum),
            Hue::Secondary(cmy_hue) => cmy_hue.max_chroma_rgb_for_sum(sum),
            Hue::Sextant(sextant_hue) => sextant_hue.max_chroma_rgb_for_sum(sum),
        }
    }

    fn min_sum_rgb_for_chroma<T: LightLevel>(&self, chroma: Chroma) -> (rgb: RGB<T>) {
        match self {
            Hue::Primary(rgb_hue) => rgb_hue.min_sum_rgb_for_chroma(chroma),
            Hue::Secondary(cmy_hue) => cmy_hue.min_sum_rgb_for_chroma(chroma),
            Hue::Sextant(sextant_hue) => sextant_hue.min_sum_rgb_for_chroma(chroma),
        }
    }

    fn max_sum_rgb_for_chroma<T: LightLevel>(&self, chroma: Chroma) -> (rgb: RGB<T>) {
        match self {
            Hue::Primary(rgb_hue) => rgb_hue.max_sum_rgb_for_chroma(chroma),
            Hue::Secondary(cmy_hue) => cmy_hue.max_sum_rgb_for_chroma(chroma),
            Hue::Sextant(sextant_hue) => sextant_hue.max_sum_rgb_for_chroma(chroma),
        }
    }

    fn rgb_for_sum_and_chroma<T: LightLevel>(&self, sum: UFDRNumber, chroma: Chroma) -> (rgb:
        Option<RGB<T>>) {
        match self {
            Hue::Primary(rgb_hue) => rgb_hue.rgb_for_sum_and_chroma(sum, chroma),
            Hue::Secondary(cmy_hue) => cmy_hue.rgb_for_sum_and_chroma(sum, chroma),
            Hue::Sextant(sextant_hue) => sextant_hue.rgb_for_sum_and_chroma(sum, chroma),
        }
    }
}

} // verus!
