//! The hues between a primary and a secondary: six wedges of the hue
//! circle, and a proportion that places the hue within its wedge.

use crate::arith::lemma_exact_div;
use crate::arith::lemma_floor_div_bounds;
use crate::arith::lemma_floor_div_monotone;
use crate::arith::lemma_floor_div_nonneg;
use crate::arith::lemma_ratio_le;
use crate::arith::lemma_scale_down_le;
use crate::chroma::Chroma;
use crate::chroma::Warmth;
use crate::geometry::HueIfce;
use crate::proportion::distance;
use crate::proportion::scaled_product;
use crate::proportion::scaled_ratio;
use crate::proportion::tolerance;
use crate::proportion::unit;
use crate::proportion::Prop;
use crate::proportion::UFDRNumber;
use crate::rgb::LightLevel;
use crate::rgb::RGB;
use crate::sum_range::UFDRNumberRange;
use vstd::prelude::*;

verus! {

/// A wedge of the hue circle, named by the primary and the secondary that
/// bound it. The variants stand in their order round the circle.
#[derive(Debug, PartialEq, Eq, Clone, Copy, Structural, PartialOrd, Ord, Hash)]
pub enum Sextant {
    BlueCyan,
    BlueMagenta,
    RedMagenta,
    RedYellow,
    GreenYellow,
    GreenCyan,
}

impl Sextant {
    /// The colour whose components are, from the largest down, `first`,
    /// `second` and `third`.
    pub open spec fn arrange(self, first: Prop, second: Prop, third: Prop) -> (Prop, Prop, Prop) {
        match self {
            Sextant::RedMagenta => (first, third, second),
            Sextant::RedYellow => (first, second, third),
            Sextant::GreenYellow => (second, first, third),
            Sextant::GreenCyan => (third, first, second),
            Sextant::BlueCyan => (third, second, first),
            Sextant::BlueMagenta => (second, third, first),
        }
    }

    /// The components of a colour from the largest down, as the wedge
    /// orders them.
    pub open spec fn ranked(self, levels: (Prop, Prop, Prop)) -> (Prop, Prop, Prop) {
        match self {
            Sextant::RedMagenta => (levels.0, levels.2, levels.1),
            Sextant::RedYellow => (levels.0, levels.1, levels.2),
            Sextant::GreenYellow => (levels.1, levels.0, levels.2),
            Sextant::GreenCyan => (levels.1, levels.2, levels.0),
            Sextant::BlueCyan => (levels.2, levels.1, levels.0),
            Sextant::BlueMagenta => (levels.2, levels.0, levels.1),
        }
    }

    /// Whether a colour lies strictly inside the wedge: its components are
    /// distinct and ordered as the wedge orders them.
    pub open spec fn holds(self, levels: (Prop, Prop, Prop)) -> bool {
        let ranked = self.ranked(levels);
        ranked.0.num() > ranked.1.num() > ranked.2.num()
    }
}

/// A hue strictly inside a wedge. The proportion is the share of the way
/// from the wedge's primary to its secondary: for a colour of the hue, the
/// middle component's height above the lowest over the highest's.
#[derive(Debug, PartialEq, Eq, Clone, Copy, Structural, PartialOrd, Ord, Hash)]
pub struct SextantHue(pub Sextant, pub Prop);

/// The three components, from the largest down, of a colour whose chroma
/// has magnitude `c`, whose middle component stands `ck` above the lowest,
/// and which has `spare` units of light beyond those. The spare light is
/// shared out equally; what is left over is handed out so that the sum and
/// the chroma are kept exact.
pub open spec fn shares(c: int, ck: int, spare: int) -> (int, int, int) {
    let delta = spare / 3;
    if spare % 3 == 1 {
        (c + delta, ck + delta + 1, delta)
    } else if spare % 3 == 2 {
        (c + delta + 1, ck + delta, delta + 1)
    } else {
        (c + delta, ck + delta, delta)
    }
}

/// The shares add up to all the light there is, and the first stands above
/// the last by the chroma.
pub proof fn lemma_shares(c: int, ck: int, spare: int)
    requires
        0 <= ck <= c,
        0 <= spare,
    ensures
        shares(c, ck, spare).0 + shares(c, ck, spare).1 + shares(c, ck, spare).2 == c + ck + spare,
        shares(c, ck, spare).0 - shares(c, ck, spare).2 == c,
        0 <= shares(c, ck, spare).2 <= shares(c, ck, spare).0,
        0 <= shares(c, ck, spare).1,
        ck < c ==> shares(c, ck, spare).1 <= shares(c, ck, spare).0,
        shares(c, ck, spare).2 <= shares(c, ck, spare).1 + 1,
        0 < ck ==> shares(c, ck, spare).2 <= shares(c, ck, spare).1,
{
    lemma_floor_div_bounds(spare, 3);
    lemma_floor_div_nonneg(spare, 3);
}

/// The height of the middle component above the lowest stays below the
/// chroma where the hue lies strictly inside its wedge.
pub proof fn lemma_middle_below(s: int, c: int)
    requires
        0 <= s < unit(),
        0 < c <= unit(),
    ensures
        0 <= scaled_product(s, c) < c,
        0 <= scaled_product(c, s) < c,
{
    assert(0 <= s * c <= (c - 1) * unit() + (unit() - c)) by (nonlinear_arith)
        requires
            0 <= s < unit(),
            0 < c <= unit(),
    ;
    lemma_floor_div_nonneg(s * c, unit());
    lemma_floor_div_monotone(s * c, (c - 1) * unit() + (unit() - c), unit());
    crate::arith::lemma_floor_div_split(c - 1, unit() - c, unit());
    if unit() - c > 0 {
        crate::arith::lemma_floor_div_unique(unit() - c, unit(), 0);
    } else {
        lemma_exact_div(0, unit());
    }
    assert(c * s == s * c) by (nonlinear_arith);
}

impl SextantHue {
    /// The hue in `sextant` at `second` of the way from the wedge's primary
    /// to its secondary, or none where `second` is zero or one: those are
    /// the primary and the secondary themselves.
    pub fn new(sextant: Sextant, second: Prop) -> (hue: Option<SextantHue>)
        ensures
            hue == if 0 < second.num() < unit() {
                Some(SextantHue(sextant, second))
            } else {
                None::<SextantHue>
            },
    {
        if second.0 == 0 || second.0 == 0xFFFF_FFFF_FFFF_FFFF {
            None
        } else {
            Some(SextantHue(sextant, second))
        }
    }

    /// The place within the wedge, in units.
    pub open spec fn second(self) -> int {
        self.1.num()
    }

    /// The height of the middle component above the lowest, in a colour of
    /// this hue whose chroma has magnitude `c`.
    pub open spec fn middle(self, c: int) -> int {
        scaled_product(self.second(), c)
    }

    /// The place within the wedge of a colour that lies strictly inside
    /// it: the middle component's height above the lowest over the
    /// highest's, rounded down to a unit.
    pub open spec fn place_of(sextant: Sextant, levels: (Prop, Prop, Prop)) -> Prop {
        let ranked = sextant.ranked(levels);
        Prop(
            scaled_ratio(
                ranked.1.num() - ranked.2.num(),
                ranked.0.num() - ranked.2.num(),
            ) as u64,
        )
    }

    /// The hue of a colour that lies strictly inside a wedge.
    pub fn from<T: LightLevel>(arg: (Sextant, &RGB<T>)) -> (hue: SextantHue)
        requires
            arg.0.holds(arg.1.props()),
        ensures
            hue == SextantHue(arg.0, Self::place_of(arg.0, arg.1.props())),
            hue.wf(),
    {
        let red = arg.1.red.to_prop();
        let green = arg.1.green.to_prop();
        let blue = arg.1.blue.to_prop();
        let other = match arg.0 {
            Sextant::RedMagenta => (blue - green) / (red - green),
            Sextant::RedYellow => (green - blue) / (red - blue),
            Sextant::GreenYellow => (red - blue) / (green - blue),
            Sextant::GreenCyan => (blue - red) / (green - red),
            Sextant::BlueCyan => (green - red) / (blue - red),
            Sextant::BlueMagenta => (red - green) / (blue - green),
        };
        proof {
            let ranked = arg.0.ranked(arg.1.props());
            lemma_ratio_inside(ranked.1.num() - ranked.2.num(), ranked.0.num() - ranked.2.num());
        }
        SextantHue(arg.0, other)
    }

    fn make_rgb<T: LightLevel>(&self, components: (Prop, Prop, Prop)) -> (rgb: RGB<T>)
        ensures
            rgb == RGB::<T>::of_props(self.0.arrange(components.0, components.1, components.2)),
    {
        match self.0 {
            Sextant::RedMagenta => RGB::from_props(components.0, components.2, components.1),
            Sextant::RedYellow => RGB::from_props(components.0, components.1, components.2),
            Sextant::GreenYellow => RGB::from_props(components.1, components.0, components.2),
            Sextant::GreenCyan => RGB::from_props(components.2, components.0, components.1),
            Sextant::BlueCyan => RGB::from_props(components.2, components.1, components.0),
            Sextant::BlueMagenta => RGB::from_props(components.1, components.2, components.0),
        }
    }

    fn make_rgb_sum<T: LightLevel>(&self, components: (UFDRNumber, UFDRNumber, UFDRNumber)) -> (rgb:
        RGB<T>)
        requires
            components.0.num() <= unit(),
            components.1.num() <= unit(),
            components.2.num() <= unit(),
        ensures
            rgb == RGB::<T>::of_props(
                self.0.arrange(
                    Prop(components.0.num() as u64),
                    Prop(components.1.num() as u64),
                    Prop(components.2.num() as u64),
                ),
            ),
    {
        self.make_rgb((components.0.to_prop(), components.1.to_prop(), components.2.to_prop()))
    }

    /// The distance between two hues: that of their places where they
    /// share a wedge, and one where they do not.
    pub fn abs_diff(&self, other: &SextantHue) -> (diff: Prop)
        ensures
            diff.num() == if self.0 == other.0 {
                distance(self.second(), other.second())
            } else {
                unit()
            },
    {
        if self.0 == other.0 {
            self.1.abs_diff(&other.1)
        } else {
            Prop::one()
        }
    }

    /// The wedge in which the hue lies.
    pub fn sextant(&self) -> (sextant: Sextant)
        ensures
            sextant == self.0,
    {
        self.0
    }

    /// The place of the hue within its wedge.
    pub fn prop(&self) -> (second: Prop)
        ensures
            second == self.1,
    {
        self.1
    }

    /// Whether two hues share a wedge and their places differ by less than
    /// the tolerance.
    pub fn approx_eq(&self, other: &SextantHue, acceptable_rounding_error: Option<u64>) -> (close:
        bool)
        ensures
            close == (self.0 == other.0 && distance(self.second(), other.second()) < tolerance(
                acceptable_rounding_error,
            )),
    {
        if self.0 == other.0 {
            self.1.approx_eq(&other.1, acceptable_rounding_error)
        } else {
            false
        }
    }
}

/// The ratio of a part to a strictly larger whole lies strictly between
/// zero and one.
pub proof fn lemma_ratio_inside(part: int, whole: int)
    requires
        0 < part < whole <= unit(),
    ensures
        0 < scaled_ratio(part, whole) < unit(),
{
    assert(whole <= part * unit() <= (unit() - 1) * whole + (whole - unit())) by (nonlinear_arith)
        requires
            0 < part < whole <= unit(),
    ;
    lemma_floor_div_monotone(whole, part * unit(), whole);
    lemma_exact_div(1, whole);
    assert(1 * whole == whole);
    lemma_floor_div_monotone(
        part * unit(),
        (unit() - 1) * whole + (whole - unit()),
        whole,
    );
    crate::arith::lemma_floor_div_split(unit() - 1, whole - unit(), whole);
    if whole - unit() < 0 {
        lemma_floor_div_bounds(whole - unit(), whole);
        assert((whole - unit()) / whole < 0) by (nonlinear_arith)
            requires
                ((whole - unit()) / whole) * whole <= whole - unit(),
                whole - unit() < 0,
                whole > 0,
        ;
    } else {
        lemma_exact_div(0, whole);
    }
}

impl HueIfce for SextantHue {
    open spec fn wf(&self) -> bool {
        0 < self.second() < unit()
    }

    open spec fn peak_sum(&self) -> UFDRNumber {
        UFDRNumber((unit() + self.second()) as u128)
    }

    open spec fn sum_range(&self, prop: Prop) -> Option<UFDRNumberRange> {
        if prop.num() == 0 {
            None
        } else {
            Some(
                UFDRNumberRange {
                    min: UFDRNumber(scaled_product(unit() + self.second(), prop.num()) as u128),
                    max_chroma_sum: UFDRNumber((unit() + self.second()) as u128),
                    max: UFDRNumber(
                        (3 * unit() - scaled_product(2 * unit() - self.second(), prop.num())) as u128,
                    ),
                },
            )
        }
    }

    open spec fn peak_chroma(&self, sum: UFDRNumber) -> Option<Chroma> {
        if sum.num() == 0 || sum.num() == 3 * unit() {
            None
        } else if sum.num() < unit() + self.second() {
            Some(Chroma::Shade(Prop(scaled_ratio(sum.num(), unit() + self.second()) as u64)))
        } else if sum.num() > unit() + self.second() {
            Some(
                Chroma::Tint(
                    Prop(scaled_ratio(3 * unit() - sum.num(), 2 * unit() - self.second()) as u64),
                ),
            )
        } else {
            Some(Chroma::Tint(Prop(unit() as u64)))
        }
    }

    open spec fn warmth(&self, chroma: Chroma) -> Warmth {
        let c = chroma.magnitude().num();
        let kc = scaled_product(c, self.second());
        match self.0 {
            Sextant::RedYellow | Sextant::RedMagenta => Warmth(
                Prop(((2 * unit() + 2 * c - kc) / 4) as u64),
            ),
            Sextant::GreenYellow | Sextant::BlueMagenta => Warmth(
                Prop(((2 * unit() + 2 * kc - c) / 4) as u64),
            ),
            Sextant::GreenCyan | Sextant::BlueCyan => Warmth(
                Prop(((2 * unit() - kc - c) / 4) as u64),
            ),
        }
    }

    open spec fn peak_levels(&self) -> (Prop, Prop, Prop) {
        self.0.arrange(Prop(unit() as u64), self.1, Prop(0))
    }

    open spec fn peak_levels_for_sum(&self, sum: UFDRNumber) -> Option<(Prop, Prop, Prop)> {
        match self.peak_chroma(sum) {
            Some(chroma) => self.levels_for(sum, chroma),
            None => None,
        }
    }

    open spec fn darkest_levels(&self, chroma: Chroma) -> (Prop, Prop, Prop) {
        let c = chroma.magnitude().num();
        self.0.arrange(chroma.magnitude(), Prop(self.middle(c) as u64), Prop(0))
    }

    open spec fn lightest_levels(&self, chroma: Chroma) -> (Prop, Prop, Prop) {
        let c = chroma.magnitude().num();
        self.0.arrange(
            Prop(unit() as u64),
            Prop((scaled_product(c, self.second()) + unit() - c) as u64),
            Prop((unit() - c) as u64),
        )
    }

    open spec fn levels_for(&self, sum: UFDRNumber, chroma: Chroma) -> Option<(Prop, Prop, Prop)> {
        let c = chroma.magnitude().num();
        let ck = self.middle(c);
        let spare = sum.num() - ck - c;
        let parts = shares(c, ck, spare);
        if c == 0 || spare < 0 || parts.0 > unit() {
            None
        } else {
            Some(self.0.arrange(Prop(parts.0 as u64), Prop(parts.1 as u64), Prop(parts.2 as u64)))
        }
    }

    fn sum_range_for_chroma_prop(&self, prop: Prop) -> (range: Option<UFDRNumberRange>) {
        if prop.0 == 0 {
            None
        } else if prop.0 == 0xFFFF_FFFF_FFFF_FFFF {
            let max_c_sum = Prop::one() + self.1;
            proof {
                lemma_exact_div(unit() + self.second(), unit());
                lemma_exact_div(2 * unit() - self.second(), unit());
            }
            Some(UFDRNumberRange::from((max_c_sum, max_c_sum, max_c_sum)))
        } else {
            proof {
                lemma_scale_down_le(2 * unit() - self.second(), prop.num(), unit());
                lemma_scale_down_le(unit() + self.second(), prop.num(), unit());
            }
            Some(
                UFDRNumberRange::from(
                    (
                        (UFDRNumber::one() + self.1) * prop,
                        UFDRNumber::one() + self.1,
                        UFDRNumber::three() - (UFDRNumber::two() - self.1) * prop,
                    ),
                ),
            )
        }
    }

    fn sum_for_max_chroma(&self) -> (sum: UFDRNumber) {
        UFDRNumber::one() + self.1
    }

    fn max_chroma_for_sum(&self, sum: UFDRNumber) -> (chroma: Option<Chroma>) {
        if sum.0 == 0 || sum.0 == UFDRNumber::three().0 {
            None
        } else {
            let peak = Prop::one() + self.1;
            if sum.0 < peak.0 {
                proof {
                    lemma_ratio_le(sum.num(), peak.num(), unit());
                }
                let temp = (sum / peak).to_prop();
                Some(Chroma::Shade(temp))
            } else if sum.0 > peak.0 {
                let above = UFDRNumber::three() - sum;
                let room = UFDRNumber::two() - self.1;
                proof {
                    lemma_ratio_le(above.num(), room.num(), unit());
                }
                let temp = (above / room).to_prop();
                Some(Chroma::Tint(temp))
            } else {
                Some(Chroma::one())
            }
        }
    }

    fn warmth_for_chroma(&self, chroma: Chroma) -> (warmth: Warmth) {
        let kc = chroma.prop() * self.1;
        proof {
            lemma_scale_down_le(chroma.magnitude().num(), self.second(), unit());
        }
        let x_dash = match self.0 {
            Sextant::RedYellow | Sextant::RedMagenta => ((UFDRNumber::two() + chroma.prop() * 2u8
                - kc) / 4u8).to_prop(),
            Sextant::GreenYellow | Sextant::BlueMagenta => ((UFDRNumber::two() + kc * 2u8
                - chroma.prop()) / 4u8).to_prop(),
            Sextant::GreenCyan | Sextant::BlueCyan => ((UFDRNumber::two() - kc - chroma.prop())
                / 4u8).to_prop(),
        };
        Warmth(x_dash)
    }

    fn max_chroma_rgb<T: LightLevel>(&self) -> (rgb: RGB<T>) {
        self.make_rgb((Prop::one(), self.1, Prop::zero()))
    }

    fn max_chroma_rgb_for_sum<T: LightLevel>(&self, sum: UFDRNumber) -> (rgb: Option<RGB<T>>) {
        match self.max_chroma_for_sum(sum) {
            Some(chroma) => self.rgb_for_sum_and_chroma(sum, chroma),
            None => None,
        }
    }

    fn min_sum_rgb_for_chroma<T: LightLevel>(&self, chroma: Chroma) -> (rgb: RGB<T>) {
        let c_prop = chroma.prop();
        if c_prop.0 == 0 {
            proof {
                assert(self.second() * 0 == 0) by (nonlinear_arith);
                lemma_exact_div(0, unit());
            }
            RGB::<T>::black()
        } else if c_prop.0 == 0xFFFF_FFFF_FFFF_FFFF {
            proof {
                lemma_exact_div(self.second(), unit());
            }
            self.max_chroma_rgb()
        } else {
            self.make_rgb((c_prop, self.1 * c_prop, Prop::zero()))
        }
    }

    fn max_sum_rgb_for_chroma<T: LightLevel>(&self, chroma: Chroma) -> (rgb: RGB<T>) {
        let c_prop = chroma.prop();
        if c_prop.0 == 0 {
            proof {
                assert(0 * self.second() == 0) by (nonlinear_arith);
                lemma_exact_div(0, unit());
            }
            RGB::<T>::white()
        } else if c_prop.0 == 0xFFFF_FFFF_FFFF_FFFF {
            proof {
                assert(unit() * self.second() == self.second() * unit()) by (nonlinear_arith);
                lemma_exact_div(self.second(), unit());
            }
            self.max_chroma_rgb()
        } else {
            proof {
                lemma_scale_down_le(c_prop.num(), self.second(), unit());
            }
            let third = Prop::one() - c_prop;
            let second = c_prop * self.1 + third;
            self.make_rgb((Prop::one(), second.to_prop(), third))
        }
    }

    fn rgb_for_sum_and_chroma<T: LightLevel>(&self, sum: UFDRNumber, chroma: Chroma) -> (rgb:
        Option<RGB<T>>) {
        let c_prop = chroma.prop();
        if c_prop.0 == 0 {
            None
        } else {
            let ck = self.1 * c_prop;
            let ck_plus_c = ck + c_prop;
            proof {
                lemma_middle_below(self.second(), c_prop.num());
            }
            if sum.0 < ck_plus_c.0 {
                None
            } else if sum.0 == ck_plus_c.0 {
                proof {
                    lemma_shares(c_prop.num(), ck.num(), 0);
                }
                Some(self.make_rgb((c_prop, ck, Prop::zero())))
            } else {
                let three_delta = sum - ck_plus_c;
                let delta = (three_delta / 3u8).to_prop();
                let left: u8 = three_delta % 3u8;
                proof {
                    lemma_shares(c_prop.num(), ck.num(), three_delta.num());
                    lemma_floor_div_bounds(three_delta.num(), 3);
                }
                // What is left of the spare light is handed out so that
                // both the chroma and the sum are kept; the hue may drift
                // by the rounding of the division.
                let components = if left == 1 {
                    (c_prop + delta, ck + delta + Prop(1), UFDRNumber::from(delta))
                } else if left == 2 {
                    (c_prop + delta + Prop(1), ck + delta, delta + Prop(1))
                } else {
                    (c_prop + delta, ck + delta, UFDRNumber::from(delta))
                };
                if components.0.is_proportion() {
                    Some(self.make_rgb_sum::<T>(components))
                } else {
                    None
                }
            }
        }
    }
}

} // verus!
