//! What holds of the colour model as a whole: laws that relate the
//! classification of a colour, the geometry of its hue and the
//! reconstruction of a colour from hue, sum and chroma.

use crate::arith::lemma_exact_div;
use crate::arith::lemma_floor_div_bounds;
use crate::arith::lemma_floor_div_monotone;
use crate::arith::lemma_floor_div_unique;
use crate::attributes::chroma_of;
use crate::chroma::Chroma;
use crate::geometry::HueIfce;
use crate::hue::hue_of;
use crate::hue::wedge_of;
use crate::hue::Hue;
use crate::primary::RGBHue;
use crate::proportion::scaled_product;
use crate::proportion::scaled_ratio;
use crate::proportion::unit;
use crate::proportion::Prop;
use crate::proportion::UFDRNumber;
use crate::rgb::spread_of;
use crate::rgb::sum_of;
use crate::rgb::LightLevel;
use crate::rgb::RGB;
use crate::sextant::lemma_ratio_inside;
use crate::sextant::shares;
use crate::sextant::Sextant;
use crate::sextant::SextantHue;
use vstd::prelude::*;

verus! {

/// Scaling a whole by the ratio of a part to it gives the part back, or
/// one unit less.
pub proof fn lemma_ratio_back(part: int, whole: int)
    requires
        0 < part < whole <= unit(),
    ensures
        part - 1 <= scaled_product(scaled_ratio(part, whole), whole) <= part,
{
    let s = scaled_ratio(part, whole);
    lemma_floor_div_bounds(part * unit(), whole);
    assert((s + 1) * whole == s * whole + whole) by (nonlinear_arith);
    assert((part - 1) * unit() == part * unit() - unit()) by (nonlinear_arith);
    lemma_floor_div_monotone(s * whole, part * unit(), unit());
    lemma_exact_div(part, unit());
    lemma_floor_div_monotone((part - 1) * unit(), s * whole, unit());
    lemma_exact_div(part - 1, unit());
}

/// A colour strictly inside a wedge comes back exactly from the wedge, its
/// place in it, its sum and the spread of its components.
pub proof fn lemma_wedge_round_trip(sextant: Sextant, levels: (Prop, Prop, Prop), chroma: Chroma)
    requires
        sextant.holds(levels),
        chroma.magnitude().num() == spread_of(levels),
    ensures
        SextantHue(sextant, SextantHue::place_of(sextant, levels)).wf(),
        SextantHue(sextant, SextantHue::place_of(sextant, levels)).levels_for(
            UFDRNumber(sum_of(levels) as u128),
            chroma,
        ) == Some(levels),
{
    let sextant_hue = SextantHue(sextant, SextantHue::place_of(sextant, levels));
    let ranked = sextant.ranked(levels);
    let part = ranked.1.num() - ranked.2.num();
    let whole = ranked.0.num() - ranked.2.num();
    let c = chroma.magnitude().num();
    assert(whole == c);
    lemma_ratio_inside(part, whole);
    lemma_ratio_back(part, whole);
    assert(sextant_hue.second() == scaled_ratio(part, whole));
    let ck = sextant_hue.middle(c);
    assert(ck == scaled_product(scaled_ratio(part, whole), whole));
    let sum = UFDRNumber(sum_of(levels) as u128);
    assert(sum.num() == ranked.0.num() + ranked.1.num() + ranked.2.num());
    let spare = sum.num() - ck - c;
    assert(spare == 3 * ranked.2.num() + (part - ck));
    lemma_floor_div_unique(spare, 3, ranked.2.num());
    let parts = shares(c, ck, spare);
    assert(parts.0 == ranked.0.num());
    assert(parts.1 == ranked.1.num());
    assert(parts.2 == ranked.2.num());
    assert(Prop(parts.0 as u64) == ranked.0);
    assert(Prop(parts.1 as u64) == ranked.1);
    assert(Prop(parts.2 as u64) == ranked.2);
    assert(sextant.arrange(ranked.0, ranked.1, ranked.2) == levels);
}

/// A colour that is no grey comes back exactly from its hue, its sum and
/// its chroma.
pub proof fn lemma_levels_round_trip(levels: (Prop, Prop, Prop))
    requires
        hue_of(levels) is Some,
    ensures
        hue_of(levels)->Some_0.wf(),
        hue_of(levels)->Some_0.levels_for(UFDRNumber(sum_of(levels) as u128), chroma_of(levels))
            == Some(levels),
{
    let hue = hue_of(levels)->Some_0;
    let sum = UFDRNumber(sum_of(levels) as u128);
    let chroma = chroma_of(levels);
    let c = spread_of(levels);
    assert(chroma.magnitude() == Prop(c as u64));
    assert(chroma.magnitude().num() == c);
    match hue {
        Hue::Primary(rgb_hue) => {
            let low = RGBHue::low_level(sum.num(), c);
            assert(sum.num() - c == 3 * crate::rgb::lowest_of(levels));
            assert(low == crate::rgb::lowest_of(levels));
            assert(rgb_hue.arrange(Prop((low + c) as u64), Prop(low as u64)) == levels);
        },
        Hue::Secondary(cmy_hue) => {
            let high = crate::rgb::highest_of(levels);
            let low = crate::rgb::lowest_of(levels);
            assert(sum.num() + c == 3 * high);
            assert(sum.num() - 2 * c == 3 * low);
            assert(cmy_hue.arrange(Prop(high as u64), Prop(low as u64)) == levels);
            assert(2 * c <= sum.num() <= 3 * unit() - c);
        },
        Hue::Sextant(_) => {
            lemma_wedge_round_trip(wedge_of(levels), levels, chroma);
        },
    }
}

/// A colour that is no grey comes back exactly from its hue, its sum and
/// its chroma, in every representation of light levels, and so with the hue
/// that it had.
pub proof fn lemma_round_trip<T: LightLevel>(rgb: RGB<T>)
    requires
        !rgb.grey(),
    ensures
        hue_of(rgb.props()) is Some,
        hue_of(rgb.props())->Some_0.wf(),
        RGB::<T>::of_optional_props(
            hue_of(rgb.props())->Some_0.levels_for(
                UFDRNumber(sum_of(rgb.props()) as u128),
                chroma_of(rgb.props()),
            ),
        ) == Some(rgb),
        hue_of(
            hue_of(rgb.props())->Some_0.levels_for(
                UFDRNumber(sum_of(rgb.props()) as u128),
                chroma_of(rgb.props()),
            )->Some_0,
        ) == hue_of(rgb.props()),
{
    lemma_levels_round_trip(rgb.props());
    rgb.red.lemma_level_kept();
    rgb.green.lemma_level_kept();
    rgb.blue.lemma_level_kept();
}

/// At chroma zero the darkest colour of every hue is black and the
/// lightest is white; at chroma one both are the hue at full chroma.
pub proof fn lemma_extremes(hue: Hue, none: Chroma, full: Chroma)
    requires
        hue.wf(),
        none.magnitude().num() == 0,
        full.magnitude().num() == unit(),
    ensures
        hue.darkest_levels(none) == (Prop(0), Prop(0), Prop(0)),
        hue.lightest_levels(none) == (Prop(unit() as u64), Prop(unit() as u64), Prop(unit() as u64)),
        hue.darkest_levels(full) == hue.peak_levels(),
        hue.lightest_levels(full) == hue.peak_levels(),
{
    match hue {
        Hue::Primary(_) => {},
        Hue::Secondary(_) => {},
        Hue::Sextant(sextant_hue) => {
            let s = sextant_hue.second();
            assert(s * 0 == 0) by (nonlinear_arith);
            assert(0 * s == 0) by (nonlinear_arith);
            assert(unit() * s == s * unit()) by (nonlinear_arith);
            lemma_exact_div(0, unit());
            lemma_exact_div(s, unit());
        },
    }
}

/// As the chroma grows, the least sum at which a hue can show it does not
/// fall and the greatest does not rise, and the least never exceeds the
/// peak, nor the peak the greatest.
pub proof fn lemma_sum_range_narrows(hue: Hue, lesser: Prop, greater: Prop)
    requires
        hue.wf(),
        0 < lesser.num() <= greater.num(),
    ensures
        hue.sum_range(lesser) is Some,
        hue.sum_range(greater) is Some,
        hue.sum_range(lesser)->Some_0.min.num() <= hue.sum_range(greater)->Some_0.min.num(),
        hue.sum_range(greater)->Some_0.max.num() <= hue.sum_range(lesser)->Some_0.max.num(),
        hue.sum_range(greater)->Some_0.ordered(),
        hue.sum_range(lesser)->Some_0.ordered(),
        hue.sum_range(lesser)->Some_0.max_chroma_sum == hue.peak_sum(),
        hue.sum_range(greater)->Some_0.max_chroma_sum == hue.peak_sum(),
{
    match hue {
        Hue::Primary(_) => {},
        Hue::Secondary(_) => {},
        Hue::Sextant(sextant_hue) => {
            let s = sextant_hue.second();
            let m = unit();
            lemma_scaled_product_grows(m + s, lesser.num(), greater.num());
            lemma_scaled_product_grows(2 * m - s, lesser.num(), greater.num());
            lemma_scaled_product_grows(m + s, greater.num(), m);
            lemma_scaled_product_grows(2 * m - s, greater.num(), m);
            lemma_scaled_product_grows(m + s, 0, lesser.num());
            lemma_scaled_product_grows(2 * m - s, 0, lesser.num());
            lemma_exact_div(m + s, m);
            lemma_exact_div(2 * m - s, m);
            assert((m + s) * 0 == 0) by (nonlinear_arith);
            assert((2 * m - s) * 0 == 0) by (nonlinear_arith);
            lemma_exact_div(0, m);
        },
    }
}

/// A scaled product does not fall as its second factor grows.
pub proof fn lemma_scaled_product_grows(a: int, lesser: int, greater: int)
    requires
        0 <= a,
        lesser <= greater,
    ensures
        scaled_product(a, lesser) <= scaled_product(a, greater),
{
    assert(a * lesser <= a * greater) by (nonlinear_arith)
        requires
            0 <= a,
            lesser <= greater,
    ;
    lemma_floor_div_monotone(a * lesser, a * greater, unit());
}

/// A colour made for a sum and a chroma has a sum that falls short of the
/// one asked for by two units at most, and inside a wedge it has the sum
/// exactly. Its chroma is the one asked for, but for
/// a hue so close to its wedge's primary, or a chroma so small, that the
/// middle component does not rise above the lowest: there the chroma may
/// exceed the one asked for by a unit.
pub proof fn lemma_sum_conserved(hue: Hue, sum: UFDRNumber, chroma: Chroma)
    requires
        hue.wf(),
        sum.valid(),
        hue.levels_for(sum, chroma) is Some,
    ensures
        sum.num() - 2 <= sum_of(hue.levels_for(sum, chroma)->Some_0) <= sum.num(),
        hue is Sextant ==> sum_of(hue.levels_for(sum, chroma)->Some_0) == sum.num(),
        chroma.magnitude().num() <= spread_of(hue.levels_for(sum, chroma)->Some_0)
            <= chroma.magnitude().num() + 1,
        (hue is Sextant ==> hue->Sextant_0.middle(chroma.magnitude().num()) > 0) ==> spread_of(
            hue.levels_for(sum, chroma)->Some_0,
        ) == chroma.magnitude().num(),
        chroma.magnitude().num() > 0,
{
    let c = chroma.magnitude().num();
    match hue {
        Hue::Primary(_) => {
            lemma_floor_div_bounds(sum.num() - c, 3);
            let low = RGBHue::low_level(sum.num(), c);
            assert(0 <= low <= low + c <= unit());
        },
        Hue::Secondary(_) => {
            lemma_floor_div_bounds(sum.num() + c, 3);
            lemma_floor_div_bounds(sum.num() - 2 * c, 3);
            lemma_floor_div_unique(sum.num() + c, 3, (sum.num() - 2 * c) / 3 + c);
        },
        Hue::Sextant(sextant_hue) => {
            let ck = sextant_hue.middle(c);
            crate::sextant::lemma_middle_below(sextant_hue.second(), c);
            crate::sextant::lemma_shares(c, ck, sum.num() - ck - c);
        },
    }
}

/// No hue has a colour of chroma above zero at the sums zero and three,
/// where black and white stand alone.
pub proof fn lemma_no_colour_at_ends(hue: Hue, sum: UFDRNumber, chroma: Chroma)
    requires
        hue.wf(),
        chroma.magnitude().num() > 0,
        sum.num() == 0 || sum.num() == 3 * unit(),
    ensures
        hue.levels_for(sum, chroma) is None,
{
    let c = chroma.magnitude().num();
    match hue {
        Hue::Primary(_) => {
            lemma_floor_div_bounds(sum.num() - c, 3);
        },
        Hue::Secondary(_) => {},
        Hue::Sextant(sextant_hue) => {
            let ck = sextant_hue.middle(c);
            crate::sextant::lemma_middle_below(sextant_hue.second(), c);
            if sum.num() - ck - c >= 0 {
                crate::sextant::lemma_shares(c, ck, sum.num() - ck - c);
            }
        },
    }
}

/// The least sum at which a hue inside a wedge can show a chroma is the
/// chroma and the height of the middle component together, and the
/// greatest lies at most a unit above three less twice the chroma plus
/// that height.
pub proof fn lemma_wedge_range_ends(hue: SextantHue, c: int)
    requires
        hue.wf(),
        0 < c <= unit(),
    ensures
        scaled_product(unit() + hue.second(), c) == c + hue.middle(c),
        2 * c - hue.middle(c) - 1 <= scaled_product(2 * unit() - hue.second(), c) <= 2 * c
            - hue.middle(c),
{
    let m = unit();
    let s = hue.second();
    let ck = hue.middle(c);
    assert((m + s) * c == c * m + s * c) by (nonlinear_arith);
    crate::arith::lemma_floor_div_split(c, s * c, m);
    lemma_floor_div_bounds(s * c, m);
    assert((2 * m - s) * c == (2 * c - ck - 1) * m + ((ck + 1) * m - s * c)) by (nonlinear_arith);
    crate::arith::lemma_floor_div_split(2 * c - ck - 1, (ck + 1) * m - s * c, m);
    assert(0 < (ck + 1) * m - s * c <= m) by (nonlinear_arith)
        requires
            ck * m <= s * c < (ck + 1) * m,
    ;
    lemma_floor_div_bounds((ck + 1) * m - s * c, m);
    let rest = ((ck + 1) * m - s * c) / m;
    assert(0 <= rest <= 1) by (nonlinear_arith)
        requires
            rest * m <= (ck + 1) * m - s * c < (rest + 1) * m,
            0 < (ck + 1) * m - s * c <= m,
            m > 0,
    ;
}

/// Where a hue has no colour for a sum and a chroma above zero, the sum
/// lies outside the range of sums at which the hue can show that chroma.
pub proof fn lemma_none_only_outside(hue: Hue, sum: UFDRNumber, chroma: Chroma)
    requires
        hue.wf(),
        sum.valid(),
        chroma.magnitude().num() > 0,
        hue.levels_for(sum, chroma) is None,
    ensures
        hue.sum_range(chroma.magnitude()) is Some,
        hue.sum_range(chroma.magnitude())->Some_0.place_of(sum).failure(),
{
    let c = chroma.magnitude().num();
    let m = unit();
    match hue {
        Hue::Primary(_) => {
            lemma_floor_div_bounds(sum.num() - c, 3);
        },
        Hue::Secondary(_) => {},
        Hue::Sextant(sextant_hue) => {
            let s = sextant_hue.second();
            let ck = sextant_hue.middle(c);
            lemma_wedge_range_ends(sextant_hue, c);
            crate::sextant::lemma_middle_below(s, c);
            let spare = sum.num() - ck - c;
            if spare >= 0 {
                lemma_floor_div_bounds(spare, 3);
                lemma_floor_div_bounds(s * c, m);
                assert(sum.num() >= 3 * m - 2 * c + ck + 2);
                assert(m * (2 * (m - c) + ck + 1) > s * m) by (nonlinear_arith)
                    requires
                        s * c < (ck + 1) * m,
                        0 < s < m,
                        0 < c <= m,
                ;
                assert(2 * (m - c) + ck + 1 > s) by (nonlinear_arith)
                    requires
                        m * (2 * (m - c) + ck + 1) > s * m,
                        m > 0,
                ;
            }
        },
    }
}

/// A hue has a colour for every sum in the range of sums at which it can
/// show a chroma, the ends of the range among them.
pub proof fn lemma_colour_inside_range(hue: Hue, sum: UFDRNumber, chroma: Chroma)
    requires
        hue.wf(),
        hue.sum_range(chroma.magnitude()) is Some,
        hue.sum_range(chroma.magnitude())->Some_0.min.num() <= sum.num()
            <= hue.sum_range(chroma.magnitude())->Some_0.max.num(),
    ensures
        hue.levels_for(sum, chroma) is Some,
{
    let c = chroma.magnitude().num();
    match hue {
        Hue::Primary(_) => {
            lemma_floor_div_bounds(sum.num() - c, 3);
        },
        Hue::Secondary(_) => {},
        Hue::Sextant(sextant_hue) => {
            let ck = sextant_hue.middle(c);
            lemma_wedge_range_ends(sextant_hue, c);
            crate::sextant::lemma_middle_below(sextant_hue.second(), c);
            lemma_floor_div_bounds(sum.num() - ck - c, 3);
        },
    }
}

/// A hue has no colour for a sum below the range of sums at which it can
/// show a chroma, nor for one that lies three units or more above it.
pub proof fn lemma_none_far_outside(hue: Hue, sum: UFDRNumber, chroma: Chroma)
    requires
        hue.wf(),
        sum.valid(),
        hue.sum_range(chroma.magnitude()) is Some,
        sum.num() < hue.sum_range(chroma.magnitude())->Some_0.min.num() || sum.num()
            >= hue.sum_range(chroma.magnitude())->Some_0.max.num() + 3,
    ensures
        hue.levels_for(sum, chroma) is None,
{
    let c = chroma.magnitude().num();
    match hue {
        Hue::Primary(_) => {
            lemma_floor_div_bounds(sum.num() - c, 3);
        },
        Hue::Secondary(_) => {},
        Hue::Sextant(sextant_hue) => {
            let ck = sextant_hue.middle(c);
            lemma_wedge_range_ends(sextant_hue, c);
            crate::sextant::lemma_middle_below(sextant_hue.second(), c);
            let spare = sum.num() - ck - c;
            if spare >= 0 {
                lemma_floor_div_bounds(spare, 3);
            }
        },
    }
}

/// Scaling a number by a factor of at least one and back gives the
/// number, or one unit less.
pub proof fn lemma_scale_up_and_back(c: int, factor: int)
    requires
        0 <= c,
        unit() <= factor,
    ensures
        c - 1 <= scaled_ratio(scaled_product(factor, c), factor) <= c,
{
    let m = unit();
    let up = scaled_product(factor, c);
    lemma_floor_div_bounds(factor * c, m);
    assert((up + 1) * m == up * m + m) by (nonlinear_arith);
    assert(up * m <= c * factor) by (nonlinear_arith)
        requires
            up * m <= factor * c,
    ;
    lemma_floor_div_monotone(up * m, c * factor, factor);
    lemma_exact_div(c, factor);
    assert((c - 1) * factor <= up * m) by (nonlinear_arith)
        requires
            factor * c < up * m + m,
            m <= factor,
    ;
    lemma_floor_div_monotone((c - 1) * factor, up * m, factor);
    lemma_exact_div(c - 1, factor);
}

/// At the least sum at which a hue can show a chroma short of one, the
/// greatest chroma that it can show is that chroma as a shade, and at the
/// greatest such sum it is that chroma as a tint; for a hue inside a wedge
/// either may fall a unit short.
pub proof fn lemma_peak_chroma_at_range_ends(hue: Hue, prop: Prop)
    requires
        hue.wf(),
        0 < prop.num() < unit(),
    ensures
        hue.sum_range(prop) is Some,
        hue.peak_chroma(hue.sum_range(prop)->Some_0.min) matches Some(Chroma::Shade(found))
            && prop.num() - 1 <= found.num() <= prop.num() && (!(hue is Sextant) ==> found
            == prop),
        hue.peak_chroma(hue.sum_range(prop)->Some_0.max) matches Some(Chroma::Tint(found))
            && prop.num() - 1 <= found.num() <= prop.num() && (!(hue is Sextant) ==> found
            == prop),
{
    let c = prop.num();
    let m = unit();
    match hue {
        Hue::Primary(_) => {},
        Hue::Secondary(_) => {},
        Hue::Sextant(sextant_hue) => {
            let s = sextant_hue.second();
            lemma_wedge_range_ends(sextant_hue, c);
            crate::sextant::lemma_middle_below(s, c);
            lemma_scale_up_and_back(c, m + s);
            lemma_scale_up_and_back(c, 2 * m - s);
            let ck = sextant_hue.middle(c);
            lemma_floor_div_bounds(s * c, m);
            assert(ck <= s) by (nonlinear_arith)
                requires
                    ck * m <= s * c,
                    0 < c < m,
                    0 < s,
                    0 <= ck,
            ;
            let high = scaled_product(2 * m - s, c);
            lemma_scaled_product_grows(2 * m - s, c, m - 1);
            assert((2 * m - s) * (m - 1) == (2 * m - s - 1) * m + (s - m)) by (nonlinear_arith);
            crate::arith::lemma_floor_div_split(2 * m - s - 1, s - m, m);
            lemma_floor_div_bounds(s - m, m);
            assert((s - m) / m < 0) by (nonlinear_arith)
                requires
                    ((s - m) / m) * m <= s - m,
                    s - m < 0,
                    m > 0,
            ;
            assert(high < 2 * m - s);
            assert(high >= 1);
        },
    }
}

/// A colour whose components are distinct and ordered as a wedge orders
/// them has a hue inside that wedge.
pub proof fn lemma_wedge_found(sextant: Sextant, levels: (Prop, Prop, Prop))
    requires
        sextant.holds(levels),
    ensures
        hue_of(levels) == Some(
            Hue::Sextant(SextantHue(sextant, SextantHue::place_of(sextant, levels))),
        ),
{
}

/// A colour made for a hue inside a wedge lies in that wedge, where the
/// middle component stands two units or more above the lowest and below
/// the highest. Its place in the wedge is then that of the hue but for the
/// rounding of two divisions: the two differ by no more than one unit and
/// two more for every time that the chroma goes into one.
pub proof fn lemma_wedge_hue_kept(hue: SextantHue, sum: UFDRNumber, chroma: Chroma)
    requires
        hue.wf(),
        sum.valid(),
        hue.levels_for(sum, chroma) is Some,
        2 <= hue.middle(chroma.magnitude().num()) <= chroma.magnitude().num() - 2,
    ensures
        hue.0.holds(hue.levels_for(sum, chroma)->Some_0),
        hue_of(hue.levels_for(sum, chroma)->Some_0) == Some(
            Hue::Sextant(
                SextantHue(hue.0, SextantHue::place_of(hue.0, hue.levels_for(sum, chroma)->Some_0)),
            ),
        ),
        crate::proportion::distance(
            SextantHue::place_of(hue.0, hue.levels_for(sum, chroma)->Some_0).num(),
            hue.second(),
        ) * chroma.magnitude().num() <= 2 * unit() + chroma.magnitude().num(),
{
    let m = unit();
    let c = chroma.magnitude().num();
    let s = hue.second();
    let ck = hue.middle(c);
    let spare = sum.num() - ck - c;
    let parts = shares(c, ck, spare);
    let levels = hue.levels_for(sum, chroma)->Some_0;
    crate::sextant::lemma_shares(c, ck, spare);
    lemma_floor_div_bounds(spare, 3);
    assert(levels == hue.0.arrange(Prop(parts.0 as u64), Prop(parts.1 as u64), Prop(parts.2 as u64)));
    let ranked = hue.0.ranked(levels);
    assert(ranked.0.num() == parts.0 && ranked.1.num() == parts.1 && ranked.2.num() == parts.2);
    assert(parts.0 > parts.1 > parts.2);
    lemma_wedge_found(hue.0, levels);
    let part = parts.1 - parts.2;
    assert(parts.0 - parts.2 == c);
    assert(ck - 1 <= part <= ck + 1);
    let place = scaled_ratio(part, c);
    assert(SextantHue::place_of(hue.0, levels).num() == place) by {
        lemma_ratio_inside(part, c);
    }
    lemma_floor_div_bounds(part * m, c);
    lemma_floor_div_bounds(s * c, m);
    assert(place * c <= s * c + m) by (nonlinear_arith)
        requires
            place * c <= part * m,
            part <= ck + 1,
            ck * m <= s * c,
            m > 0,
    ;
    assert(place * c + c + 2 * m > s * c) by (nonlinear_arith)
        requires
            part * m < (place + 1) * c,
            ck - 1 <= part,
            s * c < (ck + 1) * m,
            m > 0,
    ;
    if place <= s {
        assert((s - place) * c == s * c - place * c) by (nonlinear_arith);
    } else {
        assert((place - s) * c == place * c - s * c) by (nonlinear_arith);
    }
}

/// A colour made for a primary or a secondary has that hue.
pub proof fn lemma_pure_hue_kept(hue: Hue, sum: UFDRNumber, chroma: Chroma)
    requires
        hue is Primary || hue is Secondary,
        sum.valid(),
        hue.levels_for(sum, chroma) is Some,
    ensures
        hue_of(hue.levels_for(sum, chroma)->Some_0) == Some(hue),
{
    let c = chroma.magnitude().num();
    match hue {
        Hue::Primary(_) => {
            lemma_floor_div_bounds(sum.num() - c, 3);
        },
        Hue::Secondary(_) => {
            lemma_floor_div_bounds(sum.num() + c, 3);
            lemma_floor_div_bounds(sum.num() - 2 * c, 3);
            lemma_floor_div_unique(sum.num() + c, 3, (sum.num() - 2 * c) / 3 + c);
        },
        Hue::Sextant(_) => {},
    }
}

} // verus!
