use colour_math_ng::angle::place_of_angle;
use colour_math_ng::angle::Angle;
use colour_math_ng::angle::AnglePlace;
use colour_math_ng::angle::DEGREE;
use colour_math_ng::attributes::CCI;
use colour_math_ng::chroma::Chroma;
use colour_math_ng::geometry::HueIfce;
use colour_math_ng::hue::Hue;
use colour_math_ng::primary::RGBHue;
use colour_math_ng::proportion::Prop;
use colour_math_ng::proportion::UFDRNumber;
use colour_math_ng::rgb::RGB;
use colour_math_ng::secondary::CMYHue;
use colour_math_ng::sextant::Sextant;
use colour_math_ng::sextant::SextantHue;
use colour_math_ng::sum_range::UFDRNumberOrdering;
use colour_math_ng::sum_range::UFDRNumberRange;
use std::ops::Neg;

const NON_ZERO_CHROMAS: [f64; 7] = [0.01, 0.025, 0.5, 0.75, 0.9, 0.99, 1.0];
const VALID_OTHER_SUMS: [f64; 20] = [
    0.01,
    0.025,
    0.5,
    0.75,
    0.9,
    0.99999,
    1.0,
    1.000000001,
    1.025,
    1.5,
    1.75,
    1.9,
    1.99999,
    2.0,
    2.000000001,
    2.025,
    2.5,
    2.75,
    2.9,
    2.99,
];
// "second" should never be 0.0 or 1.0
const SECOND_VALUES: [f64; 11] = [0.001, 0.1, 0.2, 0.3, 0.4, 0.5, 0.6, 0.7, 0.8, 0.9, 0.99];

const SEXTANTS: [Sextant; 6] = [
    Sextant::RedYellow,
    Sextant::RedMagenta,
    Sextant::GreenCyan,
    Sextant::GreenYellow,
    Sextant::BlueCyan,
    Sextant::BlueMagenta,
];

fn prop(value: f64) -> Prop {
    Prop((value * u64::MAX as f64) as u64)
}

fn ufdrn(value: f64) -> UFDRNumber {
    UFDRNumber((value * u64::MAX as f64) as u128)
}

fn units(tolerance: f64) -> u64 {
    (tolerance * u64::MAX as f64) as u64
}

fn radians(angle: Angle) -> f64 {
    (angle.0 as f64 / DEGREE as f64).to_radians()
}

fn angle_of_radians(value: f64) -> Angle {
    Angle((value.to_degrees() * DEGREE as f64).round() as i64)
}

// The chroma of a magnitude on a side; one has no side.
fn shade(magnitude: Prop) -> Chroma {
    if magnitude == Prop::one() {
        Chroma::one()
    } else {
        Chroma::Shade(magnitude)
    }
}

fn tint(magnitude: Prop) -> Chroma {
    Chroma::Tint(magnitude)
}

fn rgb_hue_indices(hue: &RGBHue) -> (CCI, CCI, CCI) {
    match hue {
        RGBHue::Red => (CCI::Red, CCI::Green, CCI::Blue),
        RGBHue::Green => (CCI::Green, CCI::Red, CCI::Blue),
        RGBHue::Blue => (CCI::Blue, CCI::Red, CCI::Green),
    }
}

fn cmy_hue_indices(hue: &CMYHue) -> (CCI, CCI, CCI) {
    match hue {
        CMYHue::Magenta => (CCI::Red, CCI::Blue, CCI::Green),
        CMYHue::Yellow => (CCI::Red, CCI::Green, CCI::Blue),
        CMYHue::Cyan => (CCI::Green, CCI::Blue, CCI::Red),
    }
}

fn sextant_indices(sextant: &Sextant) -> (CCI, CCI, CCI) {
    match sextant {
        Sextant::RedYellow => (CCI::Red, CCI::Green, CCI::Blue),
        Sextant::RedMagenta => (CCI::Red, CCI::Blue, CCI::Green),
        Sextant::GreenYellow => (CCI::Green, CCI::Red, CCI::Blue),
        Sextant::GreenCyan => (CCI::Green, CCI::Blue, CCI::Red),
        Sextant::BlueMagenta => (CCI::Blue, CCI::Red, CCI::Green),
        Sextant::BlueCyan => (CCI::Blue, CCI::Green, CCI::Red),
    }
}

fn indices(hue: &Hue) -> (CCI, CCI, CCI) {
    match hue {
        Hue::Primary(rgb_hue) => rgb_hue_indices(rgb_hue),
        Hue::Secondary(cmy_hue) => cmy_hue_indices(cmy_hue),
        Hue::Sextant(sextant_hue) => sextant_indices(&sextant_hue.sextant()),
    }
}

#[test]
fn hue_from_rgb() {
    for rgb in &[
        RGB::<u64>::black(),
        RGB::white(),
        RGB::from([prop(0.5_f64), prop(0.5_f64), prop(0.5_f64)]),
    ] {
        assert!(Hue::try_from(rgb).is_err());
    }
    for (rgb, hue) in RGB::<u64>::primaries().iter().zip(Hue::primaries().iter()) {
        assert_eq!(Hue::try_from(rgb), Ok(*hue));
        assert_eq!(Hue::try_from(&(*rgb * prop(0.5))), Ok(*hue));
    }
    for (rgb, hue) in RGB::<u64>::secondaries()
        .iter()
        .zip(Hue::secondaries().iter())
    {
        assert_eq!(Hue::try_from(rgb), Ok(*hue));
        assert_eq!(Hue::try_from(&(*rgb * prop(0.5))), Ok(*hue));
    }
    for (array, sextant, second) in &[
        (
            [Prop::one(), prop(0.5_f64), Prop::zero()],
            Sextant::RedYellow,
            prop(0.5),
        ),
        (
            [Prop::zero(), prop(0.25_f64), prop(0.5_f64)],
            Sextant::BlueCyan,
            prop(0.5),
        ),
        (
            [prop(0.2_f64), Prop::zero(), prop(0.4_f64)],
            Sextant::BlueMagenta,
            prop(0.5),
        ),
        (
            [prop(0.5_f64), Prop::zero(), Prop::one()],
            Sextant::BlueMagenta,
            prop(0.5),
        ),
        (
            [Prop::one(), Prop::zero(), prop(0.5_f64)],
            Sextant::RedMagenta,
            prop(0.5),
        ),
        (
            [prop(0.5_f64), Prop::one(), Prop::zero()],
            Sextant::GreenYellow,
            prop(0.5),
        ),
        (
            [Prop::zero(), Prop::one(), prop(0.5_f64)],
            Sextant::GreenCyan,
            prop(0.5),
        ),
    ] {
        let rgb = RGB::<u64>::from([array[0], array[1], array[2]]);
        let hue = Hue::Sextant(SextantHue(*sextant, *second));
        assert!(Hue::try_from(&rgb).unwrap().approx_eq(&hue, Some(0xF)));
    }
}

#[test]
fn hue_max_chroma_rgb() {
    for (hue, rgb) in Hue::primaries().iter().zip(RGB::<u64>::primaries().iter()) {
        assert_eq!(hue.max_chroma_rgb::<u64>(), *rgb);
    }
    for (hue, rgb) in Hue::secondaries()
        .iter()
        .zip(RGB::<u64>::secondaries().iter())
    {
        assert_eq!(hue.max_chroma_rgb::<u64>(), *rgb);
    }
    for (array, sextant, second) in &[
        (
            [Prop::one(), prop(0.5_f64), Prop::zero()],
            Sextant::RedYellow,
            prop(0.5_f64),
        ),
        (
            [Prop::zero(), prop(0.5_f64), Prop::one()],
            Sextant::BlueCyan,
            prop(0.5_f64),
        ),
        (
            [prop(0.5_f64), Prop::zero(), Prop::one()],
            Sextant::BlueMagenta,
            prop(0.5_f64),
        ),
        (
            [Prop::one(), Prop::zero(), prop(0.5_f64)],
            Sextant::RedMagenta,
            prop(0.5_f64),
        ),
        (
            [prop(0.5_f64), Prop::one(), Prop::zero()],
            Sextant::GreenYellow,
            prop(0.5_f64),
        ),
        (
            [Prop::zero(), Prop::one(), prop(0.5_f64)],
            Sextant::GreenCyan,
            prop(0.5_f64),
        ),
    ] {
        let rgb = RGB::<u64>::from(*array);
        let hue = Hue::Sextant(SextantHue(*sextant, *second));
        println!("{:?} {:?} {:?} {:?}", rgb, sextant, second, hue);
        assert_eq!(Hue::try_from(&rgb), Ok(hue));
    }
}

#[test]
fn hue_to_from_angle() {
    for (angle, hue) in Angle::primaries().iter().zip(Hue::primaries().iter()) {
        assert_eq!(
            Hue::from_place(place_of_angle(*angle), Prop::zero()),
            Some(*hue)
        );
        assert_eq!(hue.pure_angle(), Some(*angle));
    }
    for (angle, hue) in Angle::secondaries().iter().zip(Hue::secondaries().iter()) {
        assert_eq!(
            Hue::from_place(place_of_angle(*angle), Prop::zero()),
            Some(*hue)
        );
        assert_eq!(hue.pure_angle(), Some(*angle));
    }
    let second = prop(0.5_f64);
    for (angle, sextant) in &[
        (Angle::from((30, 0, 0)), Sextant::RedYellow),
        (Angle::from((90, 0, 0)), Sextant::GreenYellow),
        (Angle::from((150, 0, 0)), Sextant::GreenCyan),
        (Angle::from((30, 0, 0)).neg(), Sextant::RedMagenta),
        (Angle::from((90, 0, 0)).neg(), Sextant::BlueMagenta),
        (Angle::from((150, 0, 0)).neg(), Sextant::BlueCyan),
    ] {
        let hue = Hue::Sextant(SextantHue(*sextant, second));
        // the place round the circle is the library's, the ratio of sines
        // that turns an angle within a wedge into a proportion is not
        let place = place_of_angle(*angle);
        let within = match place {
            AnglePlace::Wedge(found, within) => {
                assert_eq!(found, *sextant);
                within
            }
            _ => panic!("it's gone pure"),
        };
        let ratio = radians(within).sin() / (radians(Angle::green()) - radians(within)).sin();
        let from_angle = Hue::from_place(place, prop(ratio)).unwrap();
        assert!(from_angle.approx_eq(&hue, Some(10000)));
        let half: f64 = 0.5;
        let sin = 3.0_f64.sqrt() * half / 2.0 / (1.0 - half + half.powi(2)).sqrt();
        let to_angle = hue.angle_for(angle_of_radians(sin.asin()));
        assert!(to_angle.approx_eq(angle, Some(100000)));
    }
}

#[test]
fn max_chroma_and_sum_ranges() {
    for hue in &Hue::primaries() {
        assert!(hue.sum_range_for_chroma_prop(Prop::zero()).is_none());
        assert_eq!(
            hue.sum_range_for_chroma_prop(Prop::one()),
            Some(UFDRNumberRange::from((
                UFDRNumber::one(),
                UFDRNumber::one(),
                UFDRNumber::one()
            )))
        );
        for item in NON_ZERO_CHROMAS.iter() {
            let prop = prop(*item);
            let range = hue.sum_range_for_chroma_prop(prop).unwrap();
            let max_chroma = hue.max_chroma_for_sum(range.shade_min()).unwrap();
            assert!(max_chroma.approx_eq(&shade(prop), Some(0xF)));
            let max_chroma = hue.max_chroma_for_sum(range.tint_max()).unwrap();
            assert!(max_chroma.approx_eq(&tint(prop), Some(0xF)));
        }
    }
    for hue in &Hue::secondaries() {
        assert!(hue.sum_range_for_chroma_prop(Prop::zero()).is_none());
        assert_eq!(
            hue.sum_range_for_chroma_prop(Prop::one()),
            Some(UFDRNumberRange::from((
                UFDRNumber::two(),
                UFDRNumber::two(),
                UFDRNumber::two()
            )))
        );
        for item in NON_ZERO_CHROMAS.iter() {
            let prop = prop(*item);
            let range = hue.sum_range_for_chroma_prop(prop).unwrap();
            let max_chroma = hue.max_chroma_for_sum(range.shade_min()).unwrap();
            assert!(max_chroma.approx_eq(&shade(prop), Some(0xF)));
            let max_chroma = hue.max_chroma_for_sum(range.tint_max()).unwrap();
            assert!(max_chroma.approx_eq(&tint(prop), Some(0xF)));
        }
    }
    for sextant in &SEXTANTS {
        for item in SECOND_VALUES.iter() {
            let other = prop(*item);
            let hue = Hue::Sextant(SextantHue(*sextant, other));
            assert!(hue.sum_range_for_chroma_prop(Prop::zero()).is_none());
            assert_eq!(
                hue.sum_range_for_chroma_prop(Prop::one()),
                Some(UFDRNumberRange::from((
                    UFDRNumber::one() + other,
                    UFDRNumber::one() + other,
                    UFDRNumber::one() + other
                )))
            );
        }
    }
}

#[test]
fn primary_max_chroma_rgbs() {
    for (hue, expected_rgb) in Hue::primaries().iter().zip(RGB::<u64>::primaries().iter()) {
        assert_eq!(
            hue.max_chroma_rgb_for_sum::<u64>(UFDRNumber::one()).unwrap(),
            *expected_rgb
        );
        assert!(hue
            .max_chroma_rgb_for_sum::<u64>(UFDRNumber::zero())
            .is_none());
        assert!(hue
            .max_chroma_rgb_for_sum::<u64>(UFDRNumber::three())
            .is_none());
        for sum in [
            ufdrn(0.0001_f64),
            ufdrn(0.25_f64),
            ufdrn(0.5_f64),
            ufdrn(0.75_f64),
            ufdrn(0.9999_f64),
        ]
        .iter()
        {
            let mut array = [Prop::zero(), Prop::zero(), Prop::zero()];
            array[indices(hue).0 as usize] = (*sum).to_prop();
            let expected: RGB<u64> = array.into();
            assert_eq!(hue.max_chroma_rgb_for_sum::<u64>(*sum).unwrap(), expected);
        }
        for sum in [
            ufdrn(2.0001_f64),
            ufdrn(2.25_f64),
            ufdrn(2.5_f64),
            ufdrn(2.75_f64),
            ufdrn(2.9999_f64),
        ]
        .iter()
        {
            let mut array = [Prop::one(), Prop::one(), Prop::one()];
            array[indices(hue).1 as usize] = ((*sum - UFDRNumber::one()) / 2).to_prop();
            array[indices(hue).2 as usize] = ((*sum - UFDRNumber::one()) / 2).to_prop();
            let expected: RGB<u64> = array.into();
            assert_eq!(hue.max_chroma_rgb_for_sum::<u64>(*sum).unwrap(), expected);
        }
    }
}

#[test]
fn secondary_max_chroma_rgbs() {
    for (hue, expected_rgb) in Hue::secondaries()
        .iter()
        .zip(RGB::<u64>::secondaries().iter())
    {
        assert!(hue
            .max_chroma_rgb_for_sum::<u64>(ufdrn(2.0_f64))
            .unwrap()
            .approx_eq(expected_rgb, None));
        assert!(hue
            .max_chroma_rgb_for_sum::<u64>(UFDRNumber::zero())
            .is_none());
        assert!(hue
            .max_chroma_rgb_for_sum::<u64>(UFDRNumber::three())
            .is_none());
        for sum in [
            ufdrn(0.0001_f64),
            ufdrn(0.25_f64),
            ufdrn(0.5_f64),
            ufdrn(0.75_f64),
            UFDRNumber::one(),
            ufdrn(1.5_f64),
            ufdrn(1.9999_f64),
        ]
        .iter()
        {
            let mut array = [Prop::zero(), Prop::zero(), Prop::zero()];
            array[indices(hue).0 as usize] = (*sum / 2).to_prop();
            array[indices(hue).1 as usize] = (*sum / 2).to_prop();
            let expected: RGB<u64> = array.into();
            assert_eq!(hue.max_chroma_rgb_for_sum::<u64>(*sum).unwrap(), expected);
        }
        for sum in [
            ufdrn(2.0001_f64),
            ufdrn(2.25_f64),
            ufdrn(2.5_f64),
            ufdrn(2.75_f64),
            ufdrn(2.9999_f64),
        ]
        .iter()
        {
            let mut array = [Prop::one(), Prop::one(), Prop::one()];
            array[indices(hue).2 as usize] = (*sum - ufdrn(2.0_f64)).to_prop();
            let expected: RGB<u64> = array.into();
            assert!(hue
                .max_chroma_rgb_for_sum::<u64>(*sum)
                .unwrap()
                .approx_eq(&expected, None));
        }
    }
}

#[test]
fn other_max_chroma_rgbs() {
    for sextant in &SEXTANTS {
        for item in SECOND_VALUES.iter() {
            let second = prop(*item);
            let sextant_hue = SextantHue(*sextant, second);
            let hue = Hue::Sextant(sextant_hue);
            assert!(hue
                .max_chroma_rgb_for_sum::<u64>(UFDRNumber::zero())
                .is_none());
            assert!(hue
                .max_chroma_rgb_for_sum::<u64>(UFDRNumber::three())
                .is_none());
            for item in VALID_OTHER_SUMS.iter() {
                let sum = ufdrn(*item);
                let rgb = hue.max_chroma_rgb_for_sum::<u64>(sum).unwrap();
                assert!(sum.approx_eq(&rgb.sum(), Some(0xf)));
                match Hue::try_from(&rgb).unwrap() {
                    Hue::Sextant(SextantHue(sextant_out, second_out)) => {
                        assert_eq!(sextant_hue.0, sextant_out);
                        assert!(sextant_hue.1.approx_eq(&second_out, Some(0x153)));
                    }
                    _ => panic!("it's gone pure"),
                }
            }
        }
    }
}

#[test]
fn min_max_sum_rgb_for_chroma() {
    for (hue, expected_rgb) in Hue::primaries().iter().zip(RGB::<u64>::primaries().iter()) {
        println!("{:?} : {:?}", hue, expected_rgb);
        assert_eq!(
            hue.min_sum_rgb_for_chroma::<u64>(Chroma::one()),
            *expected_rgb
        );
        assert_eq!(
            hue.max_sum_rgb_for_chroma::<u64>(Chroma::one()),
            *expected_rgb
        );
        let prop = prop(0.5_f64);
        let shade = hue.min_sum_rgb_for_chroma::<u64>(Chroma::Shade(prop));
        let tint = hue.max_sum_rgb_for_chroma::<u64>(Chroma::Tint(prop));
        assert!(shade.value() < tint.value());
        assert!(shade.chroma().approx_eq(&Chroma::Shade(prop), Some(0xF)));
        assert!(tint.chroma().approx_eq(&Chroma::Tint(prop), Some(0xF)));
        assert!(shade
            .max_chroma_rgb()
            .approx_eq(&tint.max_chroma_rgb(), Some(units(0.0000001))));
    }
    for (hue, expected_rgb) in Hue::secondaries()
        .iter()
        .zip(RGB::<u64>::secondaries().iter())
    {
        let prop = prop(0.5_f64);
        println!("{:?} : {:?}", hue, expected_rgb);
        assert_eq!(
            hue.min_sum_rgb_for_chroma::<u64>(Chroma::one()),
            *expected_rgb
        );
        assert_eq!(
            hue.max_sum_rgb_for_chroma::<u64>(Chroma::one()),
            *expected_rgb
        );
        let shade = hue.min_sum_rgb_for_chroma::<u64>(Chroma::Shade(prop));
        let tint = hue.max_sum_rgb_for_chroma::<u64>(Chroma::Tint(prop));
        assert!(shade.value() < tint.value());
        assert!(shade.chroma().approx_eq(&Chroma::Shade(prop), Some(0xF)));
        assert!(tint.chroma().approx_eq(&Chroma::Tint(prop), Some(0xF)));
        assert!(shade
            .max_chroma_rgb()
            .approx_eq(&tint.max_chroma_rgb(), Some(units(0.0000001))));
    }
    for sextant in &SEXTANTS {
        for item in SECOND_VALUES.iter() {
            let second = prop(*item);
            let hue = Hue::Sextant(SextantHue(*sextant, second));
            assert_eq!(
                hue.min_sum_rgb_for_chroma::<u64>(Chroma::zero()),
                RGB::black()
            );
            assert_eq!(
                hue.max_sum_rgb_for_chroma::<u64>(Chroma::zero()),
                RGB::white()
            );
            for prop in NON_ZERO_CHROMAS.iter().map(|a| prop(*a)) {
                let shade_rgb = hue.min_sum_rgb_for_chroma::<u64>(shade(prop));
                let tint_rgb = hue.max_sum_rgb_for_chroma::<u64>(tint(prop));
                assert!(shade_rgb.sum() <= tint_rgb.sum());
                assert!(shade_rgb.chroma().approx_eq(&shade(prop), Some(0xA0)));
                assert!(tint_rgb.chroma().approx_eq(&tint(prop), Some(0x180)));
                assert!(shade_rgb
                    .max_chroma_rgb()
                    .approx_eq(&tint_rgb.max_chroma_rgb(), Some(units(0.000_001))));
            }
        }
    }
}

#[test]
fn primary_rgb_for_sum_and_chroma() {
    for hue in &Hue::primaries() {
        assert!(hue
            .rgb_for_sum_and_chroma::<u64>(UFDRNumber::zero(), Chroma::one())
            .is_none());
        assert!(hue
            .rgb_for_sum_and_chroma::<u64>(UFDRNumber::three(), Chroma::one())
            .is_none());
        assert!(hue
            .rgb_for_sum_and_chroma::<u64>(UFDRNumber::zero(), Chroma::zero())
            .is_none());
        assert!(hue
            .rgb_for_sum_and_chroma::<u64>(UFDRNumber::three(), Chroma::zero())
            .is_none());
        for prop in NON_ZERO_CHROMAS.iter().map(|item| prop(*item)) {
            for sum in VALID_OTHER_SUMS.iter().map(|item| ufdrn(*item)) {
                let chroma = Chroma::from((prop, *hue, sum));
                println!(
                    "Chroma: {:?} sum: {:?} hue: {:?} {:?}",
                    chroma,
                    sum,
                    hue,
                    hue.sum_for_max_chroma()
                );
                if let Some(rgb) = hue.rgb_for_sum_and_chroma::<u64>(sum, chroma) {
                    // NB: expect rounding error due to divide by 3 in the maths
                    assert!(rgb.sum().approx_eq(&sum, Some(0x3)));
                    // NB: near the swapover point sum errors can cause a shift in Chroma variant
                    if sum.approx_eq(&hue.sum_for_max_chroma(), Some(0x100)) {
                        assert_eq!(rgb.chroma().prop(), chroma.prop());
                    } else {
                        assert_eq!(rgb.chroma(), chroma);
                    }
                    assert_eq!(Hue::try_from(&rgb).unwrap(), *hue);
                } else {
                    let range = hue.sum_range_for_chroma_prop(chroma.prop()).unwrap();
                    println!("{:?}, {:?}, {:?} : {:?}", *hue, sum, chroma, range);
                    assert!(range.compare_sum(sum).is_failure());
                }
            }
        }
    }
}

#[test]
fn secondary_rgb_for_sum_and_chroma() {
    for hue in &Hue::secondaries() {
        assert!(hue
            .rgb_for_sum_and_chroma::<u64>(UFDRNumber::zero(), Chroma::one())
            .is_none());
        assert!(hue
            .rgb_for_sum_and_chroma::<u64>(UFDRNumber::three(), Chroma::one())
            .is_none());
        assert!(hue
            .rgb_for_sum_and_chroma::<u64>(UFDRNumber::zero(), Chroma::zero())
            .is_none());
        assert!(hue
            .rgb_for_sum_and_chroma::<u64>(UFDRNumber::three(), Chroma::zero())
            .is_none());
        for prop in NON_ZERO_CHROMAS.iter().map(|item| prop(*item)) {
            for sum in VALID_OTHER_SUMS.iter().map(|item| ufdrn(*item)) {
                let chroma = Chroma::from((prop, *hue, sum));
                if let Some(rgb) = hue.rgb_for_sum_and_chroma::<u64>(sum, chroma) {
                    assert!(rgb.sum().approx_eq(&sum, Some(0x3)));
                    assert!(rgb
                        .chroma()
                        .prop()
                        .approx_eq(&chroma.prop(), Some(0x100)));
                    assert!(rgb.chroma().approx_eq(&chroma, Some(0x100)));
                    assert_eq!(Hue::try_from(&rgb).unwrap(), *hue);
                } else {
                    let range = hue.sum_range_for_chroma_prop(chroma.prop()).unwrap();
                    assert!(range.compare_sum(sum).is_failure());
                }
            }
        }
    }
}

#[test]
fn general_rgb_for_sum_and_chroma() {
    for sextant in &SEXTANTS {
        for second in SECOND_VALUES.iter().map(|a| prop(*a)) {
            let sextant_hue = SextantHue(*sextant, second);
            let hue = Hue::Sextant(sextant_hue);
            assert!(hue
                .rgb_for_sum_and_chroma::<u64>(UFDRNumber::zero(), Chroma::one())
                .is_none());
            assert!(hue
                .rgb_for_sum_and_chroma::<u64>(UFDRNumber::three(), Chroma::one())
                .is_none());
            assert!(hue
                .rgb_for_sum_and_chroma::<u64>(UFDRNumber::zero(), Chroma::zero())
                .is_none());
            assert!(hue
                .rgb_for_sum_and_chroma::<u64>(UFDRNumber::three(), Chroma::zero())
                .is_none());
            for prop in NON_ZERO_CHROMAS.iter().map(|a| prop(*a)) {
                let sum_range = hue.sum_range_for_chroma_prop(prop).unwrap();
                for sum in VALID_OTHER_SUMS.iter().map(|a| ufdrn(*a)) {
                    let chroma = Chroma::from((prop, hue, sum));
                    if let Some(rgb) = hue.rgb_for_sum_and_chroma::<u64>(sum, chroma) {
                        match sum_range.compare_sum(sum) {
                            UFDRNumberOrdering::Shade(_, _) => {
                                assert_eq!(rgb.sum(), sum);
                                assert_eq!(rgb.chroma(), Chroma::Shade(prop));
                                assert!(Hue::try_from(&rgb)
                                    .unwrap()
                                    .approx_eq(&hue, Some(0x100)));
                            }
                            UFDRNumberOrdering::Tint(_, _) => {
                                assert_eq!(rgb.sum(), sum);
                                assert_eq!(rgb.chroma(), Chroma::Tint(prop));
                                assert!(Hue::try_from(&rgb)
                                    .unwrap()
                                    .approx_eq(&hue, Some(0x100)));
                            }
                            _ => (),
                        }
                    } else {
                        let range = hue.sum_range_for_chroma_prop(chroma.prop()).unwrap();
                        assert!(range.compare_sum(sum).is_failure());
                    }
                }
            }
        }
    }
}
