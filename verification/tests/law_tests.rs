use colour_math_ng::chroma::Chroma;
use colour_math_ng::geometry::HueIfce;
use colour_math_ng::hue::Hue;
use colour_math_ng::proportion::Prop;
use colour_math_ng::proportion::UFDRNumber;
use colour_math_ng::rgb::RGB;
use colour_math_ng::sextant::Sextant;
use colour_math_ng::sextant::SextantHue;

fn hues() -> Vec<Hue> {
    let mut hues = vec![
        Hue::red(),
        Hue::green(),
        Hue::blue(),
        Hue::cyan(),
        Hue::magenta(),
        Hue::yellow(),
    ];
    for sextant in [
        Sextant::RedYellow,
        Sextant::RedMagenta,
        Sextant::GreenYellow,
        Sextant::GreenCyan,
        Sextant::BlueCyan,
        Sextant::BlueMagenta,
    ] {
        for second in [1, 12345, u64::MAX / 3, u64::MAX / 2, u64::MAX - 1] {
            hues.push(Hue::Sextant(SextantHue(sextant, Prop(second))));
        }
    }
    hues
}

// a few colours of every kind, by a small generator of its own
fn colours() -> Vec<RGB<u64>> {
    let mut state: u64 = 0x9E37_79B9_7F4A_7C15;
    let mut next = move || {
        state ^= state << 13;
        state ^= state >> 7;
        state ^= state << 17;
        state
    };
    let mut colours = vec![
        RGB::new(u64::MAX, 0, 0),
        RGB::new(0, 1, 0),
        RGB::new(1, 1, 0),
        RGB::new(u64::MAX, u64::MAX - 1, u64::MAX),
        RGB::new(2, 1, 0),
        RGB::new(u64::MAX, u64::MAX - 1, u64::MAX - 2),
        RGB::new(0, u64::MAX, 1),
        RGB::new(5, 3, 4),
    ];
    for _ in 0..2000 {
        let (r, g, b) = (next(), next(), next());
        colours.push(RGB::new(r, g, b));
        colours.push(RGB::new(r, g, g));
        colours.push(RGB::new(r, r, b));
        colours.push(RGB::new(r >> 40, g >> 40, b >> 40));
    }
    colours
}

#[test]
fn every_colour_comes_back_from_hue_sum_and_chroma() {
    for rgb in colours() {
        match Hue::try_from(&rgb) {
            Ok(hue) => {
                let back = hue.rgb_for_sum_and_chroma::<u64>(rgb.sum(), rgb.chroma());
                assert_eq!(back, Some(rgb));
                assert_eq!(Hue::try_from(&back.unwrap()), Ok(hue));
            }
            Err(_) => assert!(rgb.is_grey()),
        }
    }
}

#[test]
fn narrow_colours_come_back_too() {
    for (red, green, blue) in [(255_u8, 128_u8, 0_u8), (1, 2, 3), (200, 200, 17), (9, 250, 250)] {
        let rgb = RGB::<u8>::new(red, green, blue);
        let hue = Hue::try_from(&rgb).unwrap();
        assert_eq!(
            hue.rgb_for_sum_and_chroma::<u8>(rgb.sum(), rgb.chroma()),
            Some(rgb)
        );
    }
    let rgb = RGB::<u16>::new(0x1234, 0xFFFF, 0x0001);
    let hue = Hue::try_from(&rgb).unwrap();
    assert_eq!(
        hue.rgb_for_sum_and_chroma::<u16>(rgb.sum(), rgb.chroma()),
        Some(rgb)
    );
}

#[test]
fn extremes_are_black_white_and_the_full_hue() {
    for hue in hues() {
        for none in [Chroma::zero(), Chroma::Tint(Prop::zero())] {
            assert_eq!(hue.min_sum_rgb_for_chroma::<u64>(none), RGB::black());
            assert_eq!(hue.max_sum_rgb_for_chroma::<u64>(none), RGB::white());
        }
        for full in [Chroma::one(), Chroma::Shade(Prop::one())] {
            assert_eq!(
                hue.min_sum_rgb_for_chroma::<u64>(full),
                hue.max_chroma_rgb()
            );
            assert_eq!(
                hue.max_sum_rgb_for_chroma::<u64>(full),
                hue.max_chroma_rgb()
            );
        }
    }
}

#[test]
fn sum_range_narrows_as_chroma_grows() {
    let chromas = [
        1,
        2,
        1000,
        u64::MAX / 7,
        u64::MAX / 2,
        u64::MAX - 1000,
        u64::MAX - 1,
        u64::MAX,
    ];
    for hue in hues() {
        for pair in chromas.windows(2) {
            let lesser = hue.sum_range_for_chroma_prop(Prop(pair[0])).unwrap();
            let greater = hue.sum_range_for_chroma_prop(Prop(pair[1])).unwrap();
            assert!(lesser.min <= greater.min);
            assert!(greater.max <= lesser.max);
            assert!(lesser.min <= lesser.max_chroma_sum && lesser.max_chroma_sum <= lesser.max);
            assert!(greater.min <= greater.max);
            assert_eq!(lesser.crossover(), hue.sum_for_max_chroma());
        }
        let full = hue.sum_range_for_chroma_prop(Prop::one()).unwrap();
        assert_eq!(full.min, full.max);
        assert_eq!(full.min, hue.sum_for_max_chroma());
    }
}

#[test]
fn made_colours_keep_their_sum() {
    let sums = [
        1_u128,
        1000,
        u64::MAX as u128 / 2,
        u64::MAX as u128,
        u64::MAX as u128 + 1,
        u64::MAX as u128 * 3 / 2,
        u64::MAX as u128 * 2 - 1,
        u64::MAX as u128 * 2,
        u64::MAX as u128 * 2 + 1,
        u64::MAX as u128 * 5 / 2 + 1,
        u64::MAX as u128 * 3 - 2,
    ];
    let chromas = [1, 2, 3, 4096, u64::MAX / 3, u64::MAX / 2, u64::MAX - 1, u64::MAX];
    let mut made = 0;
    for hue in hues() {
        for sum in sums.iter().map(|s| UFDRNumber(*s)) {
            for c in chromas.iter().map(|c| Prop(*c)) {
                if let Some(rgb) = hue.rgb_for_sum_and_chroma::<u64>(sum, Chroma::Shade(c)) {
                    made += 1;
                    assert!(rgb.sum() <= sum);
                    assert!(sum.abs_diff(&rgb.sum()) <= UFDRNumber(2));
                    let spread = rgb.chroma().prop();
                    match hue {
                        Hue::Sextant(_) => {
                            assert_eq!(rgb.sum(), sum);
                            assert!(spread == c || spread.0 == c.0 + 1);
                        }
                        _ => {
                            assert_eq!(spread, c);
                            assert_eq!(Hue::try_from(&rgb), Ok(hue));
                        }
                    }
                } else {
                    let range = hue.sum_range_for_chroma_prop(c).unwrap();
                    assert!(range.compare_sum(sum).is_failure());
                }
            }
        }
    }
    assert!(made > 500);
}

#[test]
fn no_colour_of_any_chroma_at_sums_zero_and_three() {
    for hue in hues() {
        for c in [1, 2, 3, 77, u64::MAX / 2, u64::MAX - 1, u64::MAX] {
            for chroma in [Chroma::Shade(Prop(c)), Chroma::Tint(Prop(c))] {
                assert_eq!(
                    hue.rgb_for_sum_and_chroma::<u64>(UFDRNumber::zero(), chroma),
                    None
                );
                assert_eq!(
                    hue.rgb_for_sum_and_chroma::<u64>(UFDRNumber::three(), chroma),
                    None
                );
            }
        }
    }
}

#[test]
fn zero_chroma_makes_no_colour() {
    for hue in hues() {
        for sum in [0, 1, u64::MAX as u128, u64::MAX as u128 * 3] {
            assert_eq!(
                hue.rgb_for_sum_and_chroma::<u64>(UFDRNumber(sum), Chroma::zero()),
                None
            );
        }
        assert_eq!(hue.sum_range_for_chroma_prop(Prop::zero()), None);
    }
}

#[test]
fn made_colours_stay_in_their_wedge() {
    let sums = [
        1000_u128,
        u64::MAX as u128 / 2,
        u64::MAX as u128,
        u64::MAX as u128 * 3 / 2,
        u64::MAX as u128 * 2 + 1,
        u64::MAX as u128 * 5 / 2 + 1,
    ];
    let chromas = [4, 100, 4096, u64::MAX / 3, u64::MAX / 2, u64::MAX - 1, u64::MAX];
    let mut kept = 0;
    for hue in hues() {
        let inside = match hue {
            Hue::Sextant(inside) => inside,
            _ => continue,
        };
        for sum in sums.iter().map(|s| UFDRNumber(*s)) {
            for c in chromas.iter().map(|c| Prop(*c)) {
                let middle = inside.prop() * c;
                if middle.0 < 2 || middle.0 > c.0 - 2 {
                    continue;
                }
                if let Some(rgb) = hue.rgb_for_sum_and_chroma::<u64>(sum, Chroma::Shade(c)) {
                    kept += 1;
                    match Hue::try_from(&rgb).unwrap() {
                        Hue::Sextant(found) => {
                            assert_eq!(found.sextant(), inside.sextant());
                            let drift = found.prop().abs_diff(&inside.prop()).0 as u128;
                            assert!(drift * c.0 as u128 <= 2 * u64::MAX as u128 + c.0 as u128);
                        }
                        _ => panic!("the hue left its wedge"),
                    }
                }
            }
        }
    }
    assert!(kept > 100);
}

#[test]
fn greatest_chroma_at_the_ends_of_a_range() {
    for hue in hues() {
        for c in [1, 2, 1000, u64::MAX / 3, u64::MAX / 2, u64::MAX - 1].map(Prop) {
            let range = hue.sum_range_for_chroma_prop(c).unwrap();
            let (low, high) = (
                hue.max_chroma_for_sum(range.shade_min()).unwrap(),
                hue.max_chroma_for_sum(range.tint_max()).unwrap(),
            );
            assert!(low.is_shade() && high.is_tint());
            match hue {
                Hue::Sextant(_) => {
                    assert!(low.prop() <= c && c.0 - low.prop().0 <= 1);
                    assert!(high.prop() <= c && c.0 - high.prop().0 <= 1);
                }
                _ => {
                    assert_eq!(low, Chroma::Shade(c));
                    assert_eq!(high, Chroma::Tint(c));
                }
            }
        }
    }
}

#[test]
fn no_colour_far_outside_the_range() {
    for hue in hues() {
        for c in [1, 2, 1000, u64::MAX / 3, u64::MAX / 2, u64::MAX - 1, u64::MAX].map(Prop) {
            let range = hue.sum_range_for_chroma_prop(c).unwrap();
            if range.min.0 > 0 {
                let below = UFDRNumber(range.min.0 - 1);
                assert_eq!(hue.rgb_for_sum_and_chroma::<u64>(below, Chroma::Tint(c)), None);
            }
            let above = UFDRNumber(range.max.0 + 3);
            if above.is_valid() {
                assert_eq!(hue.rgb_for_sum_and_chroma::<u64>(above, Chroma::Tint(c)), None);
            }
            assert!(hue
                .rgb_for_sum_and_chroma::<u64>(range.min, Chroma::Tint(c))
                .is_some());
            assert!(hue
                .rgb_for_sum_and_chroma::<u64>(range.max, Chroma::Tint(c))
                .is_some());
        }
    }
}
