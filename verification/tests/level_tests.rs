use colour_math_ng::fraction::UFDFraction;
use colour_math_ng::proportion::Prop;
use colour_math_ng::proportion::Sum;
use colour_math_ng::proportion::UFDRNumber;
use colour_math_ng::rgb::LightLevel;
use colour_math_ng::rgb::RGB;
use colour_math_ng::validation::ProportionValidation;
use colour_math_ng::validation::SumValidation;

#[test]
fn every_eight_bit_level_comes_back() {
    let mut last = None;
    for level in 0..=u8::MAX {
        let prop = Prop::from(level);
        assert_eq!(u8::from(prop), level);
        assert_eq!(level.to_prop(), prop);
        assert_eq!(u8::from_prop(prop), level);
        assert!(last < Some(prop));
        last = Some(prop);
    }
    assert_eq!(Prop::from(0_u8), Prop::zero());
    assert_eq!(Prop::from(u8::MAX), Prop::one());
    assert_eq!(Prop::from(128_u8), Prop(9259542123273814144));
    assert_eq!(u8::from(Prop(0x8000_0000_0000_0000)), 127);
}

#[test]
fn every_sixteen_bit_level_comes_back() {
    let mut last = None;
    for level in 0..=u16::MAX {
        let prop = Prop::from(level);
        assert_eq!(u16::from(prop), level);
        assert!(last < Some(prop));
        last = Some(prop);
    }
    assert_eq!(Prop::from(u16::MAX), Prop::one());
    assert_eq!(Prop::from(0x1234_u16), Prop(1311693406324658740));
}

#[test]
fn wide_levels_come_back() {
    for level in [0, 1, 0x1234_5678, u32::MAX - 1, u32::MAX] {
        assert_eq!(u32::from(Prop::from(level)), level);
    }
    assert_eq!(Prop::from(u32::MAX), Prop::one());
    assert_eq!(Prop::from(1_u32), Prop(0x1_0000_0001));
    assert_eq!(Prop::from(77_u64), Prop(77));
    assert_eq!(u64::from(Prop(77)), 77);
}

#[test]
fn colours_change_representation() {
    let rgb = RGB::<u8>::new(255, 128, 0);
    let wide: RGB<u64> = rgb.convert();
    assert_eq!(wide, RGB::new(u64::MAX, 9259542123273814144, 0));
    assert_eq!(wide.convert::<u8>(), rgb);
    assert_eq!(wide.convert::<u16>(), RGB::new(0xFFFF, 0x8080, 0));
    assert_eq!(rgb.sum(), UFDRNumber(u64::MAX as u128 + 9259542123273814144));
    assert_eq!(
        rgb.to_props(),
        [Prop::one(), Prop(9259542123273814144), Prop::zero()]
    );
    assert_eq!(RGB::<u8>::from([Prop::one(), Prop::zero(), Prop::one()]), RGB::magenta());
    assert_eq!(RGB::<u8>::greys(), [RGB::new(0, 0, 0), RGB::new(255, 255, 255)]);
    assert_eq!(
        RGB::<u16>::yellow() * Prop(0x8000_0000_0000_0000),
        RGB::new(0x7FFF, 0x7FFF, 0)
    );
}

#[test]
fn proportions_multiply_and_divide_rounding_down() {
    let half = Prop(0x8000_0000_0000_0000);
    assert_eq!(half * half, Prop(0x4000_0000_0000_0000));
    assert_eq!(Prop::one() * half, half);
    assert_eq!(Prop::zero() * half, Prop::zero());
    assert_eq!(Prop(0x4000_0000_0000_0000) / half, Prop(0x7FFF_FFFF_FFFF_FFFF));
    assert_eq!(half / half, Prop::one());
    assert_eq!(Prop::zero() / half, Prop::zero());
    assert_eq!(half - Prop(1), Prop(0x7FFF_FFFF_FFFF_FFFF));
    assert_eq!(half + half, UFDRNumber(0x1_0000_0000_0000_0000));
    assert_eq!(half * 3, UFDRNumber(0x1_8000_0000_0000_0000));
    assert_eq!(half.abs_diff(&Prop::one()), Prop(0x7FFF_FFFF_FFFF_FFFF));
    assert!(half.approx_eq(&Prop(half.0 - 2), None));
    assert!(!half.approx_eq(&Prop(half.0 - 3), None));
}

#[test]
fn sums_multiply_and_divide_rounding_down() {
    let half = Prop(0x8000_0000_0000_0000);
    let two_and_a_half = UFDRNumber(46116860184273879040);
    assert_eq!(two_and_a_half * half, UFDRNumber(23058430092136939521));
    assert_eq!(UFDRNumber::three() * Prop::one(), UFDRNumber::three());
    assert_eq!(UFDRNumber(u128::MAX) * Prop::one(), UFDRNumber(u128::MAX));
    assert_eq!(UFDRNumber::one() * 3, UFDRNumber::three());
    assert_eq!(
        UFDRNumber::one() / UFDRNumber::two(),
        UFDRNumber(0x7FFF_FFFF_FFFF_FFFF)
    );
    assert_eq!(UFDRNumber::three() / UFDRNumber::one(), UFDRNumber::three());
    assert_eq!(UFDRNumber::three() / UFDRNumber::three(), UFDRNumber::one());
    assert_eq!(UFDRNumber(0) / UFDRNumber(1), UFDRNumber(0));
    assert_eq!(UFDRNumber(3) / UFDRNumber(1), UFDRNumber::three());
    assert_eq!(UFDRNumber(11) / 3, UFDRNumber(3));
    assert_eq!(UFDRNumber(11) % 3, 2);
    assert_eq!(UFDRNumber::two() - half, UFDRNumber(0x1_7FFF_FFFF_FFFF_FFFE));
    assert_eq!(UFDRNumber::two() + half, UFDRNumber(0x2_7FFF_FFFF_FFFF_FFFE));
    assert_eq!(UFDRNumber::from(half), UFDRNumber(0x8000_0000_0000_0000));
    assert_eq!(UFDRNumber::from(half).to_prop(), half);
    assert!(UFDRNumber::three().is_valid());
    assert!(!UFDRNumber(u64::MAX as u128 * 3 + 1).is_valid());
    assert!(UFDRNumber::one().is_proportion());
    assert!(!UFDRNumber(u64::MAX as u128 + 1).is_proportion());
    let sum: Sum = UFDRNumber::one() + UFDRNumber::two();
    assert_eq!(sum, Sum::three());
}

#[test]
fn fractions_over_thirty_two_bits() {
    let one = UFDFraction::one();
    assert_eq!(one, UFDFraction(0xFFFF_FFFF));
    assert_eq!(one + one, UFDFraction::two());
    assert_eq!(UFDFraction::three() - one, UFDFraction::two());
    let half = UFDFraction(0xFFFF_FFFF / 2);
    assert_eq!(half * half, UFDFraction(1073741823));
    assert_eq!(UFDFraction(0xFFFF_FFFF / 4) / half, UFDFraction(2147483646));
    assert_eq!(UFDFraction::from(255_u8), one);
    assert_eq!(UFDFraction::from(0xFFFF_u16), one);
    assert_eq!(UFDFraction::from(128_u8), UFDFraction(128 * 0xFFFF_FFFF / 255));
    for level in 0..=u8::MAX {
        assert_eq!(UFDFraction::from(level).to_u8(), level);
    }
    for level in [0, 1, 0x1234, u16::MAX] {
        assert_eq!(UFDFraction::from(level).to_u16(), level);
    }
    assert!(one.is_vp() && one.is_vs());
    assert!(!UFDFraction::two().is_vp() && UFDFraction::three().is_vs());
    assert!(!UFDFraction(3 * 0xFFFF_FFFF + 1).is_vs());
    assert_eq!(one.validated_p(), one);
    assert_eq!(UFDFraction::three().validated_s(), UFDFraction::three());
}

#[test]
fn sums_and_proportions_validate() {
    assert!(UFDRNumber::one().is_vp());
    assert!(!UFDRNumber::two().is_vp());
    assert!(UFDRNumber::three().is_vs());
    assert!(!UFDRNumber(u128::MAX).is_vs());
    assert!(Prop::one().is_vp());
    assert!(colour_math_ng::chroma::Chroma::one().is_vp());
}
