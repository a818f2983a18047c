use colour_math_ng::angle::place_of_angle;
use colour_math_ng::angle::Angle;
use colour_math_ng::angle::AnglePlace;
use colour_math_ng::angle::DEGREE;
use colour_math_ng::angle::HALF_TURN;
use colour_math_ng::hue::Hue;
use colour_math_ng::primary::RGBHue;
use colour_math_ng::proportion::Prop;
use colour_math_ng::secondary::CMYHue;
use colour_math_ng::sextant::Sextant;
use colour_math_ng::sextant::SextantHue;
use std::ops::Neg;

#[test]
fn angles_wrap_round_the_circle() {
    assert_eq!(Angle::from((120, 0, 0)), Angle::green());
    assert_eq!(Angle::from((1, 2, 3)), Angle(DEGREE + 2 * 60_000 + 3000));
    assert_eq!(Angle::from((180, 0, 0)), Angle::cyan());
    assert_eq!(Angle::green() + Angle::green(), Angle::blue());
    assert_eq!(Angle::blue() - Angle::green(), Angle::green());
    assert_eq!(Angle::cyan() + Angle::cyan(), Angle::red());
    assert_eq!(Angle::red() - Angle::cyan(), Angle::cyan());
    assert_eq!(Angle::cyan().neg(), Angle::cyan());
    assert_eq!(-Angle::yellow(), Angle::magenta());
    assert_eq!(Angle::blue() + Angle::magenta(), Angle(HALF_TURN));
    assert_eq!(Angle(5).abs_diff(&Angle(-7)), 12);
    assert!(Angle(5).approx_eq(&Angle(7), Some(3)));
    assert!(!Angle(5).approx_eq(&Angle(8), Some(3)));
    assert!(Angle(5).approx_eq(&Angle(5), None));
    assert!(!Angle(5).approx_eq(&Angle(6), None));
}

#[test]
fn pure_hues_have_their_angles() {
    assert_eq!(RGBHue::Red.angle(), Angle::from((0, 0, 0)));
    assert_eq!(RGBHue::Green.angle(), Angle::from((120, 0, 0)));
    assert_eq!(RGBHue::Blue.angle(), Angle::from((120, 0, 0)).neg());
    assert_eq!(CMYHue::Yellow.angle(), Angle::from((60, 0, 0)));
    assert_eq!(CMYHue::Cyan.angle(), Angle::from((180, 0, 0)));
    assert_eq!(CMYHue::Magenta.angle(), Angle::from((60, 0, 0)).neg());
    let inside = Hue::Sextant(SextantHue(Sextant::RedYellow, Prop(5)));
    assert_eq!(inside.pure_angle(), None);
    assert_eq!(Hue::green().angle_for(Angle(1)), Angle::green());
}

#[test]
fn angles_in_wedges_are_placed_and_found() {
    let within = Angle::from((20, 30, 0));
    let expected = [
        (Sextant::RedYellow, Angle::from((20, 30, 0))),
        (Sextant::GreenYellow, Angle::from((99, 30, 0))),
        (Sextant::GreenCyan, Angle::from((140, 30, 0))),
        (Sextant::RedMagenta, Angle::from((20, 30, 0)).neg()),
        (Sextant::BlueMagenta, Angle::from((99, 30, 0)).neg()),
        (Sextant::BlueCyan, Angle::from((140, 30, 0)).neg()),
    ];
    for (sextant, angle) in expected.iter() {
        assert_eq!(sextant.angle_for(within), *angle);
        assert_eq!(SextantHue(*sextant, Prop(9)).angle_for(within), *angle);
        assert_eq!(place_of_angle(*angle), AnglePlace::Wedge(*sextant, within));
        assert_eq!(
            Hue::from_place(place_of_angle(*angle), Prop(9)),
            Some(Hue::Sextant(SextantHue(*sextant, Prop(9))))
        );
        assert_eq!(Hue::from_place(place_of_angle(*angle), Prop::zero()), None);
        assert_eq!(Hue::from_place(place_of_angle(*angle), Prop::one()), None);
    }
    assert_eq!(
        place_of_angle(Angle(HALF_TURN - 1)),
        AnglePlace::Wedge(Sextant::GreenCyan, Angle(HALF_TURN / 3 - 1))
    );
    assert_eq!(
        place_of_angle(Angle(1 - HALF_TURN)),
        AnglePlace::Wedge(Sextant::BlueCyan, Angle(HALF_TURN / 3 - 1))
    );
    assert_eq!(place_of_angle(Angle::cyan()), AnglePlace::Secondary(CMYHue::Cyan));
    assert_eq!(place_of_angle(Angle::red()), AnglePlace::Primary(RGBHue::Red));
}
