//! Angles round the hue circle, in whole thousandths of an arc second.
//!
//! Red lies at 0 degrees, green at 120, blue at -120; yellow, cyan and
//! magenta lie half way between them. An angle is kept above -180 degrees
//! and at or below 180.

use crate::hue::Hue;
use crate::primary::RGBHue;
use crate::proportion::distance;
use crate::secondary::CMYHue;
use crate::sextant::Sextant;
use crate::sextant::SextantHue;
use core::ops::Neg;
use vstd::prelude::*;

verus! {

/// The number of units in a degree.
pub const DEGREE: i64 = 3_600_000;

/// The number of units in a sixth of a turn, the width of a wedge.
pub const SIXTH_TURN: i64 = 216_000_000;

/// The number of units in half a turn.
pub const HALF_TURN: i64 = 648_000_000;

/// The number of units in a full turn.
pub const FULL_TURN: i64 = 1_296_000_000;

/// An angle round the hue circle.
#[derive(Debug, PartialEq, Eq, Clone, Copy, Structural, PartialOrd, Ord, Hash)]
pub struct Angle(pub i64);

/// The angle above -180 degrees and at or below 180 that differs from
/// `units` by a whole number of turns, for `units` within a turn of that
/// range.
pub open spec fn wrapped(units: int) -> int {
    if units > HALF_TURN {
        units - FULL_TURN
    } else if units <= -HALF_TURN {
        units + FULL_TURN
    } else {
        units
    }
}

impl Angle {
    /// The angle in units, as a mathematical integer.
    pub open spec fn units(self) -> int {
        self.0 as int
    }

    /// Whether the angle lies above -180 degrees and at or below 180.
    pub open spec fn valid(self) -> bool {
        -HALF_TURN < self.units() <= HALF_TURN
    }

    /// Whether the angle lies strictly inside a wedge, measured from the
    /// wedge's primary: above 0 degrees and below 60.
    pub open spec fn inside_wedge(self) -> bool {
        0 < self.units() < SIXTH_TURN
    }

    /// The angle of red: 0 degrees.
    pub fn red() -> (angle: Angle)
        ensures
            angle.units() == 0,
    {
        Angle(0)
    }

    /// The angle of yellow: 60 degrees.
    pub fn yellow() -> (angle: Angle)
        ensures
            angle.units() == SIXTH_TURN,
    {
        Angle(SIXTH_TURN)
    }

    /// The angle of green: 120 degrees.
    pub fn green() -> (angle: Angle)
        ensures
            angle.units() == 2 * SIXTH_TURN,
    {
        Angle(2 * SIXTH_TURN)
    }

    /// The angle of cyan: 180 degrees.
    pub fn cyan() -> (angle: Angle)
        ensures
            angle.units() == HALF_TURN,
    {
        Angle(HALF_TURN)
    }

    /// The angle of blue: -120 degrees.
    pub fn blue() -> (angle: Angle)
        ensures
            angle.units() == -2 * SIXTH_TURN,
    {
        Angle(-2 * SIXTH_TURN)
    }

    /// The angle of magenta: -60 degrees.
    pub fn magenta() -> (angle: Angle)
        ensures
            angle.units() == -SIXTH_TURN,
    {
        Angle(-SIXTH_TURN)
    }

    /// The angles of the primaries: red, green, blue.
    pub fn primaries() -> (angles: [Angle; 3])
        ensures
            angles@ =~= seq![Angle(0), Angle(432_000_000), Angle(-432_000_000i64)],
    {
        [Angle::red(), Angle::green(), Angle::blue()]
    }

    /// The angles of the secondaries: cyan, magenta, yellow.
    pub fn secondaries() -> (angles: [Angle; 3])
        ensures
            angles@ =~= seq![Angle(648_000_000), Angle(-216_000_000i64), Angle(216_000_000)],
    {
        [Angle::cyan(), Angle::magenta(), Angle::yellow()]
    }

    /// The angle of so many degrees, minutes and seconds, up to half a
    /// turn.
    pub fn from(dms: (u8, u8, u8)) -> (angle: Angle)
        requires
            dms.1 < 60,
            dms.2 < 60,
            dms.0 < 180 || (dms.0 == 180 && dms.1 == 0 && dms.2 == 0),
        ensures
            angle.units() == dms.0 * DEGREE + dms.1 * 60_000 + dms.2 * 1000,
            angle.valid(),
    {
        Angle(dms.0 as i64 * DEGREE + dms.1 as i64 * 60_000 + dms.2 as i64 * 1000)
    }

    /// The distance between two angles, in units, by the subtraction of
    /// their values: not the shorter way round the circle.
    pub fn abs_diff(&self, other: &Angle) -> (diff: u64)
        ensures
            diff == distance(self.units(), other.units()),
    {
        if self.0 <= other.0 {
            (other.0 as i128 - self.0 as i128) as u64
        } else {
            (self.0 as i128 - other.0 as i128) as u64
        }
    }

    /// Whether two angles differ by less than the given number of
    /// units, or than a thousandth of an arc second where none is given.
    pub fn approx_eq(&self, other: &Angle, acceptable_rounding_error: Option<u64>) -> (close: bool)
        ensures
            close == (distance(self.units(), other.units()) < match acceptable_rounding_error {
                Some(units) => units as int,
                None => 1,
            }),
    {
        let limit: u64 = match acceptable_rounding_error {
            Some(units) => units,
            None => 1,
        };
        self.abs_diff(other) < limit
    }
}

impl vstd::std_specs::ops::NegSpecImpl for Angle {
    open spec fn obeys_neg_spec() -> bool {
        true
    }

    open spec fn neg_req(self) -> bool {
        self.valid()
    }

    open spec fn neg_spec(self) -> Angle {
        Angle(wrapped(-self.units()) as i64)
    }
}

impl core::ops::Neg for Angle {
    type Output = Angle;

    /// The angle mirrored in the axis through red and cyan.
    fn neg(self) -> (angle: Angle) {
        if self.0 == HALF_TURN {
            self
        } else {
            Angle(-self.0)
        }
    }
}

impl vstd::std_specs::ops::AddSpecImpl for Angle {
    open spec fn obeys_add_spec() -> bool {
        true
    }

    open spec fn add_req(self, rhs: Angle) -> bool {
        self.valid() && rhs.valid()
    }

    open spec fn add_spec(self, rhs: Angle) -> Angle {
        Angle(wrapped(self.units() + rhs.units()) as i64)
    }
}

impl core::ops::Add for Angle {
    type Output = Angle;

    /// The sum of two angles, brought back into range.
    fn add(self, rhs: Angle) -> (angle: Angle) {
        let sum: i64 = self.0 + rhs.0;
        if sum > HALF_TURN {
            Angle(sum - FULL_TURN)
        } else if sum <= -HALF_TURN {
            Angle(sum + FULL_TURN)
        } else {
            Angle(sum)
        }
    }
}

impl vstd::std_specs::ops::SubSpecImpl for Angle {
    open spec fn obeys_sub_spec() -> bool {
        true
    }

    open spec fn sub_req(self, rhs: Angle) -> bool {
        self.valid() && rhs.valid()
    }

    open spec fn sub_spec(self, rhs: Angle) -> Angle {
        Angle(wrapped(self.units() - rhs.units()) as i64)
    }
}

impl core::ops::Sub for Angle {
    type Output = Angle;

    /// The difference of two angles, brought back into range.
    fn sub(self, rhs: Angle) -> (angle: Angle) {
        let diff: i64 = self.0 - rhs.0;
        if diff > HALF_TURN {
            Angle(diff - FULL_TURN)
        } else if diff <= -HALF_TURN {
            Angle(diff + FULL_TURN)
        } else {
            Angle(diff)
        }
    }
}

/// Where an angle lies on the hue circle: at a primary, at a secondary, or
/// strictly inside a wedge, so far from the wedge's primary.
#[derive(Debug, PartialEq, Eq, Clone, Copy, Structural, Hash)]
pub enum AnglePlace {
    Primary(RGBHue),
    Secondary(CMYHue),
    Wedge(Sextant, Angle),
}

impl RGBHue {
    /// The angle of the hue, in units.
    pub open spec fn angle_units(self) -> int {
        match self {
            RGBHue::Red => 0,
            RGBHue::Green => 2 * SIXTH_TURN,
            RGBHue::Blue => -2 * SIXTH_TURN,
        }
    }

    /// The angle of the hue.
    pub fn angle(&self) -> (angle: Angle)
        ensures
            angle.units() == self.angle_units(),
    {
        match self {
            RGBHue::Red => Angle::red(),
            RGBHue::Green => Angle::green(),
            RGBHue::Blue => Angle::blue(),
        }
    }
}

impl CMYHue {
    /// The angle of the hue, in units.
    pub open spec fn angle_units(self) -> int {
        match self {
            CMYHue::Cyan => HALF_TURN as int,
            CMYHue::Magenta => -SIXTH_TURN,
            CMYHue::Yellow => SIXTH_TURN as int,
        }
    }

    /// The angle of the hue.
    pub fn angle(&self) -> (angle: Angle)
        ensures
            angle.units() == self.angle_units(),
    {
        match self {
            CMYHue::Cyan => Angle::cyan(),
            CMYHue::Magenta => Angle::magenta(),
            CMYHue::Yellow => Angle::yellow(),
        }
    }
}

impl Sextant {
    /// The angle, in units, of the hue that lies `within` units from the
    /// wedge's primary: the wedges on the far side of their primary are
    /// mirrored.
    pub open spec fn angle_units(self, within: int) -> int {
        match self {
            Sextant::RedMagenta => -within,
            Sextant::RedYellow => within,
            Sextant::GreenYellow => 2 * SIXTH_TURN - within,
            Sextant::GreenCyan => 2 * SIXTH_TURN + within,
            Sextant::BlueCyan => -2 * SIXTH_TURN - within,
            Sextant::BlueMagenta => -2 * SIXTH_TURN + within,
        }
    }

    /// The angle of the hue that lies `within` from the wedge's primary.
    pub fn angle_for(&self, within: Angle) -> (angle: Angle)
        requires
            within.inside_wedge(),
        ensures
            angle.units() == self.angle_units(within.units()),
            angle.valid(),
    {
        match self {
            Sextant::RedMagenta => within.neg(),
            Sextant::RedYellow => within,
            Sextant::GreenYellow => Angle::green() - within,
            Sextant::GreenCyan => Angle::green() + within,
            Sextant::BlueCyan => Angle::blue() - within,
            Sextant::BlueMagenta => Angle::blue() + within,
        }
    }
}

impl SextantHue {
    /// The angle of the hue, given how far it lies from its wedge's
    /// primary.
    pub fn angle_for(&self, within: Angle) -> (angle: Angle)
        requires
            within.inside_wedge(),
        ensures
            angle.units() == self.0.angle_units(within.units()),
            angle.valid(),
    {
        self.0.angle_for(within)
    }
}

impl Hue {
    /// The angle of the hue, in units, where a hue inside a wedge lies
    /// `within` units from the wedge's primary.
    pub open spec fn angle_units(self, within: int) -> int {
        match self {
            Hue::Primary(rgb_hue) => rgb_hue.angle_units(),
            Hue::Secondary(cmy_hue) => cmy_hue.angle_units(),
            Hue::Sextant(sextant_hue) => sextant_hue.0.angle_units(within),
        }
    }

    /// The angle of a primary or a secondary; none for a hue inside a
    /// wedge, whose angle depends on how far it lies from the wedge's
    /// primary.
    pub fn pure_angle(&self) -> (angle: Option<Angle>)
        ensures
            angle == match self {
                Hue::Primary(rgb_hue) => Some(Angle(rgb_hue.angle_units() as i64)),
                Hue::Secondary(cmy_hue) => Some(Angle(cmy_hue.angle_units() as i64)),
                Hue::Sextant(_) => None::<Angle>,
            },
    {
        match self {
            Hue::Primary(rgb_hue) => Some(rgb_hue.angle()),
            Hue::Secondary(cmy_hue) => Some(cmy_hue.angle()),
            Hue::Sextant(_) => None,
        }
    }

    /// The angle of the hue, given how far a hue inside a wedge lies from
    /// the wedge's primary.
    pub fn angle_for(&self, within: Angle) -> (angle: Angle)
        requires
            within.inside_wedge(),
        ensures
            angle.units() == self.angle_units(within.units()),
            angle.valid(),
    {
        match self {
            Hue::Primary(rgb_hue) => rgb_hue.angle(),
            Hue::Secondary(cmy_hue) => cmy_hue.angle(),
            Hue::Sextant(sextant_hue) => sextant_hue.angle_for(within),
        }
    }
}

/// Where an angle lies on the hue circle.
pub open spec fn place_of(units: int) -> AnglePlace {
    if units == 0 {
        AnglePlace::Primary(RGBHue::Red)
    } else if units == 2 * SIXTH_TURN {
        AnglePlace::Primary(RGBHue::Green)
    } else if units == -2 * SIXTH_TURN {
        AnglePlace::Primary(RGBHue::Blue)
    } else if units == HALF_TURN {
        AnglePlace::Secondary(CMYHue::Cyan)
    } else if units == -SIXTH_TURN {
        AnglePlace::Secondary(CMYHue::Magenta)
    } else if units == SIXTH_TURN {
        AnglePlace::Secondary(CMYHue::Yellow)
    } else if units > 2 * SIXTH_TURN {
        AnglePlace::Wedge(Sextant::GreenCyan, Angle((units - 2 * SIXTH_TURN) as i64))
    } else if units > SIXTH_TURN {
        AnglePlace::Wedge(Sextant::GreenYellow, Angle((2 * SIXTH_TURN - units) as i64))
    } else if units > 0 {
        AnglePlace::Wedge(Sextant::RedYellow, Angle(units as i64))
    } else if units > -SIXTH_TURN {
        AnglePlace::Wedge(Sextant::RedMagenta, Angle((-units) as i64))
    } else if units > -2 * SIXTH_TURN {
        AnglePlace::Wedge(Sextant::BlueMagenta, Angle((2 * SIXTH_TURN + units) as i64))
    } else {
        AnglePlace::Wedge(Sextant::BlueCyan, Angle((-units - 2 * SIXTH_TURN) as i64))
    }
}

/// Where an angle lies on the hue circle: at which primary or secondary,
/// or in which wedge and how far from the wedge's primary.
pub fn place_of_angle(angle: Angle) -> (place: AnglePlace)
    requires
        angle.valid(),
    ensures
        place == place_of(angle.units()),
        place matches AnglePlace::Wedge(_, within) ==> within.inside_wedge(),
{
    if angle.0 == 0 {
        AnglePlace::Primary(RGBHue::Red)
    } else if angle.0 == 2 * SIXTH_TURN {
        AnglePlace::Primary(RGBHue::Green)
    } else if angle.0 == -2 * SIXTH_TURN {
        AnglePlace::Primary(RGBHue::Blue)
    } else if angle.0 == HALF_TURN {
        AnglePlace::Secondary(CMYHue::Cyan)
    } else if angle.0 == -SIXTH_TURN {
        AnglePlace::Secondary(CMYHue::Magenta)
    } else if angle.0 == SIXTH_TURN {
        AnglePlace::Secondary(CMYHue::Yellow)
    } else if angle.0 >= 0 {
        if angle.0 < SIXTH_TURN {
            AnglePlace::Wedge(Sextant::RedYellow, angle)
        } else if angle.0 < 2 * SIXTH_TURN {
            AnglePlace::Wedge(Sextant::GreenYellow, Angle::green() - angle)
        } else {
            AnglePlace::Wedge(Sextant::GreenCyan, angle - Angle::green())
        }
    } else if angle.0 > -SIXTH_TURN {
        AnglePlace::Wedge(Sextant::RedMagenta, angle.neg())
    } else if angle.0 > -2 * SIXTH_TURN {
        AnglePlace::Wedge(Sextant::BlueMagenta, Angle::green() + angle)
    } else {
        AnglePlace::Wedge(Sextant::BlueCyan, angle.neg() - Angle::green())
    }
}

impl Hue {
    /// The hue at a place on the hue circle, where `second` is the place
    /// within the wedge of a hue that lies inside one. There is none where
    /// `second` is zero or one for such a hue.
    pub fn from_place(place: AnglePlace, second: crate::proportion::Prop) -> (hue: Option<Hue>)
        ensures
            hue == match place {
                AnglePlace::Primary(rgb_hue) => Some(Hue::Primary(rgb_hue)),
                AnglePlace::Secondary(cmy_hue) => Some(Hue::Secondary(cmy_hue)),
                AnglePlace::Wedge(sextant, _) => if 0 < second.num() < crate::proportion::unit() {
                    Some(Hue::Sextant(SextantHue(sextant, second)))
                } else {
                    None::<Hue>
                },
            },
    {
        match place {
            AnglePlace::Primary(rgb_hue) => Some(Hue::Primary(rgb_hue)),
            AnglePlace::Secondary(cmy_hue) => Some(Hue::Secondary(cmy_hue)),
            AnglePlace::Wedge(sextant, _) => match SextantHue::new(sextant, second) {
                Some(sextant_hue) => Some(Hue::Sextant(sextant_hue)),
                None => None,
            },
        }
    }
}

/// The angle of a primary or a secondary is found again at that hue.
pub proof fn lemma_pure_angle_found(hue: Hue)
    requires
        hue is Primary || hue is Secondary,
    ensures
        place_of(hue.angle_units(0)) == match hue {
            Hue::Primary(rgb_hue) => AnglePlace::Primary(rgb_hue),
            Hue::Secondary(cmy_hue) => AnglePlace::Secondary(cmy_hue),
            Hue::Sextant(sextant_hue) => AnglePlace::Wedge(sextant_hue.0, Angle(0)),
        },
{
}

/// An angle placed in a wedge is found again in that wedge, as far from
/// its primary.
pub proof fn lemma_wedge_angle_found(sextant: Sextant, within: Angle)
    requires
        within.inside_wedge(),
    ensures
        place_of(sextant.angle_units(within.units())) == AnglePlace::Wedge(sextant, within),
{
}

} // verus!
