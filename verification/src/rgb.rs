//! The RGB container: three light levels of one representation.

use crate::levels::lemma_level_ends;
use crate::levels::lemma_level_round_trip;
use crate::levels::level_of_units;
use crate::levels::units_of_level;
use crate::proportion::distance;
use crate::proportion::scaled_product;
use crate::proportion::tolerance;
use crate::proportion::Prop;
use crate::proportion::UFDRNumber;
use vstd::prelude::*;

verus! {

/// A representation of light levels: a type whose values stand for
/// proportions, none of them for two.
pub trait LightLevel: Copy + Sized {
    /// The proportion that a level stands for.
    spec fn as_prop(self) -> Prop;

    /// The level that stands for a proportion, rounded down where the
    /// representation is coarser.
    spec fn of_prop(p: Prop) -> Self;

    /// The proportion that a level stands for.
    fn to_prop(self) -> (p: Prop)
        ensures
            p == self.as_prop(),
    ;

    /// The level that stands for a proportion.
    fn from_prop(p: Prop) -> (level: Self)
        ensures
            level == Self::of_prop(p),
    ;

    /// A level comes back unchanged from its proportion.
    proof fn lemma_level_kept(self)
        ensures
            Self::of_prop(self.as_prop()) == self,
    ;

    /// Zero and one are held exactly.
    proof fn lemma_ends_exact()
        ensures
            Self::of_prop(Prop(0)).as_prop() == Prop(0),
            Self::of_prop(Prop(0xFFFF_FFFF_FFFF_FFFF)).as_prop() == Prop(0xFFFF_FFFF_FFFF_FFFF),
    ;
}

impl LightLevel for u8 {
    open spec fn as_prop(self) -> Prop {
        Prop(units_of_level(self as int, 255) as u64)
    }

    open spec fn of_prop(p: Prop) -> u8 {
        level_of_units(p.num(), 255) as u8
    }

    fn to_prop(self) -> (p: Prop) {
        Prop::from(self)
    }

    fn from_prop(p: Prop) -> (level: u8) {
        u8::from(p)
    }

    proof fn lemma_level_kept(self) {
        lemma_level_round_trip(self as int, 255);
    }

    proof fn lemma_ends_exact() {
        lemma_level_ends(255);
    }
}

impl LightLevel for u16 {
    open spec fn as_prop(self) -> Prop {
        Prop(units_of_level(self as int, 65535) as u64)
    }

    open spec fn of_prop(p: Prop) -> u16 {
        level_of_units(p.num(), 65535) as u16
    }

    fn to_prop(self) -> (p: Prop) {
        Prop::from(self)
    }

    fn from_prop(p: Prop) -> (level: u16) {
        u16::from(p)
    }

    proof fn lemma_level_kept(self) {
        lemma_level_round_trip(self as int, 65535);
    }

    proof fn lemma_ends_exact() {
        lemma_level_ends(65535);
    }
}

impl LightLevel for u32 {
    open spec fn as_prop(self) -> Prop {
        Prop(units_of_level(self as int, 0xFFFF_FFFF) as u64)
    }

    open spec fn of_prop(p: Prop) -> u32 {
        level_of_units(p.num(), 0xFFFF_FFFF) as u32
    }

    fn to_prop(self) -> (p: Prop) {
        Prop::from(self)
    }

    fn from_prop(p: Prop) -> (level: u32) {
        u32::from(p)
    }

    proof fn lemma_level_kept(self) {
        lemma_level_round_trip(self as int, 0xFFFF_FFFF);
    }

    proof fn lemma_ends_exact() {
        lemma_level_ends(0xFFFF_FFFF);
    }
}

impl LightLevel for u64 {
    open spec fn as_prop(self) -> Prop {
        Prop(self)
    }

    open spec fn of_prop(p: Prop) -> u64 {
        p.0
    }

    fn to_prop(self) -> (p: Prop) {
        Prop(self)
    }

    fn from_prop(p: Prop) -> (level: u64) {
        p.0
    }

    proof fn lemma_level_kept(self) {
    }

    proof fn lemma_ends_exact() {
    }
}

/// A colour as three light levels, in the order red, green, blue.
#[derive(Debug, Clone, Copy, Hash, PartialEq, Eq)]
pub struct RGB<T: LightLevel> {
    pub red: T,
    pub green: T,
    pub blue: T,
}

/// The sum of three proportions, in units.
pub open spec fn sum_of(levels: (Prop, Prop, Prop)) -> int {
    levels.0.num() + levels.1.num() + levels.2.num()
}

/// The largest of three proportions, in units.
pub open spec fn highest_of(levels: (Prop, Prop, Prop)) -> int {
    if levels.0.num() >= levels.1.num() && levels.0.num() >= levels.2.num() {
        levels.0.num()
    } else if levels.1.num() >= levels.2.num() {
        levels.1.num()
    } else {
        levels.2.num()
    }
}

/// The smallest of three proportions, in units.
pub open spec fn lowest_of(levels: (Prop, Prop, Prop)) -> int {
    if levels.0.num() <= levels.1.num() && levels.0.num() <= levels.2.num() {
        levels.0.num()
    } else if levels.1.num() <= levels.2.num() {
        levels.1.num()
    } else {
        levels.2.num()
    }
}

/// The spread of three proportions, in units: the largest less the
/// smallest, which is the magnitude of the colour's chroma.
pub open spec fn spread_of(levels: (Prop, Prop, Prop)) -> int {
    highest_of(levels) - lowest_of(levels)
}

impl<T: LightLevel> RGB<T> {
    /// The three components as proportions.
    pub open spec fn props(self) -> (Prop, Prop, Prop) {
        (self.red.as_prop(), self.green.as_prop(), self.blue.as_prop())
    }

    /// The colour whose components stand for three proportions.
    pub open spec fn of_props(levels: (Prop, Prop, Prop)) -> RGB<T> {
        RGB {
            red: T::of_prop(levels.0),
            green: T::of_prop(levels.1),
            blue: T::of_prop(levels.2),
        }
    }

    /// The colour, if any, whose components stand for three proportions.
    pub open spec fn of_optional_props(levels: Option<(Prop, Prop, Prop)>) -> Option<RGB<T>> {
        match levels {
            Some(found) => Some(Self::of_props(found)),
            None => None,
        }
    }

    /// Whether the three components are equal.
    pub open spec fn grey(self) -> bool {
        self.red.as_prop() == self.green.as_prop() && self.green.as_prop() == self.blue.as_prop()
    }

    /// A colour from its three levels.
    pub fn new(red: T, green: T, blue: T) -> (rgb: RGB<T>)
        ensures
            rgb == (RGB { red, green, blue }),
    {
        RGB { red, green, blue }
    }

    /// The colour whose components stand for three proportions.
    pub fn from_props(red: Prop, green: Prop, blue: Prop) -> (rgb: RGB<T>)
        ensures
            rgb == Self::of_props((red, green, blue)),
    {
        RGB { red: T::from_prop(red), green: T::from_prop(green), blue: T::from_prop(blue) }
    }

    /// The three components as proportions.
    pub fn to_props(&self) -> (levels: [Prop; 3])
        ensures
            levels@ =~= seq![self.red.as_prop(), self.green.as_prop(), self.blue.as_prop()],
    {
        [self.red.to_prop(), self.green.to_prop(), self.blue.to_prop()]
    }

    /// The same colour in another representation of light levels.
    pub fn convert<U: LightLevel>(&self) -> (rgb: RGB<U>)
        ensures
            rgb == RGB::<U>::of_props(self.props()),
    {
        RGB::<U>::from_props(self.red.to_prop(), self.green.to_prop(), self.blue.to_prop())
    }

    /// Black: no light at all.
    pub fn black() -> (rgb: RGB<T>)
        ensures
            rgb == Self::of_props((Prop(0), Prop(0), Prop(0))),
    {
        Self::from_props(Prop::zero(), Prop::zero(), Prop::zero())
    }

    /// White: every component at one.
    pub fn white() -> (rgb: RGB<T>)
        ensures
            rgb == Self::of_props(
                (
                    Prop(0xFFFF_FFFF_FFFF_FFFF),
                    Prop(0xFFFF_FFFF_FFFF_FFFF),
                    Prop(0xFFFF_FFFF_FFFF_FFFF),
                ),
            ),
    {
        Self::from_props(Prop::one(), Prop::one(), Prop::one())
    }

    /// Red at full chroma.
    pub fn red() -> (rgb: RGB<T>)
        ensures
            rgb == Self::of_props((Prop(0xFFFF_FFFF_FFFF_FFFF), Prop(0), Prop(0))),
    {
        Self::from_props(Prop::one(), Prop::zero(), Prop::zero())
    }

    /// Green at full chroma.
    pub fn green() -> (rgb: RGB<T>)
        ensures
            rgb == Self::of_props((Prop(0), Prop(0xFFFF_FFFF_FFFF_FFFF), Prop(0))),
    {
        Self::from_props(Prop::zero(), Prop::one(), Prop::zero())
    }

    /// Blue at full chroma.
    pub fn blue() -> (rgb: RGB<T>)
        ensures
            rgb == Self::of_props((Prop(0), Prop(0), Prop(0xFFFF_FFFF_FFFF_FFFF))),
    {
        Self::from_props(Prop::zero(), Prop::zero(), Prop::one())
    }

    /// Cyan at full chroma.
    pub fn cyan() -> (rgb: RGB<T>)
        ensures
            rgb == Self::of_props((Prop(0), Prop(0xFFFF_FFFF_FFFF_FFFF), Prop(0xFFFF_FFFF_FFFF_FFFF))),
    {
        Self::from_props(Prop::zero(), Prop::one(), Prop::one())
    }

    /// Magenta at full chroma.
    pub fn magenta() -> (rgb: RGB<T>)
        ensures
            rgb == Self::of_props((Prop(0xFFFF_FFFF_FFFF_FFFF), Prop(0), Prop(0xFFFF_FFFF_FFFF_FFFF))),
    {
        Self::from_props(Prop::one(), Prop::zero(), Prop::one())
    }

    /// Yellow at full chroma.
    pub fn yellow() -> (rgb: RGB<T>)
        ensures
            rgb == Self::of_props((Prop(0xFFFF_FFFF_FFFF_FFFF), Prop(0xFFFF_FFFF_FFFF_FFFF), Prop(0))),
    {
        Self::from_props(Prop::one(), Prop::one(), Prop::zero())
    }

    /// The primaries: red, green, blue.
    pub fn primaries() -> (colours: [RGB<T>; 3])
        ensures
            colours@ =~= seq![
                Self::of_props((Prop(0xFFFF_FFFF_FFFF_FFFF), Prop(0), Prop(0))),
                Self::of_props((Prop(0), Prop(0xFFFF_FFFF_FFFF_FFFF), Prop(0))),
                Self::of_props((Prop(0), Prop(0), Prop(0xFFFF_FFFF_FFFF_FFFF))),
            ],
    {
        [Self::red(), Self::green(), Self::blue()]
    }

    /// The secondaries: cyan, magenta, yellow.
    pub fn secondaries() -> (colours: [RGB<T>; 3])
        ensures
            colours@ =~= seq![
                Self::of_props((Prop(0), Prop(0xFFFF_FFFF_FFFF_FFFF), Prop(0xFFFF_FFFF_FFFF_FFFF))),
                Self::of_props((Prop(0xFFFF_FFFF_FFFF_FFFF), Prop(0), Prop(0xFFFF_FFFF_FFFF_FFFF))),
                Self::of_props((Prop(0xFFFF_FFFF_FFFF_FFFF), Prop(0xFFFF_FFFF_FFFF_FFFF), Prop(0))),
            ],
    {
        [Self::cyan(), Self::magenta(), Self::yellow()]
    }

    /// The greys at the ends of the scale: black, white.
    pub fn greys() -> (colours: [RGB<T>; 2])
        ensures
            colours@ =~= seq![
                Self::of_props((Prop(0), Prop(0), Prop(0))),
                Self::of_props(
                    (
                        Prop(0xFFFF_FFFF_FFFF_FFFF),
                        Prop(0xFFFF_FFFF_FFFF_FFFF),
                        Prop(0xFFFF_FFFF_FFFF_FFFF),
                    ),
                ),
            ],
    {
        [Self::black(), Self::white()]
    }

    /// The sum of the three components.
    pub fn sum(&self) -> (sum: UFDRNumber)
        ensures
            sum.num() == sum_of(self.props()),
            sum.valid(),
    {
        self.red.to_prop() + self.green.to_prop() + self.blue.to_prop()
    }

    /// The value: a third of the sum, rounded down to a unit.
    pub fn value(&self) -> (value: Prop)
        ensures
            value.num() == sum_of(self.props()) / 3,
    {
        (self.sum() / 3u8).to_prop()
    }

    /// Whether the three components are equal, so that the colour has no
    /// hue.
    pub fn is_grey(&self) -> (grey: bool)
        ensures
            grey == self.grey(),
    {
        let red = self.red.to_prop();
        let green = self.green.to_prop();
        let blue = self.blue.to_prop();
        red.0 == green.0 && green.0 == blue.0
    }

    /// Whether each component of one colour differs from that of the
    /// other by less than the tolerance.
    pub open spec fn near(self, other: RGB<T>, acceptable_rounding_error: Option<u64>) -> bool {
        &&& distance(self.red.as_prop().num(), other.red.as_prop().num()) < tolerance(
            acceptable_rounding_error,
        )
        &&& distance(self.green.as_prop().num(), other.green.as_prop().num()) < tolerance(
            acceptable_rounding_error,
        )
        &&& distance(self.blue.as_prop().num(), other.blue.as_prop().num()) < tolerance(
            acceptable_rounding_error,
        )
    }

    /// Whether two colours are the same up to a tolerance, in units of
    /// the proportions that their components stand for.
    pub fn approx_eq(&self, other: &RGB<T>, acceptable_rounding_error: Option<u64>) -> (close: bool)
        ensures
            close == self.near(*other, acceptable_rounding_error),
    {
        self.red.to_prop().approx_eq(&other.red.to_prop(), acceptable_rounding_error)
            && self.green.to_prop().approx_eq(&other.green.to_prop(), acceptable_rounding_error)
            && self.blue.to_prop().approx_eq(&other.blue.to_prop(), acceptable_rounding_error)
    }

    /// The grey of the same value.
    pub fn monochrome_rgb(&self) -> (rgb: RGB<T>)
        ensures
            rgb == Self::of_props(
                (
                    Prop((sum_of(self.props()) / 3) as u64),
                    Prop((sum_of(self.props()) / 3) as u64),
                    Prop((sum_of(self.props()) / 3) as u64),
                ),
            ),
    {
        let value = self.value();
        Self::from_props(value, value, value)
    }
}

impl<T: LightLevel> vstd::std_specs::ops::MulSpecImpl<Prop> for RGB<T> {
    open spec fn obeys_mul_spec() -> bool {
        true
    }

    open spec fn mul_req(self, rhs: Prop) -> bool {
        true
    }

    open spec fn mul_spec(self, rhs: Prop) -> RGB<T> {
        RGB::<T>::of_props(
            (
                Prop(scaled_product(self.red.as_prop().num(), rhs.num()) as u64),
                Prop(scaled_product(self.green.as_prop().num(), rhs.num()) as u64),
                Prop(scaled_product(self.blue.as_prop().num(), rhs.num()) as u64),
            ),
        )
    }
}

impl<T: LightLevel> core::ops::Mul<Prop> for RGB<T> {
    type Output = RGB<T>;

    /// The colour with every component scaled by a proportion.
    fn mul(self, rhs: Prop) -> (rgb: RGB<T>) {
        RGB::<T>::from_props(
            self.red.to_prop() * rhs,
            self.green.to_prop() * rhs,
            self.blue.to_prop() * rhs,
        )
    }
}

impl<T: LightLevel> vstd::std_specs::convert::FromSpecImpl<[Prop; 3]> for RGB<T> {
    open spec fn obeys_from_spec() -> bool {
        true
    }

    open spec fn from_spec(levels: [Prop; 3]) -> RGB<T> {
        RGB::<T>::of_props((levels@[0], levels@[1], levels@[2]))
    }
}

impl<T: LightLevel> From<[Prop; 3]> for RGB<T> {
    /// The colour whose components stand for three proportions.
    fn from(levels: [Prop; 3]) -> (rgb: RGB<T>) {
        RGB::<T>::from_props(levels[0], levels[1], levels[2])
    }
}

impl<T: LightLevel> vstd::std_specs::convert::FromSpecImpl<[T; 3]> for RGB<T> {
    open spec fn obeys_from_spec() -> bool {
        true
    }

    open spec fn from_spec(levels: [T; 3]) -> RGB<T> {
        RGB { red: levels@[0], green: levels@[1], blue: levels@[2] }
    }
}

impl<T: LightLevel> From<[T; 3]> for RGB<T> {
    /// The colour with three light levels.
    fn from(levels: [T; 3]) -> (rgb: RGB<T>) {
        RGB { red: levels[0], green: levels[1], blue: levels[2] }
    }
}

} // verus!
