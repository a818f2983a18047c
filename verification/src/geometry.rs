//! The geometry that every kind of hue answers for: the sums at which it
//! can show a chroma, the chroma it can show at a sum, and the colours that
//! realise them.

use crate::chroma::Chroma;
use crate::chroma::Warmth;
use crate::proportion::Prop;
use crate::proportion::UFDRNumber;
use crate::rgb::LightLevel;
use crate::rgb::RGB;
use crate::sum_range::UFDRNumberRange;
use vstd::prelude::*;

verus! {

/// What a hue answers for. Each spec function is the model of the method
/// that follows it; colours are modelled as three proportions in the order
/// red, green, blue.
pub trait HueIfce: Sized {
    /// Whether the value is a hue at all.
    spec fn wf(&self) -> bool;

    /// The sum at which the hue reaches full chroma.
    spec fn peak_sum(&self) -> UFDRNumber;

    /// The sums at which the hue can show a chroma of magnitude `prop`;
    /// none for zero, which is the chroma of the greys.
    spec fn sum_range(&self, prop: Prop) -> Option<UFDRNumberRange>;

    /// The greatest chroma that the hue can show at a sum; none at the sums
    /// zero and three, where black and white stand alone.
    spec fn peak_chroma(&self, sum: UFDRNumber) -> Option<Chroma>;

    /// The warmth of the hue at a chroma.
    spec fn warmth(&self, chroma: Chroma) -> Warmth;

    /// The hue at full chroma.
    spec fn peak_levels(&self) -> (Prop, Prop, Prop);

    /// The hue at the greatest chroma that it can show at a sum.
    spec fn peak_levels_for_sum(&self, sum: UFDRNumber) -> Option<(Prop, Prop, Prop)>;

    /// The darkest colour of the hue with a chroma.
    spec fn darkest_levels(&self, chroma: Chroma) -> (Prop, Prop, Prop);

    /// The lightest colour of the hue with a chroma.
    spec fn lightest_levels(&self, chroma: Chroma) -> (Prop, Prop, Prop);

    /// The colour of the hue with a sum and a chroma, where there is one.
    spec fn levels_for(&self, sum: UFDRNumber, chroma: Chroma) -> Option<(Prop, Prop, Prop)>;

    /// The sums at which the hue can show a chroma of magnitude `prop`.
    fn sum_range_for_chroma_prop(&self, prop: Prop) -> (range: Option<UFDRNumberRange>)
        requires
            self.wf(),
        ensures
            range == self.sum_range(prop),
    ;

    /// The sum at which the hue reaches full chroma.
    fn sum_for_max_chroma(&self) -> (sum: UFDRNumber)
        requires
            self.wf(),
        ensures
            sum == self.peak_sum(),
    ;

    /// The greatest chroma that the hue can show at a sum.
    fn max_chroma_for_sum(&self, sum: UFDRNumber) -> (chroma: Option<Chroma>)
        requires
            self.wf(),
            sum.valid(),
        ensures
            chroma == self.peak_chroma(sum),
    ;

    /// The warmth of the hue at a chroma.
    fn warmth_for_chroma(&self, chroma: Chroma) -> (warmth: Warmth)
        requires
            self.wf(),
        ensures
            warmth == self.warmth(chroma),
    ;

    /// The hue at full chroma.
    fn max_chroma_rgb<T: LightLevel>(&self) -> (rgb: RGB<T>)
        requires
            self.wf(),
        ensures
            rgb == RGB::<T>::of_props(self.peak_levels()),
    ;

    /// The hue at the greatest chroma that it can show at a sum.
    fn max_chroma_rgb_for_sum<T: LightLevel>(&self, sum: UFDRNumber) -> (rgb: Option<RGB<T>>)
        requires
            self.wf(),
            sum.valid(),
        ensures
            rgb == RGB::<T>::of_optional_props(self.peak_levels_for_sum(sum)),
    ;

    /// The darkest colour of the hue with a chroma.
    fn min_sum_rgb_for_chroma<T: LightLevel>(&self, chroma: Chroma) -> (rgb: RGB<T>)
        requires
            self.wf(),
        ensures
            rgb == RGB::<T>::of_props(self.darkest_levels(chroma)),
    ;

    /// The lightest colour of the hue with a chroma.
    fn max_sum_rgb_for_chroma<T: LightLevel>(&self, chroma: Chroma) -> (rgb: RGB<T>)
        requires
            self.wf(),
        ensures
            rgb == RGB::<T>::of_props(self.lightest_levels(chroma)),
    ;

    /// The colour of the hue with a sum and a chroma, or none where the
    /// hue has no such colour.
    fn rgb_for_sum_and_chroma<T: LightLevel>(&self, sum: UFDRNumber, chroma: Chroma) -> (rgb:
        Option<RGB<T>>)
        requires
            self.wf(),
            sum.valid(),
        ensures
            rgb == RGB::<T>::of_optional_props(self.levels_for(sum, chroma)),
    ;
}

} // verus!
