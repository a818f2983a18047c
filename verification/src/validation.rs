//! Whether a value lies in the range that the colour mathematics asks of
//! it: [0, 1] for a proportion, [0, 3] for a sum.

use crate::chroma::Chroma;
use crate::fraction::UFDFraction;
use crate::fraction::DENOM;
use crate::proportion::unit;
use crate::proportion::Prop;
use crate::proportion::UFDRNumber;
use vstd::prelude::*;

verus! {

/// A value that may stand for a proportion.
pub trait ProportionValidation: Sized + Copy {
    /// Whether the value lies in [0, 1].
    spec fn vp(self) -> bool;

    /// Whether the value lies in [0, 1].
    fn is_vp(self) -> (ok: bool)
        ensures
            ok == self.vp(),
    ;

    /// The value itself, which is known to lie in [0, 1].
    fn validated_p(self) -> (same: Self)
        requires
            self.vp(),
        ensures
            same == self,
    {
        self
    }
}

/// A value that may stand for a sum of three proportions.
pub trait SumValidation: Sized + Copy {
    /// Whether the value lies in [0, 3].
    spec fn vs(self) -> bool;

    /// Whether the value lies in [0, 3].
    fn is_vs(self) -> (ok: bool)
        ensures
            ok == self.vs(),
    ;

    /// The value itself, which is known to lie in [0, 3].
    fn validated_s(self) -> (same: Self)
        requires
            self.vs(),
        ensures
            same == self,
    {
        self
    }
}

impl ProportionValidation for UFDFraction {
    open spec fn vp(self) -> bool {
        self.num() <= DENOM
    }

    fn is_vp(self) -> (ok: bool) {
        self.0 <= DENOM
    }
}

impl SumValidation for UFDFraction {
    open spec fn vs(self) -> bool {
        self.num() <= 3 * DENOM
    }

    fn is_vs(self) -> (ok: bool) {
        self.0 <= 3 * DENOM
    }
}

impl ProportionValidation for Prop {
    open spec fn vp(self) -> bool {
        true
    }

    fn is_vp(self) -> (ok: bool) {
        true
    }
}

impl ProportionValidation for Chroma {
    open spec fn vp(self) -> bool {
        self.magnitude().vp()
    }

    fn is_vp(self) -> (ok: bool) {
        match self {
            Chroma::Shade(proportion) => proportion.is_vp(),
            Chroma::Tint(proportion) => proportion.is_vp(),
        }
    }
}

impl ProportionValidation for UFDRNumber {
    open spec fn vp(self) -> bool {
        self.num() <= unit()
    }

    fn is_vp(self) -> (ok: bool) {
        self.is_proportion()
    }
}

impl SumValidation for UFDRNumber {
    open spec fn vs(self) -> bool {
        self.valid()
    }

    fn is_vs(self) -> (ok: bool) {
        self.is_valid()
    }
}

} // verus!
