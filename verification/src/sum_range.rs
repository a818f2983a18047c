//! The range of component sums over which a hue can show a given chroma,
//! and where a sum lies with respect to it.

use crate::proportion::UFDRNumber;
use vstd::prelude::*;

verus! {

/// The sums at which a hue can show one chroma: from `min` on the shade
/// side, through the sum at which the hue's chroma peaks, to `max` on the
/// tint side.
#[derive(Debug, PartialEq, Eq, Clone, Copy, Structural)]
pub struct UFDRNumberRange {
    pub min: UFDRNumber,
    pub max_chroma_sum: UFDRNumber,
    pub max: UFDRNumber,
}

/// Where a sum lies with respect to a range. `TooSmall` and `TooBig` carry
/// the distance to the range, `Shade` and `Tint` the bounds of the side on
/// which the sum lies, and `Neither` the peak, for a sum within a unit of
/// it.
#[derive(Debug, PartialEq, Eq, Clone, Copy, Structural)]
pub enum UFDRNumberOrdering {
    TooSmall(UFDRNumber),
    Shade(UFDRNumber, UFDRNumber),
    Neither(UFDRNumber),
    Tint(UFDRNumber, UFDRNumber),
    TooBig(UFDRNumber),
}

impl UFDRNumberOrdering {
    /// Whether the sum lies outside the range.
    pub open spec fn failure(self) -> bool {
        self is TooSmall || self is TooBig
    }

    /// Whether the sum lies outside the range.
    pub fn is_failure(&self) -> (outside: bool)
        ensures
            outside == self.failure(),
    {
        match self {
            UFDRNumberOrdering::TooSmall(_) | UFDRNumberOrdering::TooBig(_) => true,
            _ => false,
        }
    }

    /// Whether the sum lies within the range.
    pub fn is_success(&self) -> (inside: bool)
        ensures
            inside == !self.failure(),
    {
        match self {
            UFDRNumberOrdering::TooSmall(_) | UFDRNumberOrdering::TooBig(_) => false,
            _ => true,
        }
    }
}

impl vstd::std_specs::convert::FromSpecImpl<(UFDRNumber, UFDRNumber, UFDRNumber)> for UFDRNumberRange {
    open spec fn obeys_from_spec() -> bool {
        true
    }

    open spec fn from_spec(tuple: (UFDRNumber, UFDRNumber, UFDRNumber)) -> UFDRNumberRange {
        UFDRNumberRange { min: tuple.0, max_chroma_sum: tuple.1, max: tuple.2 }
    }
}

impl From<(UFDRNumber, UFDRNumber, UFDRNumber)> for UFDRNumberRange {
    /// The range from its lower bound, its peak and its upper bound.
    fn from(tuple: (UFDRNumber, UFDRNumber, UFDRNumber)) -> (range: UFDRNumberRange) {
        UFDRNumberRange { min: tuple.0, max_chroma_sum: tuple.1, max: tuple.2 }
    }
}

impl UFDRNumberRange {
    /// Whether the three bounds are sums in [0, 3] in ascending order.
    pub open spec fn ordered(self) -> bool {
        self.min.num() <= self.max_chroma_sum.num() <= self.max.num() <= 3 * crate::proportion::unit()
    }

    /// Where a sum lies with respect to the range.
    pub open spec fn place_of(self, sum: UFDRNumber) -> UFDRNumberOrdering {
        if sum.num() < self.min.num() {
            UFDRNumberOrdering::TooSmall(UFDRNumber((self.min.num() - sum.num()) as u128))
        } else if sum.num() < self.max_chroma_sum.num() - 1 {
            UFDRNumberOrdering::Shade(
                self.min,
                UFDRNumber((self.max_chroma_sum.num() - 2) as u128),
            )
        } else if sum.num() > self.max_chroma_sum.num() + 1 {
            if sum.num() <= self.max.num() {
                UFDRNumberOrdering::Tint(
                    UFDRNumber((self.max_chroma_sum.num() + 2) as u128),
                    self.max,
                )
            } else {
                UFDRNumberOrdering::TooBig(UFDRNumber((sum.num() - self.max.num()) as u128))
            }
        } else {
            UFDRNumberOrdering::Neither(self.max_chroma_sum)
        }
    }

    /// Where a sum lies with respect to the range. A sum within a unit of
    /// the peak lies on neither side.
    pub fn compare_sum(&self, sum: UFDRNumber) -> (place: UFDRNumberOrdering)
        ensures
            place == self.place_of(sum),
    {
        if sum.0 < self.min.0 {
            UFDRNumberOrdering::TooSmall(self.min - sum)
        } else if sum.0 < self.max_chroma_sum.0 && sum.0 + 1 < self.max_chroma_sum.0 {
            UFDRNumberOrdering::Shade(self.min, self.max_chroma_sum - UFDRNumber(2))
        } else if sum.0 > 0 && sum.0 - 1 > self.max_chroma_sum.0 {
            if sum.0 <= self.max.0 {
                UFDRNumberOrdering::Tint(self.max_chroma_sum + UFDRNumber(2), self.max)
            } else {
                UFDRNumberOrdering::TooBig(sum - self.max)
            }
        } else {
            UFDRNumberOrdering::Neither(self.max_chroma_sum)
        }
    }

    /// The least sum on the shade side.
    pub fn shade_min(&self) -> (sum: UFDRNumber)
        ensures
            sum == self.min,
    {
        self.min
    }

    /// The greatest sum on the shade side: the peak.
    pub fn shade_max(&self) -> (sum: UFDRNumber)
        ensures
            sum == self.max_chroma_sum,
    {
        self.max_chroma_sum
    }

    /// The sum at which the hue's chroma peaks.
    pub fn crossover(&self) -> (sum: UFDRNumber)
        ensures
            sum == self.max_chroma_sum,
    {
        self.max_chroma_sum
    }

    /// The least sum on the tint side: the peak.
    pub fn tint_min(&self) -> (sum: UFDRNumber)
        ensures
            sum == self.max_chroma_sum,
    {
        self.max_chroma_sum
    }

    /// The greatest sum on the tint side.
    pub fn tint_max(&self) -> (sum: UFDRNumber)
        ensures
            sum == self.max,
    {
        self.max
    }
}

} // verus!
