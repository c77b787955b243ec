//! Lab values and their clinical ranges.
//!
//! A value at a cut point always belongs to the range below it: the value that
//! equals `low_norm` is `Low`, the value that equals `norm_hi` is `Normal`. Every
//! kind of measurement classifies by this one rule.

use vstd::prelude::*;

use crate::fixed::{fits, scale, valid_factor, Fixed};
use crate::units::Unit;

pub mod blood;
pub mod gfr;
pub mod vitals;

verus! {

/// Describes possible ranges for numeric results.
#[derive(Debug, Clone, Copy, PartialEq, Eq, Structural)]
pub enum ResultRange {
    CriticalLow,
    Low,
    Normal,
    High,
    CriticalHigh,
}

/// Four ascending cut points that divide values into five ranges, all in one unit.
#[derive(Debug, Clone, Copy, PartialEq, Eq, Structural)]
pub struct RangeThreshold {
    pub crit_low: Fixed,
    pub low_norm: Fixed,
    pub norm_hi: Fixed,
    pub hi_crit: Fixed,
}

/// The cut points with the given counts of billionths.
pub open spec fn thresholds_of(crit_low: int, low_norm: int, norm_hi: int, hi_crit: int) -> RangeThreshold {
    RangeThreshold {
        crit_low: Fixed { nanos: crit_low as i64 },
        low_norm: Fixed { nanos: low_norm as i64 },
        norm_hi: Fixed { nanos: norm_hi as i64 },
        hi_crit: Fixed { nanos: hi_crit as i64 },
    }
}

/// The range of a value: the first cut point that the value does not exceed names it.
pub open spec fn classify(value: int, t: RangeThreshold) -> ResultRange {
    if value <= t.crit_low@ {
        ResultRange::CriticalLow
    } else if value <= t.low_norm@ {
        ResultRange::Low
    } else if value <= t.norm_hi@ {
        ResultRange::Normal
    } else if value <= t.hi_crit@ {
        ResultRange::High
    } else {
        ResultRange::CriticalHigh
    }
}

/// Every cut point scaled by the factor `f`, as a value of the kind would be.
pub open spec fn scaled_thresholds(t: RangeThreshold, f: (u64, u64)) -> RangeThreshold {
    thresholds_of(scale(t.crit_low@, f), scale(t.low_norm@, f), scale(t.norm_hi@, f), scale(t.hi_crit@, f))
}

impl RangeThreshold {
    /// The cut points with the given counts of billionths.
    pub fn new(crit_low: i64, low_norm: i64, norm_hi: i64, hi_crit: i64) -> (r: RangeThreshold)
        ensures
            r == thresholds_of(crit_low as int, low_norm as int, norm_hi as int, hi_crit as int),
    {
        RangeThreshold {
            crit_low: Fixed::from_nanos(crit_low),
            low_norm: Fixed::from_nanos(low_norm),
            norm_hi: Fixed::from_nanos(norm_hi),
            hi_crit: Fixed::from_nanos(hi_crit),
        }
    }

    /// The same table in another unit: every cut point multiplied by the factor `f`.
    pub fn scaled(&self, f: (u64, u64)) -> (r: RangeThreshold)
        requires
            valid_factor(f),
            fits(scale(self.crit_low@, f)),
            fits(scale(self.low_norm@, f)),
            fits(scale(self.norm_hi@, f)),
            fits(scale(self.hi_crit@, f)),
        ensures
            r == scaled_thresholds(*self, f),
    {
        RangeThreshold {
            crit_low: self.crit_low.scaled(f),
            low_norm: self.low_norm.scaled(f),
            norm_hi: self.norm_hi.scaled(f),
            hi_crit: self.hi_crit.scaled(f),
        }
    }
}

/// Determine a named range (e.g. normal or critical high) for a given value.
pub fn select_range(value: Fixed, thresholds: &RangeThreshold) -> (r: ResultRange)
    ensures
        r == classify(value@, *thresholds),
{
    if value.nanos <= thresholds.crit_low.nanos {
        ResultRange::CriticalLow
    } else if value.nanos <= thresholds.low_norm.nanos {
        ResultRange::Low
    } else if value.nanos <= thresholds.norm_hi.nanos {
        ResultRange::Normal
    } else if value.nanos <= thresholds.hi_crit.nanos {
        ResultRange::High
    } else {
        ResultRange::CriticalHigh
    }
}

/// A value equal to a cut point is classified in the range below that cut point,
/// provided the cut points below it are strictly lower.
pub proof fn lemma_cut_point_belongs_below(t: RangeThreshold)
    ensures
        classify(t.crit_low@, t) == ResultRange::CriticalLow,
        t.crit_low@ < t.low_norm@ ==> classify(t.low_norm@, t) == ResultRange::Low,
        t.crit_low@ < t.low_norm@ < t.norm_hi@ ==> classify(t.norm_hi@, t) == ResultRange::Normal,
        t.crit_low@ < t.low_norm@ < t.norm_hi@ < t.hi_crit@ ==> classify(t.hi_crit@, t)
            == ResultRange::High,
{
}

/// Ordered cut points split values into five ranges in ascending order: a larger value
/// never falls in a lower range.
pub proof fn lemma_classify_monotonic(a: int, b: int, t: RangeThreshold)
    requires
        a <= b,
    ensures
        range_rank(classify(a, t)) <= range_rank(classify(b, t)),
{
}

/// The position of a range in ascending order, from 0 for `CriticalLow` to 4 for `CriticalHigh`.
pub open spec fn range_rank(r: ResultRange) -> int {
    match r {
        ResultRange::CriticalLow => 0,
        ResultRange::Low => 1,
        ResultRange::Normal => 2,
        ResultRange::High => 3,
        ResultRange::CriticalHigh => 4,
    }
}

/// Trait shared by numeric lab values with defined normal and abnormal ranges.
pub trait NumericRanged<U: Unit> {
    /// The measured value, in billionths of `U`.
    spec fn measured(&self) -> int;

    /// The cut points for this kind of measurement, in `U`.
    spec fn limits() -> RangeThreshold;

    /// Obtain the numeric lab result.
    fn value(&self) -> (r: Fixed)
        ensures
            r@ == self.measured(),
    ;

    /// Get a descriptive category (high/low/critical) for a numeric lab result.
    fn range(&self) -> (r: ResultRange)
        ensures
            r == classify(self.measured(), Self::limits()),
    ;

    /// Get the units for this value.
    fn units(&self) -> (r: &'static str)
        ensures
            r@ == U::label(),
    {
        U::abbr()
    }
}

} // verus!
