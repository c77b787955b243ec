//! Serum glucose.
//!
//! SI units are mmol/L, conventional units mg/dL; 18 mg/dL of glucose make 1 mmol/L.

use std::marker::PhantomData;

use vstd::prelude::*;

use crate::constants::GLU_MGDL_TO_MMOLL;
use crate::fixed::{
    distance, fits, Fixed, lemma_product_bound, lemma_value_close, lemma_whole_steps,
    NANOS_PER_UNIT, round_div, round_div_wide,
};
use crate::lab::{
    scaled_thresholds, select_range, thresholds_of, NumericRanged, RangeThreshold, ResultRange,
};
use crate::units::glucose::GlucoseUnit;
use crate::units::{MgdL, MmolL};

verus! {

/// A serum glucose measurement.
///
/// Held exactly as a count of the kind's base steps, so converting between units loses
/// nothing; only reading the value in a unit rounds, to the nearest billionth.
#[derive(Debug, PartialEq, Eq)]
pub struct Glucose<U: GlucoseUnit> {
    base: i128,
    unit: PhantomData<U>,
}

impl<U: GlucoseUnit> Clone for Glucose<U> {
    fn clone(&self) -> (r: Self)
        ensures
            r == *self,
    {
        *self
    }
}

impl<U: GlucoseUnit> Copy for Glucose<U> {}

impl<U: GlucoseUnit> View for Glucose<U> {
    type V = int;

    /// The value in billionths of `U`, to the nearest billionth.
    open spec fn view(&self) -> int {
        round_div(self.base(), U::base_steps())
    }
}

impl<U: GlucoseUnit> Glucose<U> {
    /// The count of base steps stays within what a value given in billionths can make,
    /// and the value in `U` can be read as a `Fixed`.
    #[verifier::type_invariant]
    spec fn well_formed(self) -> bool {
        &&& -0x1_0000_0000_0000_0000_0000_0000_0000 <= self.base
        &&& self.base <= 0x1_0000_0000_0000_0000_0000_0000_0000
        &&& fits(round_div(self.base as int, U::base_steps()))
    }

    /// The measurement as a count of the kind's base steps.
    pub closed spec fn base(self) -> int {
        self.base as int
    }

    /// A glucose measurement of `value` in `U`.
    pub fn new(value: Fixed) -> (r: Self)
        ensures
            r.base() == value@ * U::base_steps(),
            r@ == value@,
    {
        proof {
            U::lemma_mmol_factor();
            lemma_product_bound(value@, U::base_steps());
            lemma_whole_steps(value@, U::base_steps());
        }
        let steps = U::base_steps_value();
        Glucose { base: value.nanos as i128 * steps as i128, unit: PhantomData }
    }

    /// The value in `U`, to the nearest billionth.
    pub fn value(&self) -> (r: Fixed)
        ensures
            r@ == self@,
    {
        proof {
            use_type_invariant(self);
            U::lemma_mmol_factor();
        }
        let steps = U::base_steps_value();
        Fixed::from_nanos(round_div_wide(self.base, steps as i128) as i64)
    }

    /// The same measurement in `V`: the count of base steps is kept as it is.
    pub fn convert_to<V: GlucoseUnit>(self) -> (r: Glucose<V>)
        requires
            fits(round_div(self.base(), V::base_steps())),
        ensures
            r.base() == self.base(),
            r@ == round_div(self.base(), V::base_steps()),
    {
        proof {
            use_type_invariant(&self);
        }
        Glucose { base: self.base, unit: PhantomData }
    }
}

/// Alert thresholds for serum glucose in mg/dL: 60, 85, 125 and 200.
pub open spec fn glu_serum_thresholds_mgdl_spec() -> RangeThreshold {
    thresholds_of(60_000_000_000, 85_000_000_000, 125_000_000_000, 200_000_000_000)
}

/// The cut points of [`glu_serum_thresholds_mgdl_spec`], to classify values with.
pub fn glu_serum_thresholds_mgdl() -> (r: RangeThreshold)
    ensures
        r == glu_serum_thresholds_mgdl_spec(),
{
    RangeThreshold::new(60_000_000_000, 85_000_000_000, 125_000_000_000, 200_000_000_000)
}

/// Builds glucose measurements from plain numbers.
pub trait SerumGlucoseExt {
    fn glu_serum_mg_dl(self) -> Glucose<MgdL>;

    fn glu_serum_mmol_l(self) -> Glucose<MmolL>;
}

impl SerumGlucoseExt for Fixed {
    fn glu_serum_mg_dl(self) -> (r: Glucose<MgdL>)
        ensures
            r@ == self@,
    {
        Glucose::new(self)
    }

    fn glu_serum_mmol_l(self) -> (r: Glucose<MmolL>)
        ensures
            r@ == self@,
    {
        Glucose::new(self)
    }
}

impl NumericRanged<MgdL> for Glucose<MgdL> {
    open spec fn measured(&self) -> int {
        self@
    }

    open spec fn limits() -> RangeThreshold {
        glu_serum_thresholds_mgdl_spec()
    }

    fn value(&self) -> (r: Fixed) {
        Glucose::value(self)
    }

    fn range(&self) -> (r: ResultRange) {
        select_range(Glucose::value(self), &glu_serum_thresholds_mgdl())
    }
}

impl NumericRanged<MmolL> for Glucose<MmolL> {
    open spec fn measured(&self) -> int {
        self@
    }

    open spec fn limits() -> RangeThreshold {
        scaled_thresholds(glu_serum_thresholds_mgdl_spec(), GLU_MGDL_TO_MMOLL)
    }

    fn value(&self) -> (r: Fixed) {
        Glucose::value(self)
    }

    fn range(&self) -> (r: ResultRange) {
        let t = glu_serum_thresholds_mgdl().scaled(GLU_MGDL_TO_MMOLL);
        select_range(Glucose::value(self), &t)
    }
}

/// Converting a glucose measurement to any unit of its kind and back gives the value
/// exactly: each conversion keeps the count of base steps.
pub proof fn lemma_glucose_round_trip<U: GlucoseUnit, V: GlucoseUnit>(
    q: Glucose<U>,
    r: Glucose<V>,
    s: Glucose<U>,
)
    requires
        r.base() == q.base(),
        s.base() == r.base(),
    ensures
        s@ == q@,
{
}

/// A glucose value read in any unit is the exact value rounded to the nearest
/// billionth: within half a billionth of it, and so within one part in 10^9 of any
/// value of at least half a unit.
pub proof fn lemma_glucose_value_close<U: GlucoseUnit>(q: Glucose<U>)
    ensures
        -U::base_steps() <= 2 * (q.base() - U::base_steps() * q@) <= U::base_steps(),
        2 * distance(q.base(), 0) >= NANOS_PER_UNIT * U::base_steps() ==> NANOS_PER_UNIT
            * distance(U::base_steps() * q@, q.base()) <= distance(q.base(), 0),
{
    U::lemma_mmol_factor();
    lemma_value_close(q.base(), U::base_steps(), q@);
}

} // verus!
