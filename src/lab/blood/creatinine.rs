//! Serum creatinine.
//!
//! SI units are µmol/L, conventional units mg/dL; 1 mg/dL is 88.4 µmol/L.

use std::marker::PhantomData;

use vstd::prelude::*;

use crate::constants::SCR_MGDL_TO_UMOLL;
use crate::fixed::{
    distance, fits, Fixed, lemma_product_bound, lemma_value_close, lemma_whole_steps,
    NANOS_PER_UNIT, round_div, round_div_wide,
};
use crate::lab::{
    scaled_thresholds, select_range, thresholds_of, NumericRanged, RangeThreshold, ResultRange,
};
use crate::units::creatinine::CreatinineUnit;
use crate::units::{MgdL, UmolL};

verus! {

/// A serum creatinine measurement.
///
/// Held exactly as a count of the kind's base steps, so converting between units loses
/// nothing; only reading the value in a unit rounds, to the nearest billionth.
#[derive(Debug, PartialEq, Eq)]
pub struct Creatinine<U: CreatinineUnit> {
    base: i128,
    unit: PhantomData<U>,
}

impl<U: CreatinineUnit> Clone for Creatinine<U> {
    fn clone(&self) -> (r: Self)
        ensures
            r == *self,
    {
        *self
    }
}

impl<U: CreatinineUnit> Copy for Creatinine<U> {}

impl<U: CreatinineUnit> View for Creatinine<U> {
    type V = int;

    /// The value in billionths of `U`, to the nearest billionth.
    open spec fn view(&self) -> int {
        round_div(self.base(), U::base_steps())
    }
}

impl<U: CreatinineUnit> Creatinine<U> {
    /// The count of base steps stays within what a value given in billionths can make,
    /// and the value in `U` can be read as a `Fixed`.
    #[verifier::type_invariant]
    spec fn well_formed(self) -> bool {
        &&& -0x1_0000_0000_0000_0000_0000_0000_0000 <= self.base
        &&& self.base <= 0x1_0000_0000_0000_0000_0000_0000_0000
        &&& fits(round_div(self.base as int, U::base_steps()))
    }

    /// The measurement as a count of the kind's base steps.
    pub closed spec fn base(self) -> int {
        self.base as int
    }

    /// A creatinine measurement of `value` in `U`.
    pub fn new(value: Fixed) -> (r: Self)
        ensures
            r.base() == value@ * U::base_steps(),
            r@ == value@,
    {
        proof {
            U::lemma_umol_factor();
            lemma_product_bound(value@, U::base_steps());
            lemma_whole_steps(value@, U::base_steps());
        }
        let steps = U::base_steps_value();
        Creatinine { base: value.nanos as i128 * steps as i128, unit: PhantomData }
    }

    /// The value in `U`, to the nearest billionth.
    pub fn value(&self) -> (r: Fixed)
        ensures
            r@ == self@,
    {
        proof {
            use_type_invariant(self);
            U::lemma_umol_factor();
        }
        let steps = U::base_steps_value();
        Fixed::from_nanos(round_div_wide(self.base, steps as i128) as i64)
    }

    /// The same measurement in `V`: the count of base steps is kept as it is.
    pub fn convert_to<V: CreatinineUnit>(self) -> (r: Creatinine<V>)
        requires
            fits(round_div(self.base(), V::base_steps())),
        ensures
            r.base() == self.base(),
            r@ == round_div(self.base(), V::base_steps()),
    {
        proof {
            use_type_invariant(&self);
        }
        Creatinine { base: self.base, unit: PhantomData }
    }
}

/// Alert thresholds for serum creatinine in mg/dL: 0.6, 0.9, 1.4 and 3.
pub open spec fn scr_thresholds_mg_dl_spec() -> RangeThreshold {
    thresholds_of(600_000_000, 900_000_000, 1_400_000_000, 3_000_000_000)
}

/// The cut points of [`scr_thresholds_mg_dl_spec`], to classify values with.
pub fn scr_thresholds_mg_dl() -> (r: RangeThreshold)
    ensures
        r == scr_thresholds_mg_dl_spec(),
{
    RangeThreshold::new(600_000_000, 900_000_000, 1_400_000_000, 3_000_000_000)
}

/// Builds creatinine measurements from plain numbers.
pub trait CreatinineExt {
    fn cr_serum_mg_dl(self) -> Creatinine<MgdL>;

    fn cr_serum_umol_l(self) -> Creatinine<UmolL>;
}

impl CreatinineExt for Fixed {
    fn cr_serum_mg_dl(self) -> (r: Creatinine<MgdL>)
        ensures
            r@ == self@,
    {
        Creatinine::new(self)
    }

    fn cr_serum_umol_l(self) -> (r: Creatinine<UmolL>)
        ensures
            r@ == self@,
    {
        Creatinine::new(self)
    }
}

impl NumericRanged<MgdL> for Creatinine<MgdL> {
    open spec fn measured(&self) -> int {
        self@
    }

    open spec fn limits() -> RangeThreshold {
        scr_thresholds_mg_dl_spec()
    }

    fn value(&self) -> (r: Fixed) {
        Creatinine::value(self)
    }

    fn range(&self) -> (r: ResultRange) {
        select_range(Creatinine::value(self), &scr_thresholds_mg_dl())
    }
}

impl NumericRanged<UmolL> for Creatinine<UmolL> {
    open spec fn measured(&self) -> int {
        self@
    }

    open spec fn limits() -> RangeThreshold {
        scaled_thresholds(scr_thresholds_mg_dl_spec(), SCR_MGDL_TO_UMOLL)
    }

    fn value(&self) -> (r: Fixed) {
        Creatinine::value(self)
    }

    fn range(&self) -> (r: ResultRange) {
        let t = scr_thresholds_mg_dl().scaled(SCR_MGDL_TO_UMOLL);
        select_range(Creatinine::value(self), &t)
    }
}

/// Converting a creatinine measurement to any unit of its kind and back gives the value
/// exactly: each conversion keeps the count of base steps.
pub proof fn lemma_creatinine_round_trip<U: CreatinineUnit, V: CreatinineUnit>(
    q: Creatinine<U>,
    r: Creatinine<V>,
    s: Creatinine<U>,
)
    requires
        r.base() == q.base(),
        s.base() == r.base(),
    ensures
        s@ == q@,
{
}

/// A creatinine value read in any unit is the exact value rounded to the nearest
/// billionth: within half a billionth of it, and so within one part in 10^9 of any
/// value of at least half a unit.
pub proof fn lemma_creatinine_value_close<U: CreatinineUnit>(q: Creatinine<U>)
    ensures
        -U::base_steps() <= 2 * (q.base() - U::base_steps() * q@) <= U::base_steps(),
        2 * distance(q.base(), 0) >= NANOS_PER_UNIT * U::base_steps() ==> NANOS_PER_UNIT
            * distance(U::base_steps() * q@, q.base()) <= distance(q.base(), 0),
{
    U::lemma_umol_factor();
    lemma_value_close(q.base(), U::base_steps(), q@);
}

} // verus!
