//! Serum bilirubin.
//!
//! SI units are µmol/L, conventional units mg/dL; 1 mg/dL is 17.1 µmol/L.

use std::marker::PhantomData;

use vstd::prelude::*;

use crate::constants::SBILI_MGDL_TO_UMOLL;
use crate::fixed::{
    distance, fits, Fixed, lemma_product_bound, lemma_value_close, lemma_whole_steps,
    NANOS_PER_UNIT, round_div, round_div_wide,
};
use crate::lab::{
    scaled_thresholds, select_range, thresholds_of, NumericRanged, RangeThreshold, ResultRange,
};
use crate::units::bilirubin::BilirubinUnit;
use crate::units::{MgdL, UmolL};

verus! {

/// A serum bilirubin measurement.
///
/// Held exactly as a count of the kind's base steps, so converting between units loses
/// nothing; only reading the value in a unit rounds, to the nearest billionth.
#[derive(Debug, PartialEq, Eq)]
pub struct Bilirubin<U: BilirubinUnit> {
    base: i128,
    unit: PhantomData<U>,
}

impl<U: BilirubinUnit> Clone for Bilirubin<U> {
    fn clone(&self) -> (r: Self)
        ensures
            r == *self,
    {
        *self
    }
}

impl<U: BilirubinUnit> Copy for Bilirubin<U> {}

impl<U: BilirubinUnit> View for Bilirubin<U> {
    type V = int;

    /// The value in billionths of `U`, to the nearest billionth.
    open spec fn view(&self) -> int {
        round_div(self.base(), U::base_steps())
    }
}

impl<U: BilirubinUnit> Bilirubin<U> {
    /// The count of base steps stays within what a value given in billionths can make,
    /// and the value in `U` can be read as a `Fixed`.
    #[verifier::type_invariant]
    spec fn well_formed(self) -> bool {
        &&& -0x1_0000_0000_0000_0000_0000_0000_0000 <= self.base
        &&& self.base <= 0x1_0000_0000_0000_0000_0000_0000_0000
        &&& fits(round_div(self.base as int, U::base_steps()))
    }

    /// The measurement as a count of the kind's base steps.
    pub closed spec fn base(self) -> int {
        self.base as int
    }

    /// A bilirubin measurement of `value` in `U`.
    pub fn new(value: Fixed) -> (r: Self)
        ensures
            r.base() == value@ * U::base_steps(),
            r@ == value@,
    {
        proof {
            U::lemma_umol_factor();
            lemma_product_bound(value@, U::base_steps());
            lemma_whole_steps(value@, U::base_steps());
        }
        let steps = U::base_steps_value();
        Bilirubin { base: value.nanos as i128 * steps as i128, unit: PhantomData }
    }

    /// The value in `U`, to the nearest billionth.
    pub fn value(&self) -> (r: Fixed)
        ensures
            r@ == self@,
    {
        proof {
            use_type_invariant(self);
            U::lemma_umol_factor();
        }
        let steps = U::base_steps_value();
        Fixed::from_nanos(round_div_wide(self.base, steps as i128) as i64)
    }

    /// The same measurement in `V`: the count of base steps is kept as it is.
    pub fn convert_to<V: BilirubinUnit>(self) -> (r: Bilirubin<V>)
        requires
            fits(round_div(self.base(), V::base_steps())),
        ensures
            r.base() == self.base(),
            r@ == round_div(self.base(), V::base_steps()),
    {
        proof {
            use_type_invariant(&self);
        }
        Bilirubin { base: self.base, unit: PhantomData }
    }
}

/// Alert thresholds for serum bilirubin in mg/dL: 0.2, 0.5, 2.5 and 10.
pub open spec fn serum_bili_ranges_mgdl_spec() -> RangeThreshold {
    thresholds_of(200_000_000, 500_000_000, 2_500_000_000, 10_000_000_000)
}

/// The cut points of [`serum_bili_ranges_mgdl_spec`], to classify values with.
pub fn serum_bili_ranges_mgdl() -> (r: RangeThreshold)
    ensures
        r == serum_bili_ranges_mgdl_spec(),
{
    RangeThreshold::new(200_000_000, 500_000_000, 2_500_000_000, 10_000_000_000)
}

/// Builds bilirubin measurements from plain numbers.
pub trait BilirubinExt {
    fn serum_bili_umoll(self) -> Bilirubin<UmolL>;

    fn serum_bili_mgdl(self) -> Bilirubin<MgdL>;
}

impl BilirubinExt for Fixed {
    fn serum_bili_umoll(self) -> (r: Bilirubin<UmolL>)
        ensures
            r@ == self@,
    {
        Bilirubin::new(self)
    }

    fn serum_bili_mgdl(self) -> (r: Bilirubin<MgdL>)
        ensures
            r@ == self@,
    {
        Bilirubin::new(self)
    }
}

impl NumericRanged<MgdL> for Bilirubin<MgdL> {
    open spec fn measured(&self) -> int {
        self@
    }

    open spec fn limits() -> RangeThreshold {
        serum_bili_ranges_mgdl_spec()
    }

    fn value(&self) -> (r: Fixed) {
        Bilirubin::value(self)
    }

    fn range(&self) -> (r: ResultRange) {
        select_range(Bilirubin::value(self), &serum_bili_ranges_mgdl())
    }
}

impl NumericRanged<UmolL> for Bilirubin<UmolL> {
    open spec fn measured(&self) -> int {
        self@
    }

    open spec fn limits() -> RangeThreshold {
        scaled_thresholds(serum_bili_ranges_mgdl_spec(), SBILI_MGDL_TO_UMOLL)
    }

    fn value(&self) -> (r: Fixed) {
        Bilirubin::value(self)
    }

    fn range(&self) -> (r: ResultRange) {
        let t = serum_bili_ranges_mgdl().scaled(SBILI_MGDL_TO_UMOLL);
        select_range(Bilirubin::value(self), &t)
    }
}

/// Converting a bilirubin measurement to any unit of its kind and back gives the value
/// exactly: each conversion keeps the count of base steps.
pub proof fn lemma_bilirubin_round_trip<U: BilirubinUnit, V: BilirubinUnit>(
    q: Bilirubin<U>,
    r: Bilirubin<V>,
    s: Bilirubin<U>,
)
    requires
        r.base() == q.base(),
        s.base() == r.base(),
    ensures
        s@ == q@,
{
}

/// A bilirubin value read in any unit is the exact value rounded to the nearest
/// billionth: within half a billionth of it, and so within one part in 10^9 of any
/// value of at least half a unit.
pub proof fn lemma_bilirubin_value_close<U: BilirubinUnit>(q: Bilirubin<U>)
    ensures
        -U::base_steps() <= 2 * (q.base() - U::base_steps() * q@) <= U::base_steps(),
        2 * distance(q.base(), 0) >= NANOS_PER_UNIT * U::base_steps() ==> NANOS_PER_UNIT
            * distance(U::base_steps() * q@, q.base()) <= distance(q.base(), 0),
{
    U::lemma_umol_factor();
    lemma_value_close(q.base(), U::base_steps(), q@);
}

} // verus!
