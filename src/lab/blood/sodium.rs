//! Serum sodium.
//!
//! Sodium (Na+) is monovalent, so milliequivalents and millimoles are the same number:
//! no factor is needed between SI and conventional units.

use std::marker::PhantomData;

use vstd::prelude::*;

use crate::fixed::{
    distance, fits, Fixed, lemma_product_bound, lemma_value_close, lemma_whole_steps,
    NANOS_PER_UNIT, round_div, round_div_wide,
};
use crate::lab::{select_range, thresholds_of, NumericRanged, RangeThreshold, ResultRange};
use crate::units::sodium::SodiumUnit;
use crate::units::{MeqL, MmolL};

verus! {

/// A serum sodium measurement.
///
/// Held exactly as a count of the kind's base steps, so converting between units loses
/// nothing; only reading the value in a unit rounds, to the nearest billionth.
#[derive(Debug, PartialEq, Eq)]
pub struct Sodium<U: SodiumUnit> {
    base: i128,
    unit: PhantomData<U>,
}

impl<U: SodiumUnit> Clone for Sodium<U> {
    fn clone(&self) -> (r: Self)
        ensures
            r == *self,
    {
        *self
    }
}

impl<U: SodiumUnit> Copy for Sodium<U> {}

impl<U: SodiumUnit> View for Sodium<U> {
    type V = int;

    /// The value in billionths of `U`, to the nearest billionth.
    open spec fn view(&self) -> int {
        round_div(self.base(), U::base_steps())
    }
}

impl<U: SodiumUnit> Sodium<U> {
    /// The count of base steps stays within what a value given in billionths can make,
    /// and the value in `U` can be read as a `Fixed`.
    #[verifier::type_invariant]
    spec fn well_formed(self) -> bool {
        &&& -0x1_0000_0000_0000_0000_0000_0000_0000 <= self.base
        &&& self.base <= 0x1_0000_0000_0000_0000_0000_0000_0000
        &&& fits(round_div(self.base as int, U::base_steps()))
    }

    /// The measurement as a count of the kind's base steps.
    pub closed spec fn base(self) -> int {
        self.base as int
    }

    /// A sodium measurement of `value` in `U`.
    pub fn new(value: Fixed) -> (r: Self)
        ensures
            r.base() == value@ * U::base_steps(),
            r@ == value@,
    {
        proof {
            U::lemma_mmol_factor();
            lemma_product_bound(value@, U::base_steps());
            lemma_whole_steps(value@, U::base_steps());
        }
        let steps = U::base_steps_value();
        Sodium { base: value.nanos as i128 * steps as i128, unit: PhantomData }
    }

    /// The value in `U`, to the nearest billionth.
    pub fn value(&self) -> (r: Fixed)
        ensures
            r@ == self@,
    {
        proof {
            use_type_invariant(self);
            U::lemma_mmol_factor();
        }
        let steps = U::base_steps_value();
        Fixed::from_nanos(round_div_wide(self.base, steps as i128) as i64)
    }

    /// The same measurement in `V`: the count of base steps is kept as it is.
    pub fn convert_to<V: SodiumUnit>(self) -> (r: Sodium<V>)
        requires
            fits(round_div(self.base(), V::base_steps())),
        ensures
            r.base() == self.base(),
            r@ == round_div(self.base(), V::base_steps()),
    {
        proof {
            use_type_invariant(&self);
        }
        Sodium { base: self.base, unit: PhantomData }
    }
}

/// Alert thresholds for serum sodium, the same in mEq/L and mmol/L: 130, 135, 145 and 150.
pub open spec fn na_serum_thresholds_spec() -> RangeThreshold {
    thresholds_of(130_000_000_000, 135_000_000_000, 145_000_000_000, 150_000_000_000)
}

/// The cut points of [`na_serum_thresholds_spec`], to classify values with.
pub fn na_serum_thresholds() -> (r: RangeThreshold)
    ensures
        r == na_serum_thresholds_spec(),
{
    RangeThreshold::new(130_000_000_000, 135_000_000_000, 145_000_000_000, 150_000_000_000)
}

/// Builds sodium measurements from plain numbers.
pub trait SerumSodiumExt {
    fn na_serum_meq(self) -> Sodium<MeqL>;

    fn na_serum_mmol(self) -> Sodium<MmolL>;
}

impl SerumSodiumExt for Fixed {
    fn na_serum_meq(self) -> (r: Sodium<MeqL>)
        ensures
            r@ == self@,
    {
        Sodium::new(self)
    }

    fn na_serum_mmol(self) -> (r: Sodium<MmolL>)
        ensures
            r@ == self@,
    {
        Sodium::new(self)
    }
}

impl NumericRanged<MeqL> for Sodium<MeqL> {
    open spec fn measured(&self) -> int {
        self@
    }

    open spec fn limits() -> RangeThreshold {
        na_serum_thresholds_spec()
    }

    fn value(&self) -> (r: Fixed) {
        Sodium::value(self)
    }

    fn range(&self) -> (r: ResultRange) {
        select_range(Sodium::value(self), &na_serum_thresholds())
    }
}

impl NumericRanged<MmolL> for Sodium<MmolL> {
    open spec fn measured(&self) -> int {
        self@
    }

    open spec fn limits() -> RangeThreshold {
        na_serum_thresholds_spec()
    }

    fn value(&self) -> (r: Fixed) {
        Sodium::value(self)
    }

    fn range(&self) -> (r: ResultRange) {
        select_range(Sodium::value(self), &na_serum_thresholds())
    }
}

/// Converting a sodium measurement to any unit of its kind and back gives the value
/// exactly: each conversion keeps the count of base steps.
pub proof fn lemma_sodium_round_trip<U: SodiumUnit, V: SodiumUnit>(
    q: Sodium<U>,
    r: Sodium<V>,
    s: Sodium<U>,
)
    requires
        r.base() == q.base(),
        s.base() == r.base(),
    ensures
        s@ == q@,
{
}

/// A sodium value read in any unit is the exact value rounded to the nearest
/// billionth: within half a billionth of it, and so within one part in 10^9 of any
/// value of at least half a unit.
pub proof fn lemma_sodium_value_close<U: SodiumUnit>(q: Sodium<U>)
    ensures
        -U::base_steps() <= 2 * (q.base() - U::base_steps() * q@) <= U::base_steps(),
        2 * distance(q.base(), 0) >= NANOS_PER_UNIT * U::base_steps() ==> NANOS_PER_UNIT
            * distance(U::base_steps() * q@, q.base()) <= distance(q.base(), 0),
{
    U::lemma_mmol_factor();
    lemma_value_close(q.base(), U::base_steps(), q@);
}

} // verus!
