//! Measurements of vital signs: weight, height, and the body-mass index built from them.

use std::marker::PhantomData;

use vstd::prelude::*;

use crate::constants::FT_TO_M;
use crate::fixed::{
    distance, fits, Fixed, lemma_product_bound, lemma_round_div_close, lemma_value_close,
    lemma_whole_steps, NANOS_PER_UNIT, round_div, round_div_wide,
};
use crate::units::vitals::{HeightUnit, WeightUnit};
use crate::units::{Foot, Kg, KgM2, Lb, Meter, Unit};

verus! {

/// A body weight.
///
/// Held exactly as a count of the kind's base steps, so converting between units loses
/// nothing; only reading the value in a unit rounds, to the nearest billionth.
#[derive(Debug, PartialEq, Eq)]
pub struct Weight<U: WeightUnit> {
    base: i128,
    unit: PhantomData<U>,
}

impl<U: WeightUnit> Clone for Weight<U> {
    fn clone(&self) -> (r: Self)
        ensures
            r == *self,
    {
        *self
    }
}

impl<U: WeightUnit> Copy for Weight<U> {}

impl<U: WeightUnit> View for Weight<U> {
    type V = int;

    /// The value in billionths of `U`, to the nearest billionth.
    open spec fn view(&self) -> int {
        round_div(self.base(), U::base_steps())
    }
}

impl<U: WeightUnit> Weight<U> {
    /// The count of base steps stays within what a value given in billionths can make,
    /// and the value in `U` can be read as a `Fixed`.
    #[verifier::type_invariant]
    spec fn well_formed(self) -> bool {
        &&& -0x1_0000_0000_0000_0000_0000_0000_0000 <= self.base
        &&& self.base <= 0x1_0000_0000_0000_0000_0000_0000_0000
        &&& fits(round_div(self.base as int, U::base_steps()))
    }

    /// The measurement as a count of the kind's base steps.
    pub closed spec fn base(self) -> int {
        self.base as int
    }

    /// A weight of `value` in `U`.
    pub fn new(value: Fixed) -> (r: Self)
        ensures
            r.base() == value@ * U::base_steps(),
            r@ == value@,
    {
        proof {
            U::lemma_kg_factor();
            lemma_product_bound(value@, U::base_steps());
            lemma_whole_steps(value@, U::base_steps());
        }
        let steps = U::base_steps_value();
        Weight { base: value.nanos as i128 * steps as i128, unit: PhantomData }
    }

    /// The value in `U`, to the nearest billionth.
    pub fn value(&self) -> (r: Fixed)
        ensures
            r@ == self@,
    {
        proof {
            use_type_invariant(self);
            U::lemma_kg_factor();
        }
        let steps = U::base_steps_value();
        Fixed::from_nanos(round_div_wide(self.base, steps as i128) as i64)
    }

    /// The same measurement in `V`: the count of base steps is kept as it is.
    pub fn convert_to<V: WeightUnit>(self) -> (r: Weight<V>)
        requires
            fits(round_div(self.base(), V::base_steps())),
        ensures
            r.base() == self.base(),
            r@ == round_div(self.base(), V::base_steps()),
    {
        proof {
            use_type_invariant(&self);
        }
        Weight { base: self.base, unit: PhantomData }
    }
}

/// Builds weight measurements from plain numbers.
pub trait WeightExt {
    fn weight_kg(self) -> Weight<Kg>;

    fn weight_lb(self) -> Weight<Lb>;
}

impl WeightExt for Fixed {
    fn weight_kg(self) -> (r: Weight<Kg>)
        ensures
            r@ == self@,
    {
        Weight::new(self)
    }

    fn weight_lb(self) -> (r: Weight<Lb>)
        ensures
            r@ == self@,
    {
        Weight::new(self)
    }
}

/// Converting a weight measurement to any unit of its kind and back gives the value
/// exactly: each conversion keeps the count of base steps.
pub proof fn lemma_weight_round_trip<U: WeightUnit, V: WeightUnit>(
    q: Weight<U>,
    r: Weight<V>,
    s: Weight<U>,
)
    requires
        r.base() == q.base(),
        s.base() == r.base(),
    ensures
        s@ == q@,
{
}

/// A weight value read in any unit is the exact value rounded to the nearest
/// billionth: within half a billionth of it, and so within one part in 10^9 of any
/// value of at least half a unit.
pub proof fn lemma_weight_value_close<U: WeightUnit>(q: Weight<U>)
    ensures
        -U::base_steps() <= 2 * (q.base() - U::base_steps() * q@) <= U::base_steps(),
        2 * distance(q.base(), 0) >= NANOS_PER_UNIT * U::base_steps() ==> NANOS_PER_UNIT
            * distance(U::base_steps() * q@, q.base()) <= distance(q.base(), 0),
{
    U::lemma_kg_factor();
    lemma_value_close(q.base(), U::base_steps(), q@);
}

/// A body height.
///
/// Held exactly as a count of the kind's base steps, so converting between units loses
/// nothing; only reading the value in a unit rounds, to the nearest billionth.
#[derive(Debug, PartialEq, Eq)]
pub struct Height<U: HeightUnit> {
    base: i128,
    unit: PhantomData<U>,
}

impl<U: HeightUnit> Clone for Height<U> {
    fn clone(&self) -> (r: Self)
        ensures
            r == *self,
    {
        *self
    }
}

impl<U: HeightUnit> Copy for Height<U> {}

impl<U: HeightUnit> View for Height<U> {
    type V = int;

    /// The value in billionths of `U`, to the nearest billionth.
    open spec fn view(&self) -> int {
        round_div(self.base(), U::base_steps())
    }
}

impl<U: HeightUnit> Height<U> {
    /// The count of base steps stays within what a value given in billionths can make,
    /// and the value in `U` can be read as a `Fixed`.
    #[verifier::type_invariant]
    spec fn well_formed(self) -> bool {
        &&& -0x1_0000_0000_0000_0000_0000_0000_0000 <= self.base
        &&& self.base <= 0x1_0000_0000_0000_0000_0000_0000_0000
        &&& fits(round_div(self.base as int, U::base_steps()))
    }

    /// The measurement as a count of the kind's base steps.
    pub closed spec fn base(self) -> int {
        self.base as int
    }

    /// A height of `value` in `U`.
    pub fn new(value: Fixed) -> (r: Self)
        ensures
            r.base() == value@ * U::base_steps(),
            r@ == value@,
    {
        proof {
            U::lemma_m_factor();
            lemma_product_bound(value@, U::base_steps());
            lemma_whole_steps(value@, U::base_steps());
        }
        let steps = U::base_steps_value();
        Height { base: value.nanos as i128 * steps as i128, unit: PhantomData }
    }

    /// The value in `U`, to the nearest billionth.
    pub fn value(&self) -> (r: Fixed)
        ensures
            r@ == self@,
    {
        proof {
            use_type_invariant(self);
            U::lemma_m_factor();
        }
        let steps = U::base_steps_value();
        Fixed::from_nanos(round_div_wide(self.base, steps as i128) as i64)
    }

    /// The same measurement in `V`: the count of base steps is kept as it is.
    pub fn convert_to<V: HeightUnit>(self) -> (r: Height<V>)
        requires
            fits(round_div(self.base(), V::base_steps())),
        ensures
            r.base() == self.base(),
            r@ == round_div(self.base(), V::base_steps()),
    {
        proof {
            use_type_invariant(&self);
        }
        Height { base: self.base, unit: PhantomData }
    }
}

/// Builds height measurements from plain numbers.
pub trait HeightExt {
    fn height_in_m(self) -> Height<Meter>;

    fn height_in_ft(self) -> Height<Foot>;
}

impl HeightExt for Fixed {
    fn height_in_m(self) -> (r: Height<Meter>)
        ensures
            r@ == self@,
    {
        Height::new(self)
    }

    fn height_in_ft(self) -> (r: Height<Foot>)
        ensures
            r@ == self@,
    {
        Height::new(self)
    }
}

/// Converting a height measurement to any unit of its kind and back gives the value
/// exactly: each conversion keeps the count of base steps.
pub proof fn lemma_height_round_trip<U: HeightUnit, V: HeightUnit>(
    q: Height<U>,
    r: Height<V>,
    s: Height<U>,
)
    requires
        r.base() == q.base(),
        s.base() == r.base(),
    ensures
        s@ == q@,
{
}

/// A height value read in any unit is the exact value rounded to the nearest
/// billionth: within half a billionth of it, and so within one part in 10^9 of any
/// value of at least half a unit.
pub proof fn lemma_height_value_close<U: HeightUnit>(q: Height<U>)
    ensures
        -U::base_steps() <= 2 * (q.base() - U::base_steps() * q@) <= U::base_steps(),
        2 * distance(q.base(), 0) >= NANOS_PER_UNIT * U::base_steps() ==> NANOS_PER_UNIT
            * distance(U::base_steps() * q@, q.base()) <= distance(q.base(), 0),
{
    U::lemma_m_factor();
    lemma_value_close(q.base(), U::base_steps(), q@);
}

impl Height<Meter> {
    /// Create a height from feet and inches. An inch is 0.0254 m, a whole number of the
    /// height's base steps, so the height is held exactly.
    pub fn from_ft_and_in(feet: u8, inches: Fixed) -> (r: Height<Meter>)
        ensures
            r.base() == (12 * feet * NANOS_PER_UNIT + inches@) * (FT_TO_M.0 / 12),
    {
        let total_inches = feet as i128 * 12_000_000_000 + inches.nanos as i128;
        let per_inch = FT_TO_M.0 as i128 / 12;
        assert(per_inch == 254);
        let base = total_inches * per_inch;
        proof {
            lemma_round_div_close(base as int, 10_000);
            let m = round_div(base as int, 10_000);
            assert(fits(m)) by (nonlinear_arith)
                requires
                    -10_000 <= 2 * (base - 10_000 * m) <= 10_000,
                    -0x100_0000_0000_0000_0000 <= base <= 0x100_0000_0000_0000_0000,
            ;
        }
        Height { base, unit: PhantomData }
    }
}

/// A body-mass index.
#[derive(Debug, PartialEq, Eq)]
pub struct Bmi<U: Unit> {
    value: Fixed,
    unit: PhantomData<U>,
}

impl<U: Unit> Clone for Bmi<U> {
    fn clone(&self) -> (r: Self)
        ensures
            r == *self,
    {
        *self
    }
}

impl<U: Unit> Copy for Bmi<U> {}

impl<U: Unit> View for Bmi<U> {
    type V = int;

    /// The value in billionths of `U`.
    closed spec fn view(&self) -> int {
        self.value@
    }
}

impl<U: Unit> Bmi<U> {
    /// A body-mass index of `value` in `U`.
    pub fn new(value: Fixed) -> (r: Self)
        ensures
            r@ == value@,
    {
        Bmi { value, unit: PhantomData }
    }

    /// The value in `U`.
    pub fn value(&self) -> (r: Fixed)
        ensures
            r@ == self@,
    {
        self.value
    }
}

/// Builds body-mass index measurements from plain numbers.
pub trait BmiExt {
    fn to_bmi(self) -> Bmi<KgM2>;
}

impl BmiExt for Fixed {
    fn to_bmi(self) -> (r: Bmi<KgM2>)
        ensures
            r@ == self@,
    {
        Bmi::new(self)
    }
}

} // verus!
