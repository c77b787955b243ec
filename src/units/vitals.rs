//! Units of weight (kilograms canonical) and height (metres canonical).

use vstd::prelude::*;

use super::{Foot, Kg, Lb, Meter, Unit};
use crate::fixed::{fits, lemma_unit_factor, scale, unscale, valid_factor, Fixed};
use crate::constants::{FT_TO_M, LB_TO_KG};

verus! {

/// A unit in which a weight can be given, with its conversions to and from kilograms.
pub trait WeightUnit: Unit {
    /// One of this unit, in kilograms, as a fraction.
    spec fn kg_factor() -> (u64, u64);

    /// Base steps in one billionth of this unit. Every unit of the kind is a whole number of
    /// the same base steps, so a measurement is held exactly as a count of them in any unit,
    /// and the ratio of two units' steps is the factor between them.
    spec fn base_steps() -> int;

    /// The factor is positive and within the range that conversions accept, and so is
    /// the unit's count of base steps.
    proof fn lemma_kg_factor()
        ensures
            valid_factor(Self::kg_factor()),
            0 < Self::base_steps() <= 1_000_000_000,
    ;

    /// [`Self::base_steps`], at run time.
    fn base_steps_value() -> (w: u64)
        ensures
            w == Self::base_steps(),
    ;

    /// [`Self::kg_factor`], at run time.
    fn kg_factor_pair() -> (f: (u64, u64))
        ensures
            f == Self::kg_factor(),
    ;

    /// A value in this unit, in kilograms.
    fn to_kg(val: Fixed) -> (r: Fixed)
        requires
            fits(scale(val@, Self::kg_factor())),
        ensures
            r@ == scale(val@, Self::kg_factor()),
    ;

    /// A value in kilograms, in this unit.
    fn from_kg(val: Fixed) -> (r: Fixed)
        requires
            fits(unscale(val@, Self::kg_factor())),
        ensures
            r@ == unscale(val@, Self::kg_factor()),
    ;
}

impl WeightUnit for Lb {
    open spec fn kg_factor() -> (u64, u64) {
        LB_TO_KG
    }

    proof fn lemma_kg_factor() {
        assert(<Self as WeightUnit>::base_steps() == LB_TO_KG.0 as int);
    }

    open spec fn base_steps() -> int {
        LB_TO_KG.0 as int
    }

    fn base_steps_value() -> (w: u64) {
        LB_TO_KG.0
    }

    fn kg_factor_pair() -> (f: (u64, u64)) {
        LB_TO_KG
    }

    fn to_kg(val: Fixed) -> (r: Fixed) {
        val.scaled(LB_TO_KG)
    }

    fn from_kg(val: Fixed) -> (r: Fixed) {
        val.unscaled(LB_TO_KG)
    }
}

impl WeightUnit for Kg {
    open spec fn kg_factor() -> (u64, u64) {
        (1, 1)
    }

    proof fn lemma_kg_factor() {
        assert(<Self as WeightUnit>::base_steps() == LB_TO_KG.1 as int);
    }

    open spec fn base_steps() -> int {
        LB_TO_KG.1 as int
    }

    fn base_steps_value() -> (w: u64) {
        LB_TO_KG.1
    }

    fn kg_factor_pair() -> (f: (u64, u64)) {
        (1, 1)
    }

    fn to_kg(val: Fixed) -> (r: Fixed) {
        proof {
            lemma_unit_factor(val@);
        }
        val
    }

    fn from_kg(val: Fixed) -> (r: Fixed) {
        proof {
            lemma_unit_factor(val@);
        }
        val
    }
}

/// A unit in which a height can be given, with its conversions to and from metres.
pub trait HeightUnit: Unit {
    /// One of this unit, in metres, as a fraction.
    spec fn m_factor() -> (u64, u64);

    /// Base steps in one billionth of this unit. Every unit of the kind is a whole number of
    /// the same base steps, so a measurement is held exactly as a count of them in any unit,
    /// and the ratio of two units' steps is the factor between them.
    spec fn base_steps() -> int;

    /// The factor is positive and within the range that conversions accept, and so is
    /// the unit's count of base steps.
    proof fn lemma_m_factor()
        ensures
            valid_factor(Self::m_factor()),
            0 < Self::base_steps() <= 1_000_000_000,
    ;

    /// [`Self::base_steps`], at run time.
    fn base_steps_value() -> (w: u64)
        ensures
            w == Self::base_steps(),
    ;

    /// [`Self::m_factor`], at run time.
    fn m_factor_pair() -> (f: (u64, u64))
        ensures
            f == Self::m_factor(),
    ;

    /// A value in this unit, in metres.
    fn to_m(val: Fixed) -> (r: Fixed)
        requires
            fits(scale(val@, Self::m_factor())),
        ensures
            r@ == scale(val@, Self::m_factor()),
    ;

    /// A value in metres, in this unit.
    fn from_m(val: Fixed) -> (r: Fixed)
        requires
            fits(unscale(val@, Self::m_factor())),
        ensures
            r@ == unscale(val@, Self::m_factor()),
    ;
}

impl HeightUnit for Foot {
    open spec fn m_factor() -> (u64, u64) {
        FT_TO_M
    }

    proof fn lemma_m_factor() {
        assert(<Self as HeightUnit>::base_steps() == FT_TO_M.0 as int);
    }

    open spec fn base_steps() -> int {
        FT_TO_M.0 as int
    }

    fn base_steps_value() -> (w: u64) {
        FT_TO_M.0
    }

    fn m_factor_pair() -> (f: (u64, u64)) {
        FT_TO_M
    }

    fn to_m(val: Fixed) -> (r: Fixed) {
        val.scaled(FT_TO_M)
    }

    fn from_m(val: Fixed) -> (r: Fixed) {
        val.unscaled(FT_TO_M)
    }
}

impl HeightUnit for Meter {
    open spec fn m_factor() -> (u64, u64) {
        (1, 1)
    }

    proof fn lemma_m_factor() {
        assert(<Self as HeightUnit>::base_steps() == FT_TO_M.1 as int);
    }

    open spec fn base_steps() -> int {
        FT_TO_M.1 as int
    }

    fn base_steps_value() -> (w: u64) {
        FT_TO_M.1
    }

    fn m_factor_pair() -> (f: (u64, u64)) {
        (1, 1)
    }

    fn to_m(val: Fixed) -> (r: Fixed) {
        proof {
            lemma_unit_factor(val@);
        }
        val
    }

    fn from_m(val: Fixed) -> (r: Fixed) {
        proof {
            lemma_unit_factor(val@);
        }
        val
    }
}

} // verus!
