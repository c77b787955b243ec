//! Sodium units: sodium is monovalent, so mEq/L and mmol/L are the same number.

use vstd::prelude::*;

use super::{MeqL, MmolL, Unit};
use crate::fixed::{fits, lemma_unit_factor, scale, unscale, valid_factor, Fixed};

verus! {

/// A unit in which sodium can be given, with its conversions to and from mmol/L.
pub trait SodiumUnit: Unit {
    /// One of this unit, in mmol/L, as a fraction.
    spec fn mmol_factor() -> (u64, u64);

    /// Base steps in one billionth of this unit. Every unit of the kind is a whole number of
    /// the same base steps, so a measurement is held exactly as a count of them in any unit,
    /// and the ratio of two units' steps is the factor between them.
    spec fn base_steps() -> int;

    /// The factor is positive and within the range that conversions accept, and so is
    /// the unit's count of base steps.
    proof fn lemma_mmol_factor()
        ensures
            valid_factor(Self::mmol_factor()),
            0 < Self::base_steps() <= 1_000_000_000,
    ;

    /// [`Self::base_steps`], at run time.
    fn base_steps_value() -> (w: u64)
        ensures
            w == Self::base_steps(),
    ;

    /// [`Self::mmol_factor`], at run time.
    fn mmol_factor_pair() -> (f: (u64, u64))
        ensures
            f == Self::mmol_factor(),
    ;

    /// A value in this unit, in mmol/L.
    fn to_mmol_l(val: Fixed) -> (r: Fixed)
        requires
            fits(scale(val@, Self::mmol_factor())),
        ensures
            r@ == scale(val@, Self::mmol_factor()),
    ;

    /// A value in mmol/L, in this unit.
    fn from_mmol_l(val: Fixed) -> (r: Fixed)
        requires
            fits(unscale(val@, Self::mmol_factor())),
        ensures
            r@ == unscale(val@, Self::mmol_factor()),
    ;
}

impl SodiumUnit for MeqL {
    open spec fn mmol_factor() -> (u64, u64) {
        (1, 1)
    }

    proof fn lemma_mmol_factor() {
        assert(<Self as SodiumUnit>::base_steps() == 1);
    }

    open spec fn base_steps() -> int {
        1
    }

    fn base_steps_value() -> (w: u64) {
        1
    }

    fn mmol_factor_pair() -> (f: (u64, u64)) {
        (1, 1)
    }

    fn to_mmol_l(val: Fixed) -> (r: Fixed) {
        proof {
            lemma_unit_factor(val@);
        }
        val
    }

    fn from_mmol_l(val: Fixed) -> (r: Fixed) {
        proof {
            lemma_unit_factor(val@);
        }
        val
    }
}

impl SodiumUnit for MmolL {
    open spec fn mmol_factor() -> (u64, u64) {
        (1, 1)
    }

    proof fn lemma_mmol_factor() {
        assert(<Self as SodiumUnit>::base_steps() == 1);
    }

    open spec fn base_steps() -> int {
        1
    }

    fn base_steps_value() -> (w: u64) {
        1
    }

    fn mmol_factor_pair() -> (f: (u64, u64)) {
        (1, 1)
    }

    fn to_mmol_l(val: Fixed) -> (r: Fixed) {
        proof {
            lemma_unit_factor(val@);
        }
        val
    }

    fn from_mmol_l(val: Fixed) -> (r: Fixed) {
        proof {
            lemma_unit_factor(val@);
        }
        val
    }
}

} // verus!
