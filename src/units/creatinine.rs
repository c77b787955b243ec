//! Creatinine units: µmol/L is canonical; one mg/dL is 88.4 µmol/L.

use vstd::prelude::*;

use super::{MgdL, UmolL, Unit};
use crate::fixed::{fits, lemma_unit_factor, scale, unscale, valid_factor, Fixed};
use crate::constants::SCR_MGDL_TO_UMOLL;

verus! {

/// A unit in which creatinine can be given, with its conversions to and from µmol/L.
pub trait CreatinineUnit: Unit {
    /// One of this unit, in µmol/L, as a fraction.
    spec fn umol_factor() -> (u64, u64);

    /// Base steps in one billionth of this unit. Every unit of the kind is a whole number of
    /// the same base steps, so a measurement is held exactly as a count of them in any unit,
    /// and the ratio of two units' steps is the factor between them.
    spec fn base_steps() -> int;

    /// The factor is positive and within the range that conversions accept, and so is
    /// the unit's count of base steps.
    proof fn lemma_umol_factor()
        ensures
            valid_factor(Self::umol_factor()),
            0 < Self::base_steps() <= 1_000_000_000,
    ;

    /// [`Self::base_steps`], at run time.
    fn base_steps_value() -> (w: u64)
        ensures
            w == Self::base_steps(),
    ;

    /// [`Self::umol_factor`], at run time.
    fn umol_factor_pair() -> (f: (u64, u64))
        ensures
            f == Self::umol_factor(),
    ;

    /// A value in this unit, in µmol/L.
    fn to_umol_l(val: Fixed) -> (r: Fixed)
        requires
            fits(scale(val@, Self::umol_factor())),
        ensures
            r@ == scale(val@, Self::umol_factor()),
    ;

    /// A value in µmol/L, in this unit.
    fn from_umol_l(val: Fixed) -> (r: Fixed)
        requires
            fits(unscale(val@, Self::umol_factor())),
        ensures
            r@ == unscale(val@, Self::umol_factor()),
    ;
}

impl CreatinineUnit for MgdL {
    open spec fn umol_factor() -> (u64, u64) {
        SCR_MGDL_TO_UMOLL
    }

    proof fn lemma_umol_factor() {
        assert(<Self as CreatinineUnit>::base_steps() == SCR_MGDL_TO_UMOLL.0 as int);
    }

    open spec fn base_steps() -> int {
        SCR_MGDL_TO_UMOLL.0 as int
    }

    fn base_steps_value() -> (w: u64) {
        SCR_MGDL_TO_UMOLL.0
    }

    fn umol_factor_pair() -> (f: (u64, u64)) {
        SCR_MGDL_TO_UMOLL
    }

    fn to_umol_l(val: Fixed) -> (r: Fixed) {
        val.scaled(SCR_MGDL_TO_UMOLL)
    }

    fn from_umol_l(val: Fixed) -> (r: Fixed) {
        val.unscaled(SCR_MGDL_TO_UMOLL)
    }
}

impl CreatinineUnit for UmolL {
    open spec fn umol_factor() -> (u64, u64) {
        (1, 1)
    }

    proof fn lemma_umol_factor() {
        assert(<Self as CreatinineUnit>::base_steps() == SCR_MGDL_TO_UMOLL.1 as int);
    }

    open spec fn base_steps() -> int {
        SCR_MGDL_TO_UMOLL.1 as int
    }

    fn base_steps_value() -> (w: u64) {
        SCR_MGDL_TO_UMOLL.1
    }

    fn umol_factor_pair() -> (f: (u64, u64)) {
        (1, 1)
    }

    fn to_umol_l(val: Fixed) -> (r: Fixed) {
        proof {
            lemma_unit_factor(val@);
        }
        val
    }

    fn from_umol_l(val: Fixed) -> (r: Fixed) {
        proof {
            lemma_unit_factor(val@);
        }
        val
    }
}

} // verus!
