//! Glomerular filtration rate, reported in mL/min/1.73 m², a unit used for nothing else.

use std::marker::PhantomData;

use vstd::prelude::*;

use crate::fixed::Fixed;
use crate::units::{GfrUnit, Unit};

verus! {

/// The result of a GFR calculation.
#[derive(Debug, PartialEq, Eq)]
pub struct Gfr<U: Unit> {
    value: Fixed,
    unit: PhantomData<U>,
}

impl<U: Unit> Clone for Gfr<U> {
    fn clone(&self) -> (r: Self)
        ensures
            r == *self,
    {
        *self
    }
}

impl<U: Unit> Copy for Gfr<U> {}

impl<U: Unit> View for Gfr<U> {
    type V = int;

    /// The value in billionths of `U`.
    closed spec fn view(&self) -> int {
        self.value@
    }
}

impl<U: Unit> Gfr<U> {
    /// A GFR of `value` in `U`.
    pub fn new(value: Fixed) -> (r: Self)
        ensures
            r@ == value@,
    {
        Gfr { value, unit: PhantomData }
    }

    /// The value in `U`.
    pub fn value(&self) -> (r: Fixed)
        ensures
            r@ == self@,
    {
        self.value
    }
}

/// Builds GFR results from plain numbers.
pub trait GfrExt {
    fn to_gfr(value: Fixed) -> (r: Gfr<GfrUnit>)
        ensures
            r@ == value@,
    {
        Gfr::new(value)
    }
}

impl GfrExt for Fixed {

}

} // verus!
