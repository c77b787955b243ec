//! INR, the international normalized ratio of a sample's prothrombin time to that of a
//! control. It has no unit; [`InrUnit`] stands in its place so that it has the form of
//! other lab values.

use std::marker::PhantomData;

use vstd::prelude::*;

use crate::fixed::Fixed;
use crate::units::{InrUnit, Unit};

verus! {

/// An INR (international normalized ratio for prothrombin time) measurement.
#[derive(Debug, PartialEq, Eq)]
pub struct Inr<U: Unit> {
    value: Fixed,
    unit: PhantomData<U>,
}

impl<U: Unit> Clone for Inr<U> {
    fn clone(&self) -> (r: Self)
        ensures
            r == *self,
    {
        *self
    }
}

impl<U: Unit> Copy for Inr<U> {}

impl<U: Unit> View for Inr<U> {
    type V = int;

    /// The value in billionths of `U`.
    closed spec fn view(&self) -> int {
        self.value@
    }
}

impl<U: Unit> Inr<U> {
    /// An INR measurement of `value`.
    pub fn new(value: Fixed) -> (r: Self)
        ensures
            r@ == value@,
    {
        Inr { value, unit: PhantomData }
    }

    /// The value in `U`.
    pub fn value(&self) -> (r: Fixed)
        ensures
            r@ == self@,
    {
        self.value
    }
}

/// Builds INR measurements from plain numbers.
pub trait InrExt {
    fn inr(self) -> Inr<InrUnit>;
}

impl InrExt for Fixed {
    fn inr(self) -> (r: Inr<InrUnit>)
        ensures
            r@ == self@,
    {
        Inr::new(self)
    }
}

} // verus!
