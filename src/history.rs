//! Historic factors that some calculations take into account, such as age and sex.

use vstd::prelude::*;

use crate::fixed::Fixed;

verus! {

/// Age in years.
#[derive(Debug, Clone, Copy, PartialEq, Eq, Structural)]
pub struct Years(pub Fixed);

/// Closest physiologic sex, used only to pick a formula's coefficients.
#[derive(Debug, Clone, Copy, PartialEq, Eq, Structural)]
pub enum Gender {
    Female,
    Male,
}

} // verus!
