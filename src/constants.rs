//! Conversion factors used by the measurement kinds.
//!
//! Each factor is an exact fraction `(numerator, denominator)`: multiply a value
//! in the first unit by it to get the value in the second. Each inverse is the
//! same pair swapped, so a factor and its inverse cannot drift apart.

use vstd::prelude::*;

verus! {

/// Glucose: one mmol/L is 18 mg/dL.
pub const GLU_MMOLL_TO_MGDL: (u64, u64) = (18, 1);

/// Glucose: mg/dL to mmol/L, the inverse of [`GLU_MMOLL_TO_MGDL`].
pub const GLU_MGDL_TO_MMOLL: (u64, u64) = (GLU_MMOLL_TO_MGDL.1, GLU_MMOLL_TO_MGDL.0);

/// Creatinine: one mg/dL is 88.4 µmol/L.
pub const SCR_MGDL_TO_UMOLL: (u64, u64) = (884, 10);

/// Creatinine: µmol/L to mg/dL, the inverse of [`SCR_MGDL_TO_UMOLL`].
pub const SCR_UMOLL_TO_MGDL: (u64, u64) = (SCR_MGDL_TO_UMOLL.1, SCR_MGDL_TO_UMOLL.0);

/// Bilirubin: one mg/dL is 17.1 µmol/L.
pub const SBILI_MGDL_TO_UMOLL: (u64, u64) = (171, 10);

/// Bilirubin: µmol/L to mg/dL, the inverse of [`SBILI_MGDL_TO_UMOLL`].
pub const SBILI_UMOLL_TO_MGDL: (u64, u64) = (SBILI_MGDL_TO_UMOLL.1, SBILI_MGDL_TO_UMOLL.0);

/// Weight: one pound is 0.45359237 kg.
pub const LB_TO_KG: (u64, u64) = (45_359_237, 100_000_000);

/// Weight: kilograms to pounds, the inverse of [`LB_TO_KG`].
pub const KG_TO_LB: (u64, u64) = (LB_TO_KG.1, LB_TO_KG.0);

/// Height: one foot is 0.3048 m.
pub const FT_TO_M: (u64, u64) = (3048, 10_000);

/// Height: metres to feet, the inverse of [`FT_TO_M`].
pub const M_TO_FT: (u64, u64) = (FT_TO_M.1, FT_TO_M.0);

} // verus!
