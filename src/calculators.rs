//! Clinical calculations on unit-tagged measurements.
//!
//! Each calculation converts its inputs to the units its published formula uses,
//! so callers may give any supported unit and get the same answer.
//! SI units are canonical wherever a formula allows.

use vstd::prelude::*;

use crate::fixed::{fits, lemma_whole_steps, round_div, round_div_wide, Fixed, NANOS_PER_UNIT};
use crate::history::{Gender, Years};
use crate::lab::blood::bilirubin::Bilirubin;
use crate::lab::blood::creatinine::Creatinine;
use crate::lab::blood::glucose::Glucose;
use crate::lab::blood::inr::Inr;
use crate::lab::blood::sodium::Sodium;
use crate::lab::vitals::{Bmi, Height, Weight};
use crate::units::bilirubin::BilirubinUnit;
use crate::units::creatinine::CreatinineUnit;
use crate::units::glucose::GlucoseUnit;
use crate::units::sodium::SodiumUnit;
use crate::units::vitals::{HeightUnit, WeightUnit};
use crate::units::{InrUnit, Kg, KgM2, MeqL, Meter, MgdL, MmolL, UmolL};

pub mod cha2ds2_va;
pub mod cha2ds2_vasc;

verus! {

/// Glucose at which the Hillier correction takes over from Katz: 22.2 mmol/L, in billionths.
pub const HILLIER_GLUCOSE_MMOLL: i64 = 22_200_000_000;

/// Normal glucose that the sodium correction measures from: 5.6 mmol/L, in billionths.
pub const BASELINE_GLUCOSE_MMOLL: i64 = 5_600_000_000;

/// Katz: corrected Na rises 0.29 mmol/L per mmol/L of glucose, in hundredths.
pub const KATZ_HUNDREDTHS: i64 = 29;

/// Hillier: corrected Na rises 0.43 mmol/L per mmol/L of glucose, in hundredths.
pub const HILLIER_HUNDREDTHS: i64 = 43;

/// Sodium corrected for glucose, both in billionths of mmol/L: Katz's coefficient below
/// 22.2 mmol/L of glucose, Hillier's from there on, the shift rounded to the nearest billionth.
pub open spec fn corrected_sodium_mmol(na: int, glu: int) -> int {
    let coefficient = if glu < HILLIER_GLUCOSE_MMOLL {
        KATZ_HUNDREDTHS
    } else {
        HILLIER_HUNDREDTHS
    };
    na + round_div(coefficient * (glu - BASELINE_GLUCOSE_MMOLL), 100)
}

/// A sodium measurement in base steps, in billionths of mmol/L.
pub open spec fn sodium_mmol(base: int) -> int {
    round_div(base, <MmolL as SodiumUnit>::base_steps())
}

/// A glucose measurement in base steps, in billionths of mmol/L.
pub open spec fn glucose_mmol(base: int) -> int {
    round_div(base, <MmolL as GlucoseUnit>::base_steps())
}

/// Sodium of `na` base steps corrected for glucose of `glu` base steps, in billionths of `N`.
pub open spec fn corrected_sodium<N: SodiumUnit>(na: int, glu: int) -> int {
    round_div(
        corrected_sodium_mmol(sodium_mmol(na), glucose_mmol(glu)) * <MmolL as SodiumUnit>::base_steps(),
        N::base_steps(),
    )
}

/// Sodium correction for hyperglycemia.
///
/// Hyperglycemia causes osmotic dilutional hyponatremia. This uses the Katz formula for
/// serum glucose up to 22.2 mmol/L (400 mg/dL) and the Hillier formula for more severe
/// hyperglycemia:
///
/// * Katz: corrected Na = measured Na + 0.29 × (glucose − 5.6)
/// * Hillier: corrected Na = measured Na + 0.43 × (glucose − 5.6)
///
/// Both inputs are taken to mmol/L; the result is given back in the sodium's own unit.
pub fn correct_na_for_glucose<N: SodiumUnit, G: GlucoseUnit>(
    sodium: Sodium<N>,
    glucose: Glucose<G>,
) -> (r: Sodium<N>)
    requires
        fits(sodium_mmol(sodium.base())),
        fits(glucose_mmol(glucose.base())),
        fits(corrected_sodium_mmol(sodium_mmol(sodium.base()), glucose_mmol(glucose.base()))),
        fits(corrected_sodium::<N>(sodium.base(), glucose.base())),
    ensures
        r@ == corrected_sodium::<N>(sodium.base(), glucose.base()),
{
    let na = sodium.convert_to::<MmolL>().value();
    let glu = glucose.convert_to::<MmolL>().value();
    let coefficient: i128 = if glu.nanos < HILLIER_GLUCOSE_MMOLL {
        KATZ_HUNDREDTHS as i128
    } else {
        HILLIER_HUNDREDTHS as i128
    };
    let shift = round_div_wide(coefficient * (glu.nanos as i128 - BASELINE_GLUCOSE_MMOLL as i128), 100);
    let corrected = Fixed::from_nanos((na.nanos as i128 + shift) as i64);
    Sodium::<MmolL>::new(corrected).convert_to::<N>()
}

/// The sodium correction does not depend on the units of its inputs. Glucose of `g`
/// billionths of mmol/L and the same level given in mg/dL, `18 g`, correct a sodium value
/// alike; and a sodium value gives the same corrected number in mEq/L as in mmol/L.
pub proof fn lemma_correction_unit_invariant<N: SodiumUnit>(na: int, g: int, glu: int)
    ensures
        corrected_sodium::<N>(na, (18 * g) * <MgdL as GlucoseUnit>::base_steps())
            == corrected_sodium::<N>(na, g * <MmolL as GlucoseUnit>::base_steps()),
        na * <MeqL as SodiumUnit>::base_steps() == na * <MmolL as SodiumUnit>::base_steps(),
        corrected_sodium::<MeqL>(na, glu) == corrected_sodium::<MmolL>(na, glu),
{
}

/// The inputs of the CKD-EPI 2021 creatinine equation (race-free), ready for its powers:
///
/// eGFR = 142 × `low_ratio`^`alpha` × `high_ratio`^(−1.200) × 0.9938^`age_years` × `sex_multiplier`
#[derive(Debug, Clone, Copy, PartialEq, Eq, Structural)]
pub struct EgfrTerms {
    /// Serum creatinine in mg/dL.
    pub scr_mg_dl: Fixed,
    /// κ: 0.7 mg/dL for women, 0.9 mg/dL for men.
    pub kappa: Fixed,
    /// α: −0.241 for women, −0.302 for men.
    pub alpha: Fixed,
    /// 1.012 for women, 1 for men.
    pub sex_multiplier: Fixed,
    /// min(1, creatinine / κ).
    pub low_ratio: Fixed,
    /// max(1, creatinine / κ).
    pub high_ratio: Fixed,
    /// Age in years.
    pub age_years: Fixed,
}

/// κ, α and the sex multiplier of the 2021 equation, in billionths.
pub open spec fn egfr_sex_constants(sex: Gender) -> (int, int, int) {
    match sex {
        Gender::Female => (700_000_000, -241_000_000, 1_012_000_000),
        Gender::Male => (900_000_000, -302_000_000, 1_000_000_000),
    }
}

/// A creatinine measurement in base steps, in billionths of mg/dL.
pub open spec fn creatinine_mg_dl(base: int) -> int {
    round_div(base, <MgdL as CreatinineUnit>::base_steps())
}

/// A bilirubin measurement in base steps, in billionths of mg/dL.
pub open spec fn bilirubin_mg_dl(base: int) -> int {
    round_div(base, <MgdL as BilirubinUnit>::base_steps())
}

/// Creatinine of `scr` billionths of mg/dL divided by κ, to the nearest billionth.
pub open spec fn egfr_ratio(scr: int, sex: Gender) -> int {
    round_div(scr * NANOS_PER_UNIT, egfr_sex_constants(sex).0)
}

/// The equation's inputs for creatinine of `scr` billionths of mg/dL: the ratio to κ,
/// bounded by one from above and from below.
pub open spec fn egfr_terms_of(scr: int, age: Years, sex: Gender) -> EgfrTerms {
    let (kappa, alpha, mult) = egfr_sex_constants(sex);
    let ratio = egfr_ratio(scr, sex);
    EgfrTerms {
        scr_mg_dl: Fixed { nanos: scr as i64 },
        kappa: Fixed { nanos: kappa as i64 },
        alpha: Fixed { nanos: alpha as i64 },
        sex_multiplier: Fixed { nanos: mult as i64 },
        low_ratio: Fixed { nanos: (if ratio < NANOS_PER_UNIT { ratio } else { NANOS_PER_UNIT as int }) as i64 },
        high_ratio: Fixed { nanos: (if ratio > NANOS_PER_UNIT { ratio } else { NANOS_PER_UNIT as int }) as i64 },
        age_years: age.0,
    }
}

/// The inputs of the CKD-EPI 2021 creatinine-only equation for a creatinine in any unit.
///
/// The creatinine is taken to mg/dL, the unit the equation is published in, and the
/// sex-dependent constants are chosen; what is left is the equation's powers and product.
pub fn egfr_ckd_epi_terms<U: CreatinineUnit>(scr: Creatinine<U>, age: Years, sex: Gender) -> (r: EgfrTerms)
    requires
        fits(creatinine_mg_dl(scr.base())),
        fits(egfr_ratio(creatinine_mg_dl(scr.base()), sex)),
    ensures
        r == egfr_terms_of(creatinine_mg_dl(scr.base()), age, sex),
{
    let (kappa, alpha, sex_mult): (i64, i64, i64) = match sex {
        Gender::Female => (700_000_000, -241_000_000, 1_012_000_000),
        Gender::Male => (900_000_000, -302_000_000, 1_000_000_000),
    };
    let scr_mg_dl = scr.convert_to::<MgdL>().value();
    assert(-0x8000_0000_0000_0000_0000_0000 <= scr_mg_dl.nanos as i128 * 1_000_000_000
        <= 0x8000_0000_0000_0000_0000_0000);
    let ratio = round_div_wide(scr_mg_dl.nanos as i128 * 1_000_000_000, kappa as i128);
    proof {
        crate::fixed::lemma_round_div_close(scr_mg_dl.nanos * 1_000_000_000, kappa as int);
        assert(-0x1000_0000_0000_0000_0000 <= ratio <= 0x1000_0000_0000_0000_0000) by (nonlinear_arith)
            requires
                700_000_000 <= kappa,
                -kappa <= 2 * (scr_mg_dl.nanos * 1_000_000_000 - kappa * ratio) <= kappa,
                -0x8000_0000_0000_0000 <= scr_mg_dl.nanos <= 0x8000_0000_0000_0000,
        ;
    }
    let low = if ratio < NANOS_PER_UNIT as i128 {
        ratio
    } else {
        NANOS_PER_UNIT as i128
    };
    let high = if ratio > NANOS_PER_UNIT as i128 {
        ratio
    } else {
        NANOS_PER_UNIT as i128
    };
    EgfrTerms {
        scr_mg_dl,
        kappa: Fixed::from_nanos(kappa),
        alpha: Fixed::from_nanos(alpha),
        sex_multiplier: Fixed::from_nanos(sex_mult),
        low_ratio: Fixed::from_nanos(low as i64),
        high_ratio: Fixed::from_nanos(high as i64),
        age_years: age.0,
    }
}

/// The equation's inputs do not depend on the unit of the creatinine: `x` billionths of
/// a mg/dL, given in mg/dL or as the same level in µmol/L, give the same terms.
pub proof fn lemma_egfr_creatinine_unit_invariant(x: int, umol: int, age: Years, sex: Gender)
    requires
        umol * <UmolL as CreatinineUnit>::base_steps() == x * <MgdL as CreatinineUnit>::base_steps(),
    ensures
        egfr_terms_of(creatinine_mg_dl(umol * <UmolL as CreatinineUnit>::base_steps()), age, sex)
            == egfr_terms_of(x, age, sex),
        egfr_terms_of(creatinine_mg_dl(x * <MgdL as CreatinineUnit>::base_steps()), age, sex)
            == egfr_terms_of(x, age, sex),
{
    lemma_whole_steps(x, <MgdL as CreatinineUnit>::base_steps());
}

/// Dialysis this many days ago or fewer counts as recent for the MELD score.
pub const MELD_DIALYSIS_WINDOW_DAYS: u32 = 7;

/// Creatinine that recent dialysis stands for in the MELD score: 4 mg/dL, in billionths.
pub const MELD_DIALYSIS_CREATININE: i64 = 4_000_000_000;

/// The lab values of the MELD score after the UNOS floors, in the units its formula uses:
///
/// MELD = round(3.78 ln(bilirubin) + 11.2 ln(INR) + 9.57 ln(creatinine) + 6.43)
#[derive(Debug, Clone, Copy, PartialEq, Eq, Structural)]
pub struct MeldLabs {
    /// Bilirubin in mg/dL, at least 1.
    pub bilirubin_mg_dl: Fixed,
    /// INR as measured: it has no floor.
    pub inr: Fixed,
    /// Creatinine in mg/dL: exactly 4 after recent dialysis, else at least 1.
    pub creatinine_mg_dl: Fixed,
}

/// Whether the last dialysis, if any, was within the last seven days.
pub open spec fn dialysed_recently(days_since_dialysis: Option<u32>) -> bool {
    match days_since_dialysis {
        Some(days) => days <= MELD_DIALYSIS_WINDOW_DAYS,
        None => false,
    }
}

/// A value in billionths, raised to one whole unit if below it.
pub open spec fn at_least_one(n: int) -> int {
    if n < NANOS_PER_UNIT {
        NANOS_PER_UNIT as int
    } else {
        n
    }
}

/// The floored MELD inputs for bilirubin and creatinine in billionths of mg/dL and an INR.
pub open spec fn meld_labs_of(bili: int, inr: int, scr: int, days_since_dialysis: Option<u32>) -> MeldLabs {
    MeldLabs {
        bilirubin_mg_dl: Fixed { nanos: at_least_one(bili) as i64 },
        inr: Fixed { nanos: inr as i64 },
        creatinine_mg_dl: Fixed {
            nanos: (if dialysed_recently(days_since_dialysis) {
                MELD_DIALYSIS_CREATININE as int
            } else {
                at_least_one(scr)
            }) as i64,
        },
    }
}

/// The lab values of the MELD score, taken to mg/dL and floored as UNOS requires.
///
/// Bilirubin below 1 mg/dL counts as 1. Creatinine counts as exactly 4 mg/dL when
/// dialysis was at most seven days ago, and otherwise as at least 1 mg/dL. The INR is
/// used as it is.
pub fn meld_labs<B: BilirubinUnit, C: CreatinineUnit>(
    bili: Bilirubin<B>,
    inr: Inr<InrUnit>,
    scr: Creatinine<C>,
    days_since_dialysis: Option<u32>,
) -> (r: MeldLabs)
    requires
        fits(bilirubin_mg_dl(bili.base())),
        !dialysed_recently(days_since_dialysis) ==> fits(creatinine_mg_dl(scr.base())),
    ensures
        r == meld_labs_of(
            bilirubin_mg_dl(bili.base()),
            inr@,
            creatinine_mg_dl(scr.base()),
            days_since_dialysis,
        ),
{
    let bili_mg_dl = bili.convert_to::<MgdL>().value();
    let bilirubin_mg_dl = if bili_mg_dl.nanos < NANOS_PER_UNIT {
        Fixed::from_nanos(NANOS_PER_UNIT)
    } else {
        bili_mg_dl
    };
    let recent = match days_since_dialysis {
        Some(days) => days <= MELD_DIALYSIS_WINDOW_DAYS,
        None => false,
    };
    let creatinine_mg_dl = if recent {
        Fixed::from_nanos(MELD_DIALYSIS_CREATININE)
    } else {
        let scr_mg_dl = scr.convert_to::<MgdL>().value();
        if scr_mg_dl.nanos < NANOS_PER_UNIT {
            Fixed::from_nanos(NANOS_PER_UNIT)
        } else {
            scr_mg_dl
        }
    };
    MeldLabs { bilirubin_mg_dl, inr: inr.value(), creatinine_mg_dl }
}

/// Body-mass index in billionths of kg/m² for a weight of `kg` billionths of a kilogram
/// and a height of `m` billionths of a metre, rounded to the nearest billionth.
pub open spec fn bmi_of(kg: int, m: int) -> int {
    round_div(kg * NANOS_PER_UNIT * NANOS_PER_UNIT, m * m)
}

/// A weight in base steps, in billionths of a kilogram.
pub open spec fn weight_kg(base: int) -> int {
    round_div(base, <Kg as WeightUnit>::base_steps())
}

/// A height in base steps, in billionths of a metre.
pub open spec fn height_m(base: int) -> int {
    round_div(base, <Meter as HeightUnit>::base_steps())
}

/// Body-mass index: weight in kilograms over the square of height in metres.
///
/// Height and weight may be given in any supported units; they are read in SI units,
/// so the same person gives the same index whatever the units.
pub fn bmi<H: HeightUnit, W: WeightUnit>(height: Height<H>, weight: Weight<W>) -> (r: Bmi<KgM2>)
    requires
        fits(height_m(height.base())),
        fits(weight_kg(weight.base())),
        height_m(height.base()) != 0,
        fits(bmi_of(weight_kg(weight.base()), height_m(height.base()))),
    ensures
        r@ == bmi_of(weight_kg(weight.base()), height_m(height.base())),
{
    let m = height.convert_to::<Meter>().value().nanos as i128;
    let kg = weight.convert_to::<Kg>().value().nanos as i128;
    assert(0 < m * m <= 0x4000_0000_0000_0000_0000_0000_0000_0000) by (nonlinear_arith)
        requires
            m != 0,
            -0x8000_0000_0000_0000 <= m <= 0x8000_0000_0000_0000,
    ;
    let square = m * m;
    let index = round_div_wide(kg * 1_000_000_000_000_000_000, square);
    Bmi::new(Fixed::from_nanos(index as i64))
}

/// The body-mass index does not depend on the units of its inputs: heights and weights
/// that are the same measurements, whatever units they are given in, give the same index.
pub proof fn lemma_bmi_unit_invariant<H1: HeightUnit, W1: WeightUnit, H2: HeightUnit, W2: WeightUnit>(
    h1: Height<H1>,
    w1: Weight<W1>,
    h2: Height<H2>,
    w2: Weight<W2>,
)
    requires
        h1.base() == h2.base(),
        w1.base() == w2.base(),
    ensures
        bmi_of(weight_kg(w1.base()), height_m(h1.base())) == bmi_of(weight_kg(w2.base()), height_m(h2.base())),
{
}

} // verus!
