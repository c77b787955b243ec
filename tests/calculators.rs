use medicalc::calculators::{
    bmi, correct_na_for_glucose, egfr_ckd_epi_terms, meld_labs, MELD_DIALYSIS_WINDOW_DAYS,
};
use medicalc::fixed::Fixed;
use medicalc::history::{Gender, Years};
use medicalc::lab::blood::bilirubin::BilirubinExt;
use medicalc::lab::blood::creatinine::CreatinineExt;
use medicalc::lab::blood::glucose::SerumGlucoseExt;
use medicalc::lab::blood::inr::InrExt;
use medicalc::lab::blood::sodium::{SerumSodiumExt, Sodium};
use medicalc::lab::vitals::{HeightExt, WeightExt};
use medicalc::units::glucose::GlucoseUnit;
use medicalc::units::{Foot, Lb, MgdL, MmolL};

fn fx(x: f64) -> Fixed {
    Fixed::from_nanos((x * 1e9).round() as i64)
}

fn val(v: Fixed) -> f64 {
    v.nanos as f64 / 1e9
}

fn approx_eq(lhs: f64, rhs: f64) {
    assert!((lhs - rhs).abs() < 1e-9, "{} !~= {}", lhs, rhs);
}

#[test]
fn correct_na_uses_katz_below_threshold() {
    let sodium = fx(130.0).na_serum_meq();
    let glucose = fx(10.0).glu_serum_mmol_l();

    let corrected = correct_na_for_glucose(sodium, glucose);
    let expected = 130.0 + 0.29 * (10.0 - 5.6);

    approx_eq(val(corrected.value()), expected);
}

#[test]
fn correct_na_uses_hillier_above_threshold() {
    let sodium = fx(132.0).na_serum_meq();
    let glucose = fx(30.0).glu_serum_mmol_l();

    let corrected = correct_na_for_glucose(sodium, glucose);
    let expected = 132.0 + 0.43 * (30.0 - 5.6);

    approx_eq(val(corrected.value()), expected);
}

#[test]
fn correct_na_preserves_original_units() {
    // Work with mmol/L sodium and mg/dL glucose to exercise conversions.
    let sodium: Sodium<MmolL> = fx(138.0).na_serum_mmol();
    let glucose_mgdl = fx(500.0).glu_serum_mg_dl();

    let corrected = correct_na_for_glucose(sodium, glucose_mgdl);

    // Convert expected result to mmol/L using mg/dL glucose converted to mmol/L.
    let glucose_mmol = val(MgdL::to_mmol_l(glucose_mgdl.value()));
    let expected = 138.0 + 0.43 * (glucose_mmol - 5.6);

    approx_eq(val(corrected.value()), expected);
}

#[test]
fn correct_na_exact_example() {
    let corrected = correct_na_for_glucose(fx(130.0).na_serum_meq(), fx(10.0).glu_serum_mmol_l());
    assert_eq!(corrected.value(), fx(131.276));
}

#[test]
fn correct_na_threshold_switches_at_22_2() {
    let na = fx(130.0).na_serum_meq();
    // Katz just below the threshold: 130 + 0.29 × 16.59
    let below = correct_na_for_glucose(na, fx(22.19).glu_serum_mmol_l());
    assert_eq!(below.value(), fx(134.8111));
    // Hillier at the threshold: 130 + 0.43 × 16.6
    let at = correct_na_for_glucose(na, fx(22.2).glu_serum_mmol_l());
    assert_eq!(at.value(), fx(137.138));
    // Hillier above it: 130 + 0.43 × 16.7
    let above = correct_na_for_glucose(na, fx(22.3).glu_serum_mmol_l());
    assert_eq!(above.value(), fx(137.181));
}

#[test]
fn correct_na_same_for_glucose_in_either_unit() {
    let na = fx(138.0).na_serum_meq();
    let in_mmol = correct_na_for_glucose(na, fx(30.0).glu_serum_mmol_l());
    let in_mgdl = correct_na_for_glucose(na, fx(540.0).glu_serum_mg_dl());
    assert_eq!(in_mmol, in_mgdl);
    let converted = fx(17.3).glu_serum_mmol_l().convert_to::<MgdL>();
    assert_eq!(
        correct_na_for_glucose(na, converted),
        correct_na_for_glucose(na, fx(17.3).glu_serum_mmol_l())
    );
}

#[test]
fn correct_na_with_low_glucose_lowers_sodium() {
    // below the 5.6 mmol/L baseline the correction is negative
    let corrected = correct_na_for_glucose(fx(140.0).na_serum_mmol(), fx(3.6).glu_serum_mmol_l());
    assert_eq!(corrected.value(), fx(139.42));
}

#[test]
fn egfr_terms_female_worked_example() {
    let terms = egfr_ckd_epi_terms(fx(1.0).cr_serum_mg_dl(), Years(fx(40.0)), Gender::Female);
    assert_eq!(terms.kappa, fx(0.7));
    assert_eq!(terms.alpha, fx(-0.241));
    assert_eq!(terms.sex_multiplier, fx(1.012));
    assert_eq!(terms.low_ratio, fx(1.0));
    // 1 / 0.7 to the nearest billionth
    assert_eq!(terms.high_ratio, Fixed::from_nanos(1_428_571_429));
    assert_eq!(terms.age_years, fx(40.0));
    let from_umol = egfr_ckd_epi_terms(fx(88.4).cr_serum_umol_l(), Years(fx(40.0)), Gender::Female);
    assert_eq!(from_umol, terms);
}

#[test]
fn egfr_terms_male_low_creatinine() {
    let terms = egfr_ckd_epi_terms(fx(0.45).cr_serum_mg_dl(), Years(fx(50.0)), Gender::Male);
    assert_eq!(terms.kappa, fx(0.9));
    assert_eq!(terms.alpha, fx(-0.302));
    assert_eq!(terms.sex_multiplier, fx(1.0));
    assert_eq!(terms.low_ratio, fx(0.5));
    assert_eq!(terms.high_ratio, fx(1.0));
}

#[test]
fn meld_floors_bilirubin_and_creatinine() {
    let labs = meld_labs(fx(0.5).serum_bili_mgdl(), fx(0.8).inr(), fx(0.5).cr_serum_mg_dl(), None);
    assert_eq!(labs.bilirubin_mg_dl, fx(1.0));
    assert_eq!(labs.creatinine_mg_dl, fx(1.0));
    assert_eq!(labs.inr, fx(0.8));
}

#[test]
fn meld_recent_dialysis_sets_creatinine_to_four() {
    let labs = meld_labs(fx(2.0).serum_bili_mgdl(), fx(1.5).inr(), fx(1.5).cr_serum_mg_dl(), Some(3));
    assert_eq!(labs.creatinine_mg_dl, fx(4.0));
    assert_eq!(labs.bilirubin_mg_dl, fx(2.0));
    let edge = meld_labs(
        fx(2.0).serum_bili_mgdl(),
        fx(1.5).inr(),
        fx(1.5).cr_serum_mg_dl(),
        Some(MELD_DIALYSIS_WINDOW_DAYS),
    );
    assert_eq!(edge.creatinine_mg_dl, fx(4.0));
}

#[test]
fn meld_old_dialysis_uses_floored_creatinine() {
    let labs = meld_labs(fx(2.0).serum_bili_mgdl(), fx(1.5).inr(), fx(1.5).cr_serum_mg_dl(), Some(10));
    assert_eq!(labs.creatinine_mg_dl, fx(1.5));
    let floored = meld_labs(fx(2.0).serum_bili_mgdl(), fx(1.5).inr(), fx(0.5).cr_serum_mg_dl(), Some(8));
    assert_eq!(floored.creatinine_mg_dl, fx(1.0));
}

#[test]
fn meld_converts_si_units_to_mg_dl() {
    // 34.2 µmol/L of bilirubin is 2 mg/dL; 176.8 µmol/L of creatinine is 2 mg/dL
    let labs = meld_labs(fx(34.2).serum_bili_umoll(), fx(1.1).inr(), fx(176.8).cr_serum_umol_l(), None);
    assert_eq!(labs.bilirubin_mg_dl, fx(2.0));
    assert_eq!(labs.creatinine_mg_dl, fx(2.0));
}

#[test]
fn bmi_in_si_units() {
    let index = bmi(fx(2.0).height_in_m(), fx(80.0).weight_kg());
    assert_eq!(index.value(), fx(20.0));
    let index = bmi(fx(1.75).height_in_m(), fx(70.0).weight_kg());
    // 70 / 1.75² = 22.857142857...
    assert_eq!(index.value(), Fixed::from_nanos(22_857_142_857));
}

#[test]
fn bmi_same_in_any_units() {
    let height = fx(1.75).height_in_m();
    let weight = fx(70.0).weight_kg();
    let si = bmi(height, weight);
    let imperial = bmi(height.convert_to::<Foot>(), weight.convert_to::<Lb>());
    assert_eq!(si.value(), imperial.value());
    let mixed = bmi(height.convert_to::<Foot>(), weight);
    assert_eq!(si.value(), mixed.value());
    // 5.74147 ft and 154.324 lb are those measurements rounded to fewer digits, so they
    // agree only to within what that rounding leaves.
    let rounded = bmi(fx(5.74147).height_in_ft(), fx(154.324).weight_lb());
    assert!((val(rounded.value()) - val(si.value())).abs() < 1e-4);
}
