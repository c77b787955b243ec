use medicalc::constants::{SBILI_MGDL_TO_UMOLL, SBILI_UMOLL_TO_MGDL};
use medicalc::fixed::Fixed;
use medicalc::lab::blood::bilirubin::{serum_bili_ranges_mgdl, Bilirubin, BilirubinExt};
use medicalc::lab::{NumericRanged, ResultRange};
use medicalc::units::{MgdL, UmolL};

fn fx(x: f64) -> Fixed {
    Fixed::from_nanos((x * 1e9).round() as i64)
}

fn val(v: Fixed) -> f64 {
    v.nanos as f64 / 1e9
}

fn ratio(f: (u64, u64)) -> f64 {
    f.0 as f64 / f.1 as f64
}

fn approx_eq(a: f64, b: f64) {
    assert!((a - b).abs() < 1e-6, "{} !~= {}", a, b);
}

#[test]
fn bilirubin_construction_from_f64() {
    let bili_mgdl = fx(1.5).serum_bili_mgdl();
    let bili_umoll = fx(25.65).serum_bili_umoll();

    approx_eq(val(bili_mgdl.value()), 1.5);
    approx_eq(val(bili_umoll.value()), 25.65);
}

#[test]
fn bilirubin_unit_conversions() {
    let bili_mgdl = fx(1.0).serum_bili_mgdl();
    let bili_umoll: Bilirubin<UmolL> = bili_mgdl.convert_to::<UmolL>();

    // 1 mg/dL = 17.1 µmol/L
    approx_eq(val(bili_umoll.value()), 17.1);

    // Convert back
    let back_to_mgdl: Bilirubin<MgdL> = bili_umoll.convert_to::<MgdL>();
    approx_eq(val(back_to_mgdl.value()), 1.0);
}

#[test]
fn bilirubin_conversions_round_trip() {
    let original = fx(2.5).serum_bili_mgdl();
    let as_umoll: Bilirubin<UmolL> = original.convert_to::<UmolL>();
    let back: Bilirubin<MgdL> = as_umoll.convert_to::<MgdL>();

    approx_eq(val(back.value()), val(original.value()));
}

#[test]
fn bilirubin_ranges_mgdl() {
    assert_eq!(fx(0.1).serum_bili_mgdl().range(), ResultRange::CriticalLow);
    assert_eq!(fx(0.3).serum_bili_mgdl().range(), ResultRange::Low);
    assert_eq!(fx(1.0).serum_bili_mgdl().range(), ResultRange::Normal);
    assert_eq!(fx(5.0).serum_bili_mgdl().range(), ResultRange::High);
    assert_eq!(fx(15.0).serum_bili_mgdl().range(), ResultRange::CriticalHigh);
}

#[test]
fn bilirubin_ranges_umoll() {
    let factor = ratio(SBILI_MGDL_TO_UMOLL);
    assert_eq!(fx(0.2 * factor * 0.5).serum_bili_umoll().range(), ResultRange::CriticalLow);
    assert_eq!(fx(0.5 * factor * 0.8).serum_bili_umoll().range(), ResultRange::Low);
    assert_eq!(fx(1.0 * factor).serum_bili_umoll().range(), ResultRange::Normal);
    assert_eq!(fx(5.0 * factor).serum_bili_umoll().range(), ResultRange::High);
    assert_eq!(fx(15.0 * factor).serum_bili_umoll().range(), ResultRange::CriticalHigh);
}

#[test]
fn bilirubin_range_boundaries() {
    // A value exactly at a threshold belongs to the lower range.
    let t = serum_bili_ranges_mgdl();
    let just_below_crit_low = fx(val(t.crit_low) - 0.01).serum_bili_mgdl();
    assert_eq!(just_below_crit_low.range(), ResultRange::CriticalLow);

    let just_above_crit_low = fx(val(t.crit_low) + 0.01).serum_bili_mgdl();
    assert_eq!(just_above_crit_low.range(), ResultRange::Low);

    let just_above_low_norm = fx(val(t.low_norm) + 0.01).serum_bili_mgdl();
    assert_eq!(just_above_low_norm.range(), ResultRange::Normal);

    let just_above_norm_hi = fx(val(t.norm_hi) + 0.01).serum_bili_mgdl();
    assert_eq!(just_above_norm_hi.range(), ResultRange::High);

    let just_above_hi_crit = fx(val(t.hi_crit) + 0.01).serum_bili_mgdl();
    assert_eq!(just_above_hi_crit.range(), ResultRange::CriticalHigh);
}

#[test]
fn bilirubin_numeric_ranged_trait() {
    let bili = fx(1.5).serum_bili_mgdl();

    assert_eq!(NumericRanged::value(&bili), fx(1.5));
    assert_eq!(bili.units(), "mg/dL");
    assert_eq!(bili.range(), ResultRange::Normal);
}

#[test]
fn bilirubin_conversion_factor_accuracy() {
    // Verify conversion factors match constants
    let mgdl_val = 1.0;
    let umoll_val = mgdl_val * ratio(SBILI_MGDL_TO_UMOLL);

    approx_eq(umoll_val, 17.1);
    approx_eq(umoll_val * ratio(SBILI_UMOLL_TO_MGDL), mgdl_val);
}

#[test]
fn bilirubin_values_at_cut_points_belong_below() {
    let t = serum_bili_ranges_mgdl();
    assert_eq!(t.crit_low.serum_bili_mgdl().range(), ResultRange::CriticalLow);
    assert_eq!(t.low_norm.serum_bili_mgdl().range(), ResultRange::Low);
    assert_eq!(t.norm_hi.serum_bili_mgdl().range(), ResultRange::Normal);
    assert_eq!(t.hi_crit.serum_bili_mgdl().range(), ResultRange::High);
    // 0.5 mg/dL is 8.55 µmol/L, and is Low in either unit
    assert_eq!(fx(8.55).serum_bili_umoll().range(), ResultRange::Low);
}

#[test]
fn bilirubin_umoll_round_trip_is_exact() {
    // 1.7 µmol/L is 0.099415204... mg/dL, yet it comes back as 1.7 exactly
    let original = fx(1.7).serum_bili_umoll();
    let back = original.convert_to::<MgdL>().convert_to::<UmolL>();
    assert_eq!(back.value(), original.value());
    let tiny = Fixed::from_nanos(1).serum_bili_umoll();
    assert_eq!(tiny.convert_to::<MgdL>().value(), Fixed::from_nanos(0));
    assert_eq!(tiny.convert_to::<MgdL>().convert_to::<UmolL>().value(), Fixed::from_nanos(1));
}
