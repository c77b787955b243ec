use medicalc::constants::SCR_MGDL_TO_UMOLL;
use medicalc::fixed::Fixed;
use medicalc::lab::blood::creatinine::{Creatinine, CreatinineExt};
use medicalc::lab::{NumericRanged, ResultRange};
use medicalc::units::{MgdL, UmolL};

fn fx(x: f64) -> Fixed {
    Fixed::from_nanos((x * 1e9).round() as i64)
}

fn val(v: Fixed) -> f64 {
    v.nanos as f64 / 1e9
}

fn ratio(f: (u64, u64)) -> f64 {
    f.0 as f64 / f.1 as f64
}

fn approx_eq(a: f64, b: f64) {
    assert!((a - b).abs() < 1e-6, "{} !~= {}", a, b);
}

#[test]
fn creatinine_unit_conversions_round_trip() {
    let mg_dl = Creatinine::<MgdL>::new(fx(1.2));
    let as_umol: Creatinine<UmolL> = mg_dl.convert_to::<UmolL>();
    approx_eq(val(as_umol.value()), 1.2 * ratio(SCR_MGDL_TO_UMOLL));

    let back_to_mg_dl: Creatinine<MgdL> = as_umol.convert_to::<MgdL>();
    approx_eq(val(back_to_mg_dl.value()), 1.2);
}

#[test]
fn creatinine_ranges_in_mg_dl_are_selected_correctly() {
    assert_eq!(Creatinine::<MgdL>::new(fx(0.4)).range(), ResultRange::CriticalLow);
    assert_eq!(Creatinine::<MgdL>::new(fx(0.8)).range(), ResultRange::Low);
    assert_eq!(Creatinine::<MgdL>::new(fx(1.1)).range(), ResultRange::Normal);
    assert_eq!(Creatinine::<MgdL>::new(fx(2.0)).range(), ResultRange::High);
    assert_eq!(Creatinine::<MgdL>::new(fx(4.0)).range(), ResultRange::CriticalHigh);
}

#[test]
fn creatinine_ranges_in_umol_l_match_thresholds() {
    let factor = ratio(SCR_MGDL_TO_UMOLL);
    assert_eq!(Creatinine::<UmolL>::new(fx(0.5 * factor)).range(), ResultRange::CriticalLow);
    assert_eq!(Creatinine::<UmolL>::new(fx(0.8 * factor)).range(), ResultRange::Low);
    assert_eq!(Creatinine::<UmolL>::new(fx(1.1 * factor)).range(), ResultRange::Normal);
    assert_eq!(Creatinine::<UmolL>::new(fx(2.0 * factor)).range(), ResultRange::High);
    assert_eq!(Creatinine::<UmolL>::new(fx(4.0 * factor)).range(), ResultRange::CriticalHigh);
}

#[test]
fn creatinine_extension_constructors() {
    assert_eq!(fx(1.0).cr_serum_mg_dl().value(), fx(1.0));
    assert_eq!(fx(88.4).cr_serum_umol_l().convert_to::<MgdL>().value(), fx(1.0));
    assert_eq!(fx(1.0).cr_serum_mg_dl().units(), "mg/dL");
    assert_eq!(fx(1.0).cr_serum_umol_l().units(), "µmol/L");
}

#[test]
fn creatinine_umol_at_cut_point_belongs_below() {
    // 0.9 mg/dL is 79.56 µmol/L exactly
    assert_eq!(Creatinine::<UmolL>::new(fx(79.56)).range(), ResultRange::Low);
    assert_eq!(Creatinine::<UmolL>::new(fx(79.560000001)).range(), ResultRange::Normal);
}

#[test]
fn creatinine_round_trip_is_exact() {
    let original = fx(30.1).cr_serum_umol_l();
    let back = original.convert_to::<MgdL>().convert_to::<UmolL>();
    assert_eq!(back.value(), fx(30.1));
    assert_eq!(original.convert_to::<MgdL>().value().nanos, 340_497_738);
}
