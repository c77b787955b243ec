use medicalc::fixed::Fixed;
use medicalc::lab::blood::glucose::{glu_serum_thresholds_mgdl, Glucose, SerumGlucoseExt};
use medicalc::lab::{NumericRanged, ResultRange};
use medicalc::units::{MgdL, MmolL};

fn fx(x: f64) -> Fixed {
    Fixed::from_nanos((x * 1e9).round() as i64)
}

fn val(v: Fixed) -> f64 {
    v.nanos as f64 / 1e9
}

#[test]
fn glucose_unit_conversions_are_correct() {
    let glucose_mmol = fx(1.0).glu_serum_mmol_l();
    let glucose_mgdl = fx(18.0).glu_serum_mg_dl();

    assert_eq!(val(glucose_mmol.value()), 1.0);
    assert_eq!(val(glucose_mgdl.value()), 18.0);

    let converted_mmol: Glucose<MmolL> = glucose_mgdl.convert_to::<MmolL>();
    let converted_mgdl: Glucose<MgdL> = glucose_mmol.convert_to::<MgdL>();

    assert_eq!(val(converted_mmol.value()), 1.0);
    assert_eq!(val(converted_mgdl.value()), 18.0);
}

#[test]
fn glucose_result_ranges_correct_mmol_l() {
    assert_eq!(fx(3.0).glu_serum_mmol_l().range(), ResultRange::CriticalLow);
    assert_eq!(fx(4.0).glu_serum_mmol_l().range(), ResultRange::Low);
    assert_eq!(fx(5.0).glu_serum_mmol_l().range(), ResultRange::Normal);
    assert_eq!(fx(7.0).glu_serum_mmol_l().range(), ResultRange::High);
    assert_eq!(fx(12.0).glu_serum_mmol_l().range(), ResultRange::CriticalHigh);
}

#[test]
fn glucose_result_ranges_correct_mg_dl() {
    assert_eq!(fx(50.0).glu_serum_mg_dl().range(), ResultRange::CriticalLow);
    assert_eq!(fx(75.0).glu_serum_mg_dl().range(), ResultRange::Low);
    assert_eq!(fx(100.0).glu_serum_mg_dl().range(), ResultRange::Normal);
    // 125 mg/dL is the normal-high cut point, and a value at a cut point belongs to
    // the range below it.
    assert_eq!(fx(125.0).glu_serum_mg_dl().range(), ResultRange::Normal);
    assert_eq!(fx(125.1).glu_serum_mg_dl().range(), ResultRange::High);
    assert_eq!(fx(300.0).glu_serum_mg_dl().range(), ResultRange::CriticalHigh);
}

#[test]
fn glucose_mmol_thresholds_are_the_mg_dl_ones_converted() {
    let t = glu_serum_thresholds_mgdl();
    assert_eq!(t.low_norm, fx(85.0));
    // 85 mg/dL is 4.722222222 mmol/L to the nearest billionth
    assert_eq!(fx(4.722222222).glu_serum_mmol_l().range(), ResultRange::Low);
    assert_eq!(fx(4.722222223).glu_serum_mmol_l().range(), ResultRange::Normal);
}

#[test]
fn glucose_round_trip_through_mg_dl_is_exact() {
    let original = Fixed::from_nanos(7_123_456_789).glu_serum_mmol_l();
    let back = original.convert_to::<MgdL>().convert_to::<MmolL>();
    assert_eq!(back.value(), original.value());
}

#[test]
fn glucose_round_trip_through_mmol_is_exact() {
    let original = Fixed::from_nanos(1_000_000_000).glu_serum_mg_dl();
    let as_mmol = original.convert_to::<MmolL>();
    // read in mmol/L the value is rounded to the nearest billionth
    assert_eq!(as_mmol.value().nanos, 55_555_556);
    assert_eq!(as_mmol.convert_to::<MgdL>().value(), original.value());
    let tiny = Fixed::from_nanos(1).glu_serum_mg_dl();
    assert_eq!(tiny.convert_to::<MmolL>().convert_to::<MgdL>().value(), Fixed::from_nanos(1));
}

#[test]
fn glucose_conversion_to_its_own_unit_is_exact() {
    let original = Fixed::from_nanos(1_000_000_001).glu_serum_mg_dl();
    assert_eq!(original.convert_to::<MgdL>(), original);
}
