use medicalc::constants::{FT_TO_M, KG_TO_LB, LB_TO_KG, M_TO_FT};
use medicalc::fixed::Fixed;
use medicalc::lab::vitals::{BmiExt, Height, HeightExt, Weight, WeightExt};
use medicalc::units::{Foot, Kg, Lb, Meter};

fn fx(x: f64) -> Fixed {
    Fixed::from_nanos((x * 1e9).round() as i64)
}

fn val(v: Fixed) -> f64 {
    v.nanos as f64 / 1e9
}

fn ratio(f: (u64, u64)) -> f64 {
    f.0 as f64 / f.1 as f64
}

fn approx_eq(a: f64, b: f64) {
    assert!((a - b).abs() < 1e-6, "{} !~= {}", a, b);
}

// Weight tests

#[test]
fn weight_construction_kg() {
    let weight = fx(70.0).weight_kg();
    approx_eq(val(weight.value()), 70.0);
}

#[test]
fn weight_construction_lb() {
    let weight = fx(154.0).weight_lb();
    approx_eq(val(weight.value()), 154.0);
}

#[test]
fn weight_kg_to_lb_conversion() {
    let weight_kg = fx(70.0).weight_kg();
    let weight_lb: Weight<Lb> = weight_kg.convert_to::<Lb>();

    approx_eq(val(weight_lb.value()), 70.0 * ratio(KG_TO_LB));
}

#[test]
fn weight_lb_to_kg_conversion() {
    let weight_lb = fx(154.32).weight_lb();
    let weight_kg: Weight<Kg> = weight_lb.convert_to::<Kg>();

    approx_eq(val(weight_kg.value()), 154.32 * ratio(LB_TO_KG));
}

#[test]
fn weight_round_trip_conversion() {
    let original = fx(80.0).weight_kg();
    let as_lb: Weight<Lb> = original.convert_to::<Lb>();
    let back_to_kg: Weight<Kg> = as_lb.convert_to::<Kg>();

    approx_eq(val(back_to_kg.value()), val(original.value()));
}

#[test]
fn weight_common_values() {
    // Test some common weight conversions
    let kg_100 = fx(100.0).weight_kg();
    let lb_220: Weight<Lb> = kg_100.convert_to::<Lb>();
    approx_eq(val(lb_220.value()), 220.4622621849);

    let lb_150 = fx(150.0).weight_lb();
    let kg_68: Weight<Kg> = lb_150.convert_to::<Kg>();
    approx_eq(val(kg_68.value()), 68.0388555);
}

#[test]
fn weight_round_trip_through_pounds_is_exact() {
    // 70 kg → lb → kg returns 70 exactly
    let original = fx(70.0).weight_kg();
    assert_eq!(original.convert_to::<Lb>().convert_to::<Kg>(), original);
}

#[test]
fn weight_round_trip_through_kilograms_is_exact() {
    let tiny = Fixed::from_nanos(1).weight_lb();
    assert_eq!(tiny.convert_to::<Kg>().value(), Fixed::from_nanos(0));
    assert_eq!(tiny.convert_to::<Kg>().convert_to::<Lb>(), tiny);
    let original = fx(154.324).weight_lb();
    assert_eq!(original.convert_to::<Kg>().convert_to::<Lb>().value(), fx(154.324));
}

#[test]
fn height_round_trip_through_metres_is_exact() {
    let original = fx(5.74147).height_in_ft();
    assert_eq!(original.convert_to::<Meter>().convert_to::<Foot>().value(), fx(5.74147));
    let tiny = Fixed::from_nanos(1).height_in_ft();
    assert_eq!(tiny.convert_to::<Meter>().convert_to::<Foot>().value(), Fixed::from_nanos(1));
}

// Height tests

#[test]
fn height_construction_meters() {
    let height = fx(1.75).height_in_m();
    approx_eq(val(height.value()), 1.75);
}

#[test]
fn height_construction_feet() {
    let height = fx(5.75).height_in_ft();
    approx_eq(val(height.value()), 5.75);
}

#[test]
fn height_from_feet_and_inches() {
    let height = Height::<Meter>::from_ft_and_in(5, fx(10.0));

    // 5 feet 10 inches = 5 + 10/12 = 5.8333... feet
    let expected_ft = 5.0 + 10.0 / 12.0;
    let expected_m = expected_ft * ratio(FT_TO_M);

    approx_eq(val(height.value()), expected_m);
}

#[test]
fn height_meters_to_feet_conversion() {
    let height_m = fx(1.8).height_in_m();
    let height_ft: Height<Foot> = height_m.convert_to::<Foot>();

    approx_eq(val(height_ft.value()), 1.8 * ratio(M_TO_FT));
}

#[test]
fn height_feet_to_meters_conversion() {
    let height_ft = fx(6.0).height_in_ft();
    let height_m: Height<Meter> = height_ft.convert_to::<Meter>();

    approx_eq(val(height_m.value()), 6.0 * ratio(FT_TO_M));
}

#[test]
fn height_round_trip_conversion() {
    let original = fx(1.70).height_in_m();
    let as_feet: Height<Foot> = original.convert_to::<Foot>();
    let back_to_m: Height<Meter> = as_feet.convert_to::<Meter>();

    approx_eq(val(back_to_m.value()), val(original.value()));
}

#[test]
fn height_common_values() {
    // 6 feet should be approximately 1.829 meters
    let ft_6 = fx(6.0).height_in_ft();
    let m_182: Height<Meter> = ft_6.convert_to::<Meter>();
    approx_eq(val(m_182.value()), 1.8288);

    // 1.5 meters should be approximately 4.921 feet
    let m_150 = fx(1.5).height_in_m();
    let ft_492: Height<Foot> = m_150.convert_to::<Foot>();
    approx_eq(val(ft_492.value()), 4.92126);
}

#[test]
fn height_feet_and_inches_typical_values() {
    // Test 5'9" (average male height in US)
    let height = Height::<Meter>::from_ft_and_in(5, fx(9.0));
    approx_eq(val(height.value()), 1.7526);

    // Test 5'4" (average female height in US)
    let height2 = Height::<Meter>::from_ft_and_in(5, fx(4.0));
    approx_eq(val(height2.value()), 1.6256);
}

#[test]
fn height_from_feet_and_inches_exact() {
    // 5 ft 9 in is 69 inches, 1.7526 m exactly
    assert_eq!(Height::<Meter>::from_ft_and_in(5, fx(9.0)).value(), fx(1.7526));
    assert_eq!(Height::<Meter>::from_ft_and_in(0, fx(0.0)).value(), fx(0.0));
}

// BMI tests

#[test]
fn bmi_construction() {
    let bmi = fx(25.0).to_bmi();
    approx_eq(val(bmi.value()), 25.0);
}

#[test]
fn bmi_underweight_threshold() {
    let bmi = fx(17.5).to_bmi();
    assert!(val(bmi.value()) < 18.5);
}

#[test]
fn bmi_normal_range() {
    let bmi_low = fx(18.5).to_bmi();
    let bmi_high = fx(24.9).to_bmi();

    assert!(val(bmi_low.value()) >= 18.5);
    assert!(val(bmi_low.value()) < 25.0);
    assert!(val(bmi_high.value()) >= 18.5);
    assert!(val(bmi_high.value()) < 25.0);
}

#[test]
fn bmi_overweight_threshold() {
    let bmi = fx(27.0).to_bmi();
    assert!(val(bmi.value()) >= 25.0);
    assert!(val(bmi.value()) < 30.0);
}

#[test]
fn bmi_obese_threshold() {
    let bmi = fx(32.0).to_bmi();
    assert!(val(bmi.value()) >= 30.0);
}

// Conversion constant tests

#[test]
fn conversion_constants_reciprocal_relationship() {
    approx_eq(ratio(LB_TO_KG) * ratio(KG_TO_LB), 1.0);
    approx_eq(ratio(FT_TO_M) * ratio(M_TO_FT), 1.0);
}

#[test]
fn conversion_constant_values() {
    // Verify known conversion factors
    approx_eq(ratio(LB_TO_KG), 0.45359237);
    approx_eq(ratio(FT_TO_M), 0.3048);
}
