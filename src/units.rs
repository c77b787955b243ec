//! Units as types.
//!
//! Each unit is a zero-sized type that carries only its abbreviation. Measurements
//! take a unit as a type parameter, so values in SI and conventional units cannot
//! be confused.

use vstd::prelude::*;

pub mod bilirubin;
pub mod creatinine;
pub mod glucose;
pub mod sodium;
pub mod vitals;

verus! {

/// A unit of measurement, known by its abbreviation.
pub trait Unit {
    /// The abbreviation, as text.
    spec fn label() -> Seq<char>;

    /// The abbreviation shown beside a value.
    fn abbr() -> (r: &'static str)
        ensures
            r@ == Self::label(),
    ;
}

/// Milliequivalents per liter (mEq/L).
#[derive(Debug, Clone, Copy, PartialEq, Eq)]
pub struct MeqL;

impl Unit for MeqL {
    open spec fn label() -> Seq<char> {
        "mEq/L"@
    }

    fn abbr() -> (r: &'static str) {
        "mEq/L"
    }
}

/// Milligrams per deciliter (mg/dL).
#[derive(Debug, Clone, Copy, PartialEq, Eq)]
pub struct MgdL;

impl Unit for MgdL {
    open spec fn label() -> Seq<char> {
        "mg/dL"@
    }

    fn abbr() -> (r: &'static str) {
        "mg/dL"
    }
}

/// Millimoles per liter (mmol/L).
#[derive(Debug, Clone, Copy, PartialEq, Eq)]
pub struct MmolL;

impl Unit for MmolL {
    open spec fn label() -> Seq<char> {
        "mmol/L"@
    }

    fn abbr() -> (r: &'static str) {
        "mmol/L"
    }
}

/// Micromoles per liter (µmol/L).
#[derive(Debug, Clone, Copy, PartialEq, Eq)]
pub struct UmolL;

impl Unit for UmolL {
    open spec fn label() -> Seq<char> {
        "µmol/L"@
    }

    fn abbr() -> (r: &'static str) {
        "µmol/L"
    }
}

/// Kilograms (kg).
#[derive(Debug, Clone, Copy, PartialEq, Eq)]
pub struct Kg;

impl Unit for Kg {
    open spec fn label() -> Seq<char> {
        "kg"@
    }

    fn abbr() -> (r: &'static str) {
        "kg"
    }
}

/// Pounds (lb).
#[derive(Debug, Clone, Copy, PartialEq, Eq)]
pub struct Lb;

impl Unit for Lb {
    open spec fn label() -> Seq<char> {
        "lb"@
    }

    fn abbr() -> (r: &'static str) {
        "lb"
    }
}

/// Metres (m).
#[derive(Debug, Clone, Copy, PartialEq, Eq)]
pub struct Meter;

impl Unit for Meter {
    open spec fn label() -> Seq<char> {
        "m"@
    }

    fn abbr() -> (r: &'static str) {
        "m"
    }
}

/// Feet (ft).
#[derive(Debug, Clone, Copy, PartialEq, Eq)]
pub struct Foot;

impl Unit for Foot {
    open spec fn label() -> Seq<char> {
        "ft"@
    }

    fn abbr() -> (r: &'static str) {
        "ft"
    }
}

/// Kilograms per square metre, the unit of body-mass index.
#[derive(Debug, Clone, Copy, PartialEq, Eq)]
pub struct KgM2;

impl Unit for KgM2 {
    open spec fn label() -> Seq<char> {
        "kg/m²"@
    }

    fn abbr() -> (r: &'static str) {
        "kg/m²"
    }
}

/// Millilitres per minute per 1.73 m² of body surface, the unit of glomerular filtration rate.
#[derive(Debug, Clone, Copy, PartialEq, Eq)]
pub struct GfrUnit;

impl Unit for GfrUnit {
    open spec fn label() -> Seq<char> {
        "mL/min/1.73m²"@
    }

    fn abbr() -> (r: &'static str) {
        "mL/min/1.73m²"
    }
}

/// The international normalized ratio, which has no unit of its own.
#[derive(Debug, Clone, Copy, PartialEq, Eq)]
pub struct InrUnit;

impl Unit for InrUnit {
    open spec fn label() -> Seq<char> {
        "INR"@
    }

    fn abbr() -> (r: &'static str) {
        "INR"
    }
}

} // verus!
