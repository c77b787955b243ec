//! Unit-safe clinical measurements and the calculations built on them.
//!
//! Every measurement carries its unit in its type: a `Glucose<MgdL>` cannot be passed
//! where a `Glucose<MmolL>` or a `Creatinine<MgdL>` is expected. Each kind of
//! measurement has one canonical unit, and every unit of the kind converts to and from
//! it by an exact fraction (see [`constants`]).
//!
//! Values are exact decimals with nine fractional digits (see [`fixed::Fixed`]). A
//! measurement is held as a whole count of its kind's base steps, a step small enough
//! that a billionth of every unit of the kind is a whole number of them; converting
//! between units keeps that count, so round trips are exact. Reading a value in a unit,
//! and every formula, rounds to the nearest billionth, halves away from zero, and its
//! contract states that result exactly.
//!
//! Ranges follow one rule for every kind of measurement: a value at a cut point
//! belongs to the range below it.
//!
//! The eGFR and MELD formulas end in real powers and logarithms; this library
//! prepares their inputs (units, constants, floors) and leaves that last step to
//! floating-point code outside it.

pub mod calculators;
pub mod constants;
pub mod fixed;
pub mod history;
pub mod lab;
pub mod units;
