//! Measurements made on blood.

pub mod bilirubin;
pub mod creatinine;
pub mod glucose;
pub mod inr;
pub mod sodium;
