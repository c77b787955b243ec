//! CHA₂DS₂-VA: stroke risk in atrial fibrillation, without regard to sex.
//!
//! A builder gathers the risk factors; `calculate` tallies them once, after which the
//! score and the annual stroke risks can be read.

use vstd::prelude::*;

use crate::fixed::{Fixed, NANOS_PER_UNIT};
use crate::history::Years;

verus! {

/// Points for age: 2 from 75 years on, 1 from 65, none below.
pub open spec fn age_points(age: Years) -> int {
    if age.0@ >= 75 * NANOS_PER_UNIT {
        2
    } else if age.0@ >= 65 * NANOS_PER_UNIT {
        1
    } else {
        0
    }
}

/// One point for a risk factor that is present.
pub open spec fn flag(present: bool) -> int {
    if present {
        1
    } else {
        0
    }
}

/// The CHA₂DS₂-VA score: age points, one point each for heart failure, hypertension,
/// diabetes and vascular disease, two for a prior stroke or TIA.
pub open spec fn va_points(
    age: Years,
    chf: bool,
    diabetes: bool,
    htn: bool,
    stroke: bool,
    vasc: bool,
) -> int {
    age_points(age) + flag(htn) + flag(chf) + flag(vasc) + flag(diabetes) + 2 * flag(stroke)
}

/// Annual stroke risk in tenths of a percent for each CHA₂DS₂-VA score, without and with
/// oral anticoagulation.
pub open spec fn va_risk_tenths(score: int) -> (int, int) {
    if score == 0 {
        (5, 2)
    } else if score == 1 {
        (15, 5)
    } else if score == 2 {
        (29, 10)
    } else if score == 3 {
        (51, 18)
    } else if score == 4 {
        (73, 26)
    } else if score == 5 {
        (112, 39)
    } else if score == 6 {
        (155, 54)
    } else if score == 7 {
        (147, 51)
    } else {
        (195, 68)
    }
}

fn va_risk_table(score: u8) -> (r: (i64, i64))
    requires
        score <= 8,
    ensures
        r.0 == va_risk_tenths(score as int).0,
        r.1 == va_risk_tenths(score as int).1,
{
    match score {
        0 => (5, 2),
        1 => (15, 5),
        2 => (29, 10),
        3 => (51, 18),
        4 => (73, 26),
        5 => (112, 39),
        6 => (155, 54),
        7 => (147, 51),
        _ => (195, 68),
    }
}

/// A CHA₂DS₂-VA calculator.
#[derive(Debug, Clone, Copy, PartialEq, Eq)]
pub struct Cha2Ds2VA {
    age: Years,
    chf: bool,
    diabetes: bool,
    htn: bool,
    stroke: bool,
    vasc: bool,
    score: Option<u8>,
}

impl Cha2Ds2VA {
    /// A tallied score is never above the largest possible, 8.
    #[verifier::type_invariant]
    spec fn score_in_table(self) -> bool {
        match self.score {
            Some(s) => s <= 8,
            None => true,
        }
    }

    pub closed spec fn spec_age(self) -> Years {
        self.age
    }

    pub closed spec fn spec_chf(self) -> bool {
        self.chf
    }

    pub closed spec fn spec_diabetes(self) -> bool {
        self.diabetes
    }

    pub closed spec fn spec_htn(self) -> bool {
        self.htn
    }

    pub closed spec fn spec_stroke(self) -> bool {
        self.stroke
    }

    pub closed spec fn spec_vasc(self) -> bool {
        self.vasc
    }

    /// The tallied score, or `None` before `calculate`.
    pub closed spec fn spec_score(self) -> Option<u8> {
        self.score
    }

    /// The score these risk factors give.
    pub open spec fn points(self) -> int {
        va_points(
            self.spec_age(),
            self.spec_chf(),
            self.spec_diabetes(),
            self.spec_htn(),
            self.spec_stroke(),
            self.spec_vasc(),
        )
    }

    /// Whether `other` holds the same age and risk factors as `self`.
    pub open spec fn same_factors(self, other: Self) -> bool {
        &&& other.spec_age() == self.spec_age()
        &&& other.spec_chf() == self.spec_chf()
        &&& other.spec_diabetes() == self.spec_diabetes()
        &&& other.spec_htn() == self.spec_htn()
        &&& other.spec_stroke() == self.spec_stroke()
        &&& other.spec_vasc() == self.spec_vasc()
    }

    /// A calculator for a patient of the given age with no risk factors yet.
    pub fn new(age: Years) -> (r: Self)
        ensures
            r.spec_age() == age,
            !r.spec_chf() && !r.spec_diabetes() && !r.spec_htn(),
            !r.spec_stroke() && !r.spec_vasc(),
            r.spec_score() is None,
    {
        Self {
            age,
            chf: false,
            diabetes: false,
            htn: false,
            stroke: false,
            vasc: false,
            score: None,
        }
    }

    /// Adds congestive heart failure.
    pub fn has_chf(self) -> (r: Self)
        requires
            self.spec_score() is None,
        ensures
            r.spec_chf(),
            r.spec_age() == self.spec_age(),
            r.spec_diabetes() == self.spec_diabetes(),
            r.spec_htn() == self.spec_htn(),
            r.spec_stroke() == self.spec_stroke(),
            r.spec_vasc() == self.spec_vasc(),
            r.spec_score() is None,
    {
        Self { chf: true, ..self }
    }

    /// Adds diabetes.
    pub fn has_diabetes(self) -> (r: Self)
        requires
            self.spec_score() is None,
        ensures
            r.spec_diabetes(),
            r.spec_age() == self.spec_age(),
            r.spec_chf() == self.spec_chf(),
            r.spec_htn() == self.spec_htn(),
            r.spec_stroke() == self.spec_stroke(),
            r.spec_vasc() == self.spec_vasc(),
            r.spec_score() is None,
    {
        Self { diabetes: true, ..self }
    }

    /// Adds hypertension.
    pub fn has_htn(self) -> (r: Self)
        requires
            self.spec_score() is None,
        ensures
            r.spec_htn(),
            r.spec_age() == self.spec_age(),
            r.spec_chf() == self.spec_chf(),
            r.spec_diabetes() == self.spec_diabetes(),
            r.spec_stroke() == self.spec_stroke(),
            r.spec_vasc() == self.spec_vasc(),
            r.spec_score() is None,
    {
        Self { htn: true, ..self }
    }

    /// Adds a prior stroke or transient ischaemic attack.
    pub fn has_stroke_hx(self) -> (r: Self)
        requires
            self.spec_score() is None,
        ensures
            r.spec_stroke(),
            r.spec_age() == self.spec_age(),
            r.spec_chf() == self.spec_chf(),
            r.spec_diabetes() == self.spec_diabetes(),
            r.spec_htn() == self.spec_htn(),
            r.spec_vasc() == self.spec_vasc(),
            r.spec_score() is None,
    {
        Self { stroke: true, ..self }
    }

    /// Adds vascular disease.
    pub fn has_vascular_hx(self) -> (r: Self)
        requires
            self.spec_score() is None,
        ensures
            r.spec_vasc(),
            r.spec_age() == self.spec_age(),
            r.spec_chf() == self.spec_chf(),
            r.spec_diabetes() == self.spec_diabetes(),
            r.spec_htn() == self.spec_htn(),
            r.spec_stroke() == self.spec_stroke(),
            r.spec_score() is None,
    {
        Self { vasc: true, ..self }
    }

    /// Tallies the score from age and risk factors.
    #[must_use]
    pub fn calculate(self) -> (r: Self)
        ensures
            self.same_factors(r),
            r.spec_score() == Some(self.points() as u8),
            0 <= self.points() <= 8,
    {
        let mut tally: u8 = if self.age.0.nanos >= 75 * NANOS_PER_UNIT {
            2
        } else if self.age.0.nanos >= 65 * NANOS_PER_UNIT {
            1
        } else {
            0
        };
        if self.htn {
            tally += 1;
        }
        if self.chf {
            tally += 1;
        }
        if self.vasc {
            tally += 1;
        }
        if self.diabetes {
            tally += 1;
        }
        if self.stroke {
            tally += 2;
        }
        Self { score: Some(tally), ..self }
    }

    /// The score, or `None` before `calculate`.
    pub fn score(&self) -> (r: Option<u8>)
        ensures
            r == self.spec_score(),
    {
        self.score
    }

    /// Annual stroke risk in percent without oral anticoagulation, or `None` before `calculate`.
    pub fn annual_cva_risk_no_oac(&self) -> (r: Option<Fixed>)
        ensures
            match self.spec_score() {
                Some(s) => r == Some(Fixed { nanos: (va_risk_tenths(s as int).0 * (NANOS_PER_UNIT / 10)) as i64 }),
                None => r is None,
            },
    {
        proof {
            use_type_invariant(self);
        }
        match self.score {
            Some(s) => Some(Fixed::from_nanos(va_risk_table(s).0 * (NANOS_PER_UNIT / 10))),
            None => None,
        }
    }

    /// Annual stroke risk in percent with oral anticoagulation, or `None` before `calculate`.
    pub fn annual_cva_risk_with_oac(&self) -> (r: Option<Fixed>)
        ensures
            match self.spec_score() {
                Some(s) => r == Some(Fixed { nanos: (va_risk_tenths(s as int).1 * (NANOS_PER_UNIT / 10)) as i64 }),
                None => r is None,
            },
    {
        proof {
            use_type_invariant(self);
        }
        match self.score {
            Some(s) => Some(Fixed::from_nanos(va_risk_table(s).1 * (NANOS_PER_UNIT / 10))),
            None => None,
        }
    }
}

} // verus!
