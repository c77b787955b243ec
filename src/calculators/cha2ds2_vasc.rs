//! CHA₂DS₂-VASc: stroke risk in atrial fibrillation, taking sex into account where
//! CHA₂DS₂-VA does not.

use vstd::prelude::*;

use super::cha2ds2_va::{age_points, flag};
use crate::fixed::{Fixed, NANOS_PER_UNIT};
use crate::history::{Gender, Years};

verus! {

/// The CHA₂DS₂-VASc score: age points, one point for female sex, one each for heart
/// failure, diabetes, hypertension and vascular disease, two for a prior stroke or TIA.
pub open spec fn vasc_points(
    age: Years,
    sex: Gender,
    chf: bool,
    diabetes: bool,
    htn: bool,
    stroke: bool,
    vasc: bool,
) -> int {
    age_points(age) + flag(sex == Gender::Female) + flag(chf) + flag(diabetes) + flag(htn) + flag(vasc)
        + 2 * flag(stroke)
}

/// Annual stroke risk in tenths of a percent for each CHA₂DS₂-VASc score (Friberg, 2012).
pub open spec fn vasc_risk_tenths(score: int) -> int {
    if score == 0 {
        2
    } else if score == 1 {
        6
    } else if score == 2 {
        22
    } else if score == 3 {
        32
    } else if score == 4 {
        48
    } else if score == 5 {
        72
    } else if score == 6 {
        97
    } else if score == 7 {
        112
    } else if score == 8 {
        108
    } else {
        122
    }
}

fn annual_cva_risk_table(score: u8) -> (r: i64)
    requires
        score <= 9,
    ensures
        r == vasc_risk_tenths(score as int),
{
    match score {
        0 => 2,
        1 => 6,
        2 => 22,
        3 => 32,
        4 => 48,
        5 => 72,
        6 => 97,
        7 => 112,
        8 => 108,
        _ => 122,
    }
}

/// A CHA₂DS₂-VASc calculator.
#[derive(Debug, Clone, Copy, PartialEq, Eq)]
pub struct ChadsVasc {
    age: Years,
    sex: Gender,
    chf: bool,
    diabetes: bool,
    htn: bool,
    stroke: bool,
    vasc: bool,
    score: Option<u8>,
}

impl ChadsVasc {
    /// A tallied score is never above the largest possible, 9.
    #[verifier::type_invariant]
    spec fn score_in_table(self) -> bool {
        match self.score {
            Some(s) => s <= 9,
            None => true,
        }
    }

    pub closed spec fn spec_age(self) -> Years {
        self.age
    }

    pub closed spec fn spec_sex(self) -> Gender {
        self.sex
    }

    pub closed spec fn spec_chf(self) -> bool {
        self.chf
    }

    pub closed spec fn spec_diabetes(self) -> bool {
        self.diabetes
    }

    pub closed spec fn spec_htn(self) -> bool {
        self.htn
    }

    pub closed spec fn spec_stroke(self) -> bool {
        self.stroke
    }

    pub closed spec fn spec_vasc(self) -> bool {
        self.vasc
    }

    /// The tallied score, or `None` before `calculate`.
    pub closed spec fn spec_score(self) -> Option<u8> {
        self.score
    }

    /// The score these risk factors give.
    pub open spec fn points(self) -> int {
        vasc_points(
            self.spec_age(),
            self.spec_sex(),
            self.spec_chf(),
            self.spec_diabetes(),
            self.spec_htn(),
            self.spec_stroke(),
            self.spec_vasc(),
        )
    }

    /// Whether `other` holds the same age, sex and risk factors as `self`.
    pub open spec fn same_factors(self, other: Self) -> bool {
        &&& other.spec_age() == self.spec_age()
        &&& other.spec_sex() == self.spec_sex()
        &&& other.spec_chf() == self.spec_chf()
        &&& other.spec_diabetes() == self.spec_diabetes()
        &&& other.spec_htn() == self.spec_htn()
        &&& other.spec_stroke() == self.spec_stroke()
        &&& other.spec_vasc() == self.spec_vasc()
    }

    /// A calculator for a patient of the given age and sex with no risk factors yet.
    pub fn new(age: Years, sex: Gender) -> (r: Self)
        ensures
            r.spec_age() == age,
            r.spec_sex() == sex,
            !r.spec_chf() && !r.spec_diabetes() && !r.spec_htn(),
            !r.spec_stroke() && !r.spec_vasc(),
            r.spec_score() is None,
    {
        Self {
            age,
            sex,
            chf: false,
            diabetes: false,
            htn: false,
            stroke: false,
            vasc: false,
            score: None,
        }
    }

    /// Adds congestive heart failure.
    pub fn has_chf(self) -> (r: Self)
        requires
            self.spec_score() is None,
        ensures
            r.spec_chf(),
            r.spec_age() == self.spec_age(),
            r.spec_sex() == self.spec_sex(),
            r.spec_diabetes() == self.spec_diabetes(),
            r.spec_htn() == self.spec_htn(),
            r.spec_stroke() == self.spec_stroke(),
            r.spec_vasc() == self.spec_vasc(),
            r.spec_score() is None,
    {
        Self { chf: true, ..self }
    }

    /// Adds diabetes.
    pub fn has_diabetes(self) -> (r: Self)
        requires
            self.spec_score() is None,
        ensures
            r.spec_diabetes(),
            r.spec_age() == self.spec_age(),
            r.spec_sex() == self.spec_sex(),
            r.spec_chf() == self.spec_chf(),
            r.spec_htn() == self.spec_htn(),
            r.spec_stroke() == self.spec_stroke(),
            r.spec_vasc() == self.spec_vasc(),
            r.spec_score() is None,
    {
        Self { diabetes: true, ..self }
    }

    /// Adds hypertension.
    pub fn has_htn(self) -> (r: Self)
        requires
            self.spec_score() is None,
        ensures
            r.spec_htn(),
            r.spec_age() == self.spec_age(),
            r.spec_sex() == self.spec_sex(),
            r.spec_chf() == self.spec_chf(),
            r.spec_diabetes() == self.spec_diabetes(),
            r.spec_stroke() == self.spec_stroke(),
            r.spec_vasc() == self.spec_vasc(),
            r.spec_score() is None,
    {
        Self { htn: true, ..self }
    }

    /// Adds a prior stroke or transient ischaemic attack.
    pub fn has_stroke_hx(self) -> (r: Self)
        requires
            self.spec_score() is None,
        ensures
            r.spec_stroke(),
            r.spec_age() == self.spec_age(),
            r.spec_sex() == self.spec_sex(),
            r.spec_chf() == self.spec_chf(),
            r.spec_diabetes() == self.spec_diabetes(),
            r.spec_htn() == self.spec_htn(),
            r.spec_vasc() == self.spec_vasc(),
            r.spec_score() is None,
    {
        Self { stroke: true, ..self }
    }

    /// Adds vascular disease.
    pub fn has_vascular_hx(self) -> (r: Self)
        requires
            self.spec_score() is None,
        ensures
            r.spec_vasc(),
            r.spec_age() == self.spec_age(),
            r.spec_sex() == self.spec_sex(),
            r.spec_chf() == self.spec_chf(),
            r.spec_diabetes() == self.spec_diabetes(),
            r.spec_htn() == self.spec_htn(),
            r.spec_stroke() == self.spec_stroke(),
            r.spec_score() is None,
    {
        Self { vasc: true, ..self }
    }

    /// The age given at construction.
    pub fn age(&self) -> (r: Years)
        ensures
            r == self.spec_age(),
    {
        self.age
    }

    /// The sex given at construction.
    pub fn gender(&self) -> (r: Gender)
        ensures
            r == self.spec_sex(),
    {
        self.sex
    }

    /// Whether congestive heart failure was added.
    pub fn chf(&self) -> (r: bool)
        ensures
            r == self.spec_chf(),
    {
        self.chf
    }

    /// Whether diabetes was added.
    pub fn diabetes(&self) -> (r: bool)
        ensures
            r == self.spec_diabetes(),
    {
        self.diabetes
    }

    /// Whether hypertension was added.
    pub fn htn(&self) -> (r: bool)
        ensures
            r == self.spec_htn(),
    {
        self.htn
    }

    /// Whether a prior stroke or TIA was added.
    pub fn stroke(&self) -> (r: bool)
        ensures
            r == self.spec_stroke(),
    {
        self.stroke
    }

    /// Whether vascular disease was added.
    pub fn vasc(&self) -> (r: bool)
        ensures
            r == self.spec_vasc(),
    {
        self.vasc
    }

    /// The score, or `None` before `calculate`.
    pub fn score(&self) -> (r: Option<u8>)
        ensures
            r == self.spec_score(),
    {
        self.score
    }

    /// Tallies the score from age, sex and risk factors.
    #[must_use]
    pub fn calculate(self) -> (r: Self)
        ensures
            self.same_factors(r),
            r.spec_score() == Some(self.points() as u8),
            0 <= self.points() <= 9,
    {
        let mut tally: u8 = if self.age.0.nanos >= 75 * NANOS_PER_UNIT {
            2
        } else if self.age.0.nanos >= 65 * NANOS_PER_UNIT {
            1
        } else {
            0
        };
        if self.sex == Gender::Female {
            tally += 1;
        }
        if self.chf {
            tally += 1;
        }
        if self.diabetes {
            tally += 1;
        }
        if self.htn {
            tally += 1;
        }
        if self.vasc {
            tally += 1;
        }
        if self.stroke {
            tally += 2;
        }
        Self { score: Some(tally), ..self }
    }

    /// Annual stroke risk in percent, or `None` before `calculate`.
    pub fn annual_stroke_risk_pct(&self) -> (r: Option<Fixed>)
        ensures
            match self.spec_score() {
                Some(s) => r == Some(Fixed { nanos: (vasc_risk_tenths(s as int) * (NANOS_PER_UNIT / 10)) as i64 }),
                None => r is None,
            },
    {
        proof {
            use_type_invariant(self);
        }
        match self.score {
            Some(s) => Some(Fixed::from_nanos(annual_cva_risk_table(s) * (NANOS_PER_UNIT / 10))),
            None => None,
        }
    }
}

} // verus!
