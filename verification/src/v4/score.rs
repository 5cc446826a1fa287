//! The CVSS v4.0 scoring engine.
//!
//! A fully resolved metric set is first classified into a macrovector: one
//! discrete coordinate per equivalence class (EQ1..EQ6).  The published table
//! gives the base severity value of the macrovector.  The final score then
//! interpolates between that value and the values of the next less severe
//! macrovectors, weighted by the ordinal severity distance of the vector from
//! the highest severity vector of its own macrovector.  All arithmetic is
//! exact: scores are tenths of a point and proportions are kept as integer
//! fractions over a common denominator.

use vstd::arithmetic::div_mod::lemma_div_is_ordered;
use vstd::arithmetic::div_mod::lemma_div_pos_is_pos;
use vstd::arithmetic::div_mod::lemma_multiply_divide_lt;
use vstd::prelude::*;

use crate::v4::tables::spec_table_value;
use crate::v4::tables::table_value;

verus! {

/// The 6-dimensional equivalence-class coordinate of a resolved vector.
///
/// Each field is the discrete severity band of one equivalence class, the
/// most severe band first at zero.  Only the combinations produced by the
/// classifier are valid; in particular EQ3 = 2 (no vulnerable-system impact
/// is High) forces EQ6 = 1 (no environmental requirement elevates one).
#[derive(Clone, Copy, Debug, PartialEq, Eq, Hash, Structural)]
pub struct MacroVector {
    pub eq1: u8,
    pub eq2: u8,
    pub eq3: u8,
    pub eq4: u8,
    pub eq5: u8,
    pub eq6: u8,
}

impl MacroVector {
    /// The coordinate ranges of the published table.
    pub open spec fn wf(self) -> bool {
        &&& self.eq1 <= 2
        &&& self.eq2 <= 1
        &&& self.eq3 <= 2
        &&& self.eq4 <= 2
        &&& self.eq5 <= 2
        &&& self.eq6 <= 1
        &&& !(self.eq3 == 2 && self.eq6 == 0)
    }
}

/// A complete, defaulted v4.0 metric set, each metric held as its ordinal
/// severity level (most severe value at level 0, as the severity distance
/// arithmetic counts it).  Modified metrics have already been substituted:
/// a "Not Defined" modified metric was replaced by its base counterpart,
/// Exploit Maturity defaults to Attacked and each environmental requirement
/// to High.
#[derive(Clone, Copy, Debug, PartialEq, Eq, Hash, Structural)]
pub struct ResolvedVector {
    /// Attack Vector: N 0, A 1, L 2, P 3.
    pub av: u8,
    /// Attack Complexity: L 0, H 1.
    pub ac: u8,
    /// Attack Requirements: N 0, P 1.
    pub at: u8,
    /// Privileges Required: N 0, L 1, H 2.
    pub pr: u8,
    /// User Interaction: N 0, P 1, A 2.
    pub ui: u8,
    /// Vulnerable System Confidentiality: H 0, L 1, N 2.
    pub vc: u8,
    /// Vulnerable System Integrity: H 0, L 1, N 2.
    pub vi: u8,
    /// Vulnerable System Availability: H 0, L 1, N 2.
    pub va: u8,
    /// Subsequent System Confidentiality: H 1, L 2, N 3.
    pub sc: u8,
    /// Subsequent System Integrity: S 0, H 1, L 2, N 3.
    pub si: u8,
    /// Subsequent System Availability: S 0, H 1, L 2, N 3.
    pub sa: u8,
    /// Exploit Maturity: A 0, P 1, U 2.
    pub e: u8,
    /// Confidentiality Requirement: H 0, M 1, L 2.
    pub cr: u8,
    /// Integrity Requirement: H 0, M 1, L 2.
    pub ir: u8,
    /// Availability Requirement: H 0, M 1, L 2.
    pub ar: u8,
}

impl ResolvedVector {
    /// Every level lies in the range of its metric.
    pub open spec fn wf(self) -> bool {
        &&& self.av <= 3
        &&& self.ac <= 1
        &&& self.at <= 1
        &&& self.pr <= 2
        &&& self.ui <= 2
        &&& self.vc <= 2
        &&& self.vi <= 2
        &&& self.va <= 2
        &&& 1 <= self.sc <= 3
        &&& self.si <= 3
        &&& self.sa <= 3
        &&& self.e <= 2
        &&& self.cr <= 2
        &&& self.ir <= 2
        &&& self.ar <= 2
    }
}

// ---------------------------------------------------------------------------
// Equivalence classifier.
// ---------------------------------------------------------------------------

/// EQ1: how easily initial access is gained, from Attack Vector, Privileges
/// Required and User Interaction.
pub open spec fn spec_eq1(r: ResolvedVector) -> int {
    if r.av == 0 && r.pr == 0 && r.ui == 0 {
        0
    } else if (r.av == 0 || r.pr == 0 || r.ui == 0) && r.av != 3 {
        1
    } else {
        2
    }
}

/// EQ2: attack complexity band, from Attack Complexity and Attack
/// Requirements.
pub open spec fn spec_eq2(r: ResolvedVector) -> int {
    if r.ac == 0 && r.at == 0 {
        0
    } else {
        1
    }
}

/// EQ3: vulnerable-system impact band.
pub open spec fn spec_eq3(r: ResolvedVector) -> int {
    if r.vc == 0 && r.vi == 0 {
        0
    } else if r.vc == 0 || r.vi == 0 || r.va == 0 {
        1
    } else {
        2
    }
}

/// EQ4: subsequent-system impact band.  A Safety designation on the
/// subsequent-system integrity or availability impact takes the
/// maximum-severity band regardless of the raw triple.
pub open spec fn spec_eq4(r: ResolvedVector) -> int {
    if r.si == 0 || r.sa == 0 {
        0
    } else if r.sc == 1 || r.si == 1 || r.sa == 1 {
        1
    } else {
        2
    }
}

/// EQ5: exploit maturity band.
pub open spec fn spec_eq5(r: ResolvedVector) -> int {
    r.e as int
}

/// EQ6: whether an environmental requirement elevates a High impact.
pub open spec fn spec_eq6(r: ResolvedVector) -> int {
    if (r.cr == 0 && r.vc == 0) || (r.ir == 0 && r.vi == 0) || (r.ar == 0 && r.va == 0) {
        0
    } else {
        1
    }
}

/// The macrovector of a resolved vector.
pub open spec fn spec_classify(r: ResolvedVector) -> MacroVector {
    MacroVector {
        eq1: spec_eq1(r) as u8,
        eq2: spec_eq2(r) as u8,
        eq3: spec_eq3(r) as u8,
        eq4: spec_eq4(r) as u8,
        eq5: spec_eq5(r) as u8,
        eq6: spec_eq6(r) as u8,
    }
}

/// Map a resolved vector to its macrovector.  Total: the input type is
/// closed and the partitioning rules cover every combination.
pub fn classify(r: &ResolvedVector) -> (mv: MacroVector)
    requires
        r.wf(),
    ensures
        mv == spec_classify(*r),
        mv.wf(),
{
    let eq1: u8 = if r.av == 0 && r.pr == 0 && r.ui == 0 {
        0
    } else if (r.av == 0 || r.pr == 0 || r.ui == 0) && r.av != 3 {
        1
    } else {
        2
    };
    let eq2: u8 = if r.ac == 0 && r.at == 0 {
        0
    } else {
        1
    };
    let eq3: u8 = if r.vc == 0 && r.vi == 0 {
        0
    } else if r.vc == 0 || r.vi == 0 || r.va == 0 {
        1
    } else {
        2
    };
    let eq4: u8 = if r.si == 0 || r.sa == 0 {
        0
    } else if r.sc == 1 || r.si == 1 || r.sa == 1 {
        1
    } else {
        2
    };
    let eq5: u8 = r.e;
    let eq6: u8 = if (r.cr == 0 && r.vc == 0) || (r.ir == 0 && r.vi == 0) || (r.ar == 0 && r.va
        == 0) {
        0
    } else {
        1
    };
    MacroVector { eq1, eq2, eq3, eq4, eq5, eq6 }
}

// ---------------------------------------------------------------------------
// Severity distance calculator.
//
// For each equivalence class, the published reference data lists the
// maximum-severity metric combinations of each band.  The distance of a
// vector from its band is the sum of per-metric ordinal level differences
// against the first listed combination that it dominates, that is, whose
// level it reaches or exceeds in every governed metric.  One such
// combination always exists for a vector of that band; tied candidates are
// equal by construction, so taking the first listed one matches the
// published computation.
// ---------------------------------------------------------------------------

/// Severity distance within EQ1, over AV, PR and UI.
pub open spec fn spec_dist_eq1(r: ResolvedVector) -> int {
    if spec_eq1(r) == 0 {
        // AV:N/PR:N/UI:N
        r.av + r.pr + r.ui
    } else if spec_eq1(r) == 1 {
        if r.av >= 1 {
            // AV:A/PR:N/UI:N
            (r.av - 1) + r.pr + r.ui
        } else if r.pr >= 1 {
            // AV:N/PR:L/UI:N
            r.av + (r.pr - 1) + r.ui
        } else {
            // AV:N/PR:N/UI:P
            r.av + r.pr + (r.ui - 1)
        }
    } else {
        if r.av >= 3 {
            // AV:P/PR:N/UI:N
            (r.av - 3) + r.pr + r.ui
        } else {
            // AV:A/PR:L/UI:P
            (r.av - 1) + (r.pr - 1) + (r.ui - 1)
        }
    }
}

/// Severity distance within EQ2, over AC and AT.
pub open spec fn spec_dist_eq2(r: ResolvedVector) -> int {
    if spec_eq2(r) == 0 {
        // AC:L/AT:N
        r.ac + r.at
    } else {
        if r.ac >= 1 {
            // AC:H/AT:N
            (r.ac - 1) + r.at
        } else {
            // AC:L/AT:P
            r.ac + (r.at - 1)
        }
    }
}

/// Severity distance within the joint EQ3/EQ6 class, over VC, VI, VA and the
/// environmental requirements CR, IR, AR.
pub open spec fn spec_dist_eq3eq6(r: ResolvedVector) -> int {
    if spec_eq3(r) == 0 && spec_eq6(r) == 0 {
        // VC:H/VI:H/VA:H/CR:H/IR:H/AR:H
        r.vc + r.vi + r.va + r.cr + r.ir + r.ar
    } else if spec_eq3(r) == 0 && spec_eq6(r) == 1 {
        if r.va >= 1 && r.cr >= 1 && r.ir >= 1 {
            // VC:H/VI:H/VA:L/CR:M/IR:M/AR:H
            r.vc + r.vi + (r.va - 1) + (r.cr - 1) + (r.ir - 1) + r.ar
        } else {
            // VC:H/VI:H/VA:H/CR:M/IR:M/AR:M
            r.vc + r.vi + r.va + (r.cr - 1) + (r.ir - 1) + (r.ar - 1)
        }
    } else if spec_eq3(r) == 1 && spec_eq6(r) == 0 {
        if r.vc >= 1 {
            // VC:L/VI:H/VA:H/CR:H/IR:H/AR:H
            (r.vc - 1) + r.vi + r.va + r.cr + r.ir + r.ar
        } else {
            // VC:H/VI:L/VA:H/CR:H/IR:H/AR:H
            r.vc + (r.vi - 1) + r.va + r.cr + r.ir + r.ar
        }
    } else if spec_eq3(r) == 1 && spec_eq6(r) == 1 {
        if r.vc >= 1 && r.va >= 1 && r.ir >= 1 {
            // VC:L/VI:H/VA:L/CR:H/IR:M/AR:H
            (r.vc - 1) + r.vi + (r.va - 1) + r.cr + (r.ir - 1) + r.ar
        } else if r.vc >= 1 && r.ir >= 1 && r.ar >= 1 {
            // VC:L/VI:H/VA:H/CR:H/IR:M/AR:M
            (r.vc - 1) + r.vi + r.va + r.cr + (r.ir - 1) + (r.ar - 1)
        } else if r.vi >= 1 && r.cr >= 1 && r.ar >= 1 {
            // VC:H/VI:L/VA:H/CR:M/IR:H/AR:M
            r.vc + (r.vi - 1) + r.va + (r.cr - 1) + r.ir + (r.ar - 1)
        } else if r.vi >= 1 && r.va >= 1 && r.cr >= 1 {
            // VC:H/VI:L/VA:L/CR:M/IR:H/AR:H
            r.vc + (r.vi - 1) + (r.va - 1) + (r.cr - 1) + r.ir + r.ar
        } else {
            // VC:L/VI:L/VA:H/CR:H/IR:H/AR:M
            (r.vc - 1) + (r.vi - 1) + r.va + r.cr + r.ir + (r.ar - 1)
        }
    } else {
        // EQ3 = 2, EQ6 = 1: VC:L/VI:L/VA:L/CR:H/IR:H/AR:H
        (r.vc - 1) + (r.vi - 1) + (r.va - 1) + r.cr + r.ir + r.ar
    }
}

/// Severity distance within EQ4, over SC, SI and SA.
pub open spec fn spec_dist_eq4(r: ResolvedVector) -> int {
    if spec_eq4(r) == 0 {
        // SC:H/SI:S/SA:S
        (r.sc - 1) + r.si + r.sa
    } else if spec_eq4(r) == 1 {
        // SC:H/SI:H/SA:H
        (r.sc - 1) + (r.si - 1) + (r.sa - 1)
    } else {
        // SC:L/SI:L/SA:L
        (r.sc - 2) + (r.si - 2) + (r.sa - 2)
    }
}

/// Severity distance within EQ1.
pub fn dist_eq1(r: &ResolvedVector) -> (d: u8)
    requires
        r.wf(),
    ensures
        d as int == spec_dist_eq1(*r),
        d <= 7,
{
    if r.av == 0 && r.pr == 0 && r.ui == 0 {
        r.av + r.pr + r.ui
    } else if (r.av == 0 || r.pr == 0 || r.ui == 0) && r.av != 3 {
        if r.av >= 1 {
            (r.av - 1) + r.pr + r.ui
        } else if r.pr >= 1 {
            r.av + (r.pr - 1) + r.ui
        } else {
            r.av + r.pr + (r.ui - 1)
        }
    } else {
        if r.av >= 3 {
            (r.av - 3) + r.pr + r.ui
        } else {
            (r.av - 1) + (r.pr - 1) + (r.ui - 1)
        }
    }
}

/// Severity distance within EQ2.
pub fn dist_eq2(r: &ResolvedVector) -> (d: u8)
    requires
        r.wf(),
    ensures
        d as int == spec_dist_eq2(*r),
        d <= 2,
{
    if r.ac == 0 && r.at == 0 {
        r.ac + r.at
    } else {
        if r.ac >= 1 {
            (r.ac - 1) + r.at
        } else {
            r.ac + (r.at - 1)
        }
    }
}

/// Severity distance within the joint EQ3/EQ6 class.
pub fn dist_eq3eq6(r: &ResolvedVector) -> (d: u8)
    requires
        r.wf(),
    ensures
        d as int == spec_dist_eq3eq6(*r),
        d <= 12,
{
    let eq3_high = r.vc == 0 && r.vi == 0;
    let eq3_some = r.vc == 0 || r.vi == 0 || r.va == 0;
    let eq6_high = (r.cr == 0 && r.vc == 0) || (r.ir == 0 && r.vi == 0) || (r.ar == 0 && r.va
        == 0);
    if eq3_high && eq6_high {
        r.vc + r.vi + r.va + r.cr + r.ir + r.ar
    } else if eq3_high {
        if r.va >= 1 && r.cr >= 1 && r.ir >= 1 {
            r.vc + r.vi + (r.va - 1) + (r.cr - 1) + (r.ir - 1) + r.ar
        } else {
            r.vc + r.vi + r.va + (r.cr - 1) + (r.ir - 1) + (r.ar - 1)
        }
    } else if eq3_some && eq6_high {
        if r.vc >= 1 {
            (r.vc - 1) + r.vi + r.va + r.cr + r.ir + r.ar
        } else {
            r.vc + (r.vi - 1) + r.va + r.cr + r.ir + r.ar
        }
    } else if eq3_some {
        if r.vc >= 1 && r.va >= 1 && r.ir >= 1 {
            (r.vc - 1) + r.vi + (r.va - 1) + r.cr + (r.ir - 1) + r.ar
        } else if r.vc >= 1 && r.ir >= 1 && r.ar >= 1 {
            (r.vc - 1) + r.vi + r.va + r.cr + (r.ir - 1) + (r.ar - 1)
        } else if r.vi >= 1 && r.cr >= 1 && r.ar >= 1 {
            r.vc + (r.vi - 1) + r.va + (r.cr - 1) + r.ir + (r.ar - 1)
        } else if r.vi >= 1 && r.va >= 1 && r.cr >= 1 {
            r.vc + (r.vi - 1) + (r.va - 1) + (r.cr - 1) + r.ir + r.ar
        } else {
            (r.vc - 1) + (r.vi - 1) + r.va + r.cr + r.ir + (r.ar - 1)
        }
    } else {
        (r.vc - 1) + (r.vi - 1) + (r.va - 1) + r.cr + r.ir + r.ar
    }
}

/// Severity distance within EQ4.
pub fn dist_eq4(r: &ResolvedVector) -> (d: u8)
    requires
        r.wf(),
    ensures
        d as int == spec_dist_eq4(*r),
        d <= 9,
{
    if r.si == 0 || r.sa == 0 {
        (r.sc - 1) + r.si + r.sa
    } else if r.sc == 1 || r.si == 1 || r.sa == 1 {
        (r.sc - 1) + (r.si - 1) + (r.sa - 1)
    } else {
        (r.sc - 2) + (r.si - 2) + (r.sa - 2)
    }
}

// ---------------------------------------------------------------------------
// Score interpolator.
// ---------------------------------------------------------------------------

/// The depth of the EQ1 band: the maximal severity distance its vectors can
/// have, per the published reference data.
pub open spec fn spec_depth_eq1(eq1: int) -> int {
    if eq1 == 0 {
        1
    } else if eq1 == 1 {
        4
    } else {
        5
    }
}

/// The depth of the EQ2 band.
pub open spec fn spec_depth_eq2(eq2: int) -> int {
    if eq2 == 0 {
        1
    } else {
        2
    }
}

/// The depth of the joint EQ3/EQ6 band.
pub open spec fn spec_depth_eq3eq6(eq3: int, eq6: int) -> int {
    if eq3 == 0 && eq6 == 0 {
        7
    } else if eq3 == 0 && eq6 == 1 {
        6
    } else if eq3 == 1 {
        8
    } else {
        10
    }
}

/// The depth of the EQ4 band.
pub open spec fn spec_depth_eq4(eq4: int) -> int {
    if eq4 == 0 {
        6
    } else if eq4 == 1 {
        5
    } else {
        4
    }
}

/// The table value of the next less severe macrovector along EQ1, if one
/// exists.
pub open spec fn spec_lower_eq1(mv: MacroVector) -> Option<int> {
    if mv.eq1 >= 2 {
        None
    } else {
        Some(spec_table_value(MacroVector { eq1: (mv.eq1 + 1) as u8, ..mv }))
    }
}

/// The table value of the next less severe macrovector along EQ2, if one
/// exists.
pub open spec fn spec_lower_eq2(mv: MacroVector) -> Option<int> {
    if mv.eq2 >= 1 {
        None
    } else {
        Some(spec_table_value(MacroVector { eq2: (mv.eq2 + 1) as u8, ..mv }))
    }
}

/// The table value of the next less severe macrovector along the joint
/// EQ3/EQ6 class, if one exists.  From the (0, 0) band both one-step
/// descents exist and the higher value anchors the interpolation.
pub open spec fn spec_lower_eq3eq6(mv: MacroVector) -> Option<int> {
    if mv.eq3 == 0 && mv.eq6 == 0 {
        let left: int = spec_table_value(MacroVector { eq6: 1, ..mv });
        let right: int = spec_table_value(MacroVector { eq3: 1, ..mv });
        Some(
            if left >= right {
                left
            } else {
                right
            },
        )
    } else if mv.eq3 == 1 && mv.eq6 == 0 {
        Some(spec_table_value(MacroVector { eq6: 1, ..mv }))
    } else if mv.eq3 <= 1 && mv.eq6 == 1 {
        Some(spec_table_value(MacroVector { eq3: (mv.eq3 + 1) as u8, ..mv }))
    } else {
        None
    }
}

/// The table value of the next less severe macrovector along EQ4, if one
/// exists.
pub open spec fn spec_lower_eq4(mv: MacroVector) -> Option<int> {
    if mv.eq4 >= 2 {
        None
    } else {
        Some(spec_table_value(MacroVector { eq4: (mv.eq4 + 1) as u8, ..mv }))
    }
}

/// The table value of the next less severe macrovector along EQ5, if one
/// exists.
pub open spec fn spec_lower_eq5(mv: MacroVector) -> Option<int> {
    if mv.eq5 >= 2 {
        None
    } else {
        Some(spec_table_value(MacroVector { eq5: (mv.eq5 + 1) as u8, ..mv }))
    }
}

/// How many equivalence classes have a less severe neighboring macrovector.
/// Each of them contributes to the interpolation mean.
pub open spec fn spec_lower_count(mv: MacroVector) -> int {
    (if spec_lower_eq1(mv) is Some {
        1int
    } else {
        0int
    }) + (if spec_lower_eq2(mv) is Some {
        1int
    } else {
        0int
    }) + (if spec_lower_eq3eq6(mv) is Some {
        1int
    } else {
        0int
    }) + (if spec_lower_eq4(mv) is Some {
        1int
    } else {
        0int
    }) + (if spec_lower_eq5(mv) is Some {
        1int
    } else {
        0int
    })
}

/// The sum over the equivalence classes of `available * distance / depth`,
/// scaled by the common denominator 840 (the least common multiple of the
/// depths), where `available` is the scoring range down to the less severe
/// neighbor and `distance / depth` the proportion of that range the vector
/// has descended.  EQ5 always contributes zero distance.
pub open spec fn spec_interpolation_sum(r: ResolvedVector, mv: MacroVector, value: int) -> int {
    (match spec_lower_eq1(mv) {
        Some(lo) => (value - lo) * spec_dist_eq1(r) * (840int / spec_depth_eq1(mv.eq1 as int)),
        None => 0,
    }) + (match spec_lower_eq2(mv) {
        Some(lo) => (value - lo) * spec_dist_eq2(r) * (840int / spec_depth_eq2(mv.eq2 as int)),
        None => 0,
    }) + (match spec_lower_eq3eq6(mv) {
        Some(lo) => (value - lo) * spec_dist_eq3eq6(r) * (840int / spec_depth_eq3eq6(
            mv.eq3 as int,
            mv.eq6 as int,
        )),
        None => 0,
    }) + (match spec_lower_eq4(mv) {
        Some(lo) => (value - lo) * spec_dist_eq4(r) * (840int / spec_depth_eq4(mv.eq4 as int)),
        None => 0,
    })
}

/// Whether the resolved vector reports no impact at all; such vectors score
/// zero outright.
pub open spec fn spec_no_impact(r: ResolvedVector) -> bool {
    r.vc == 2 && r.vi == 2 && r.va == 2 && r.sc == 3 && r.si == 3 && r.sa == 3
}

/// The v4.0 score of a resolved vector, in tenths of a point.
///
/// The macrovector's table value is reduced by the mean of the proportional
/// severity distances and the result is clamped to `[0, 100]` tenths and
/// rounded half-up to a whole tenth.  Exactly: with `n` the number of
/// classes that have a less severe neighbor, the score is
/// `value - sum / (840 * n)` where `sum` is the scaled interpolation sum.
pub open spec fn spec_interpolate(value: int, num: int, n: int) -> int {
    if n == 0 {
        value
    } else {
        let q: int = 840 * n;
        let p: int = value * q - num;
        if p <= 0 {
            0
        } else if p >= 100 * q {
            100
        } else {
            (2 * p + q) / (2 * q)
        }
    }
}

#[verifier::opaque]
pub open spec fn spec_score_resolved(r: ResolvedVector) -> int {
    if spec_no_impact(r) {
        0
    } else {
        let mv = spec_classify(r);
        let value: int = spec_table_value(mv);
        spec_interpolate(value, spec_interpolation_sum(r, mv, value), spec_lower_count(mv))
    }
}

/// One interpolation term: `avail * dist * weight`, with bounds that keep
/// the running sum far from overflow.
fn weighted_term(avail: i64, dist: i64, weight: i64) -> (r: i64)
    requires
        -100 <= avail <= 100,
        0 <= dist <= 12,
        0 <= weight <= 840,
    ensures
        r == avail * dist * weight,
        -1008000 <= r <= 1008000,
{
    proof {
        assert(-1200 <= avail * dist <= 1200) by (nonlinear_arith)
            requires
                -100 <= avail <= 100,
                0 <= dist <= 12,
        ;
        assert(-1008000 <= (avail * dist) * weight <= 1008000) by (nonlinear_arith)
            requires
                -1200 <= avail * dist <= 1200,
                0 <= weight <= 840,
        ;
    }
    avail * dist * weight
}

/// Compute the v4.0 score of a resolved vector, in tenths of a point.
#[verifier::rlimit(80)]
#[verifier::spinoff_prover]
pub fn score_from_resolved(r: &ResolvedVector) -> (t: u8)
    requires
        r.wf(),
    ensures
        t as int == spec_score_resolved(*r),
        t <= 100,
{
    proof {
        reveal(spec_score_resolved);
    }
    if r.vc == 2 && r.vi == 2 && r.va == 2 && r.sc == 3 && r.si == 3 && r.sa == 3 {
        return 0;
    }
    let mv = classify(r);
    let value = table_value(&mv);
    let mut num: i64 = 0;
    let mut n: i64 = 0;

    if mv.eq1 < 2 {
        let lo = table_value(&MacroVector { eq1: mv.eq1 + 1, ..mv });
        let d = dist_eq1(r);
        let w: i64 = if mv.eq1 == 0 {
            840
        } else {
            210
        };
        num = num + weighted_term(value as i64 - lo as i64, d as i64, w);
        n = n + 1;
    }
    assert(num as int == (match spec_lower_eq1(mv) {
        Some(lo) => (value as int - lo) * spec_dist_eq1(*r) * (840int / spec_depth_eq1(
            mv.eq1 as int,
        )),
        None => 0,
    }));

    if mv.eq2 < 1 {
        let lo = table_value(&MacroVector { eq2: mv.eq2 + 1, ..mv });
        let d = dist_eq2(r);
        num = num + weighted_term(value as i64 - lo as i64, d as i64, 840);
        n = n + 1;
    }

    if mv.eq3 == 0 && mv.eq6 == 0 {
        let left = table_value(&MacroVector { eq6: 1, ..mv });
        let right = table_value(&MacroVector { eq3: 1, ..mv });
        let lo = if left >= right {
            left
        } else {
            right
        };
        let d = dist_eq3eq6(r);
        num = num + weighted_term(value as i64 - lo as i64, d as i64, 120);
        n = n + 1;
    } else if mv.eq3 == 1 && mv.eq6 == 0 {
        let lo = table_value(&MacroVector { eq6: 1, ..mv });
        let d = dist_eq3eq6(r);
        num = num + weighted_term(value as i64 - lo as i64, d as i64, 105);
        n = n + 1;
    } else if mv.eq3 <= 1 && mv.eq6 == 1 {
        let lo = table_value(&MacroVector { eq3: mv.eq3 + 1, ..mv });
        let d = dist_eq3eq6(r);
        let w: i64 = if mv.eq3 == 0 {
            140
        } else {
            105
        };
        num = num + weighted_term(value as i64 - lo as i64, d as i64, w);
        n = n + 1;
    }

    if mv.eq4 < 2 {
        let lo = table_value(&MacroVector { eq4: mv.eq4 + 1, ..mv });
        let d = dist_eq4(r);
        let w: i64 = if mv.eq4 == 0 {
            140
        } else {
            168
        };
        num = num + weighted_term(value as i64 - lo as i64, d as i64, w);
        n = n + 1;
    }

    if mv.eq5 < 2 {
        n = n + 1;
    }

    assert(n as int == spec_lower_count(mv));
    assert(num as int == spec_interpolation_sum(*r, mv, value as int));

    interpolate(value, num, n)
}

/// Interpolate between the macrovector value and its less severe neighbors:
/// subtract the mean proportional distance `num / (840 * n)` from `value`,
/// clamp to the score range and round half-up to a whole tenth.
fn interpolate(value: u8, num: i64, n: i64) -> (t: u8)
    requires
        value <= 100,
        -5100000 <= num <= 5100000,
        0 <= n <= 5,
    ensures
        t as int == spec_interpolate(value as int, num as int, n as int),
        t <= 100,
{
    if n == 0 {
        return value;
    }
    let q: i64 = 840 * n;
    proof {
        assert(0 <= (value as i64) * q <= 420000) by (nonlinear_arith)
            requires
                0 <= value <= 100,
                0 <= q <= 4200,
        ;
    }
    let p: i64 = (value as i64) * q - num;
    if p <= 0 {
        return 0;
    }
    if p >= 100 * q {
        return 100;
    }
    let a: u64 = (2 * p + q) as u64;
    let b: u64 = (2 * q) as u64;
    assert(a as int == 2 * (p as int) + (q as int));
    assert(b as int == 2 * (q as int));
    let t64: u64 = a / b;
    proof {
        lemma_multiply_divide_lt(a as int, b as int, 101);
    }
    t64 as u8
}

/// The interpolated and rounded score lies in the score range whenever the
/// macrovector value does.
pub proof fn lemma_interpolate_bounds(value: int, num: int, n: int)
    requires
        0 <= value <= 100,
        n >= 0,
    ensures
        0 <= spec_interpolate(value, num, n) <= 100,
{
    if n > 0 {
        let q: int = 840 * n;
        let p: int = value * q - num;
        if 0 < p < 100 * q {
            lemma_div_pos_is_pos(2 * p + q, 2 * q);
            lemma_multiply_divide_lt(2 * p + q, 2 * q, 101);
        }
    }
}

/// For every resolved vector the score lies in the published range
/// `[0.0, 10.0]`, held here in tenths.
pub proof fn lemma_score_resolved_in_range(r: ResolvedVector)
    ensures
        0 <= spec_score_resolved(r) <= 100,
{
    reveal(spec_score_resolved);
    if !spec_no_impact(r) {
        let mv = spec_classify(r);
        crate::v4::tables::lemma_table_value_bounds(mv);
        lemma_interpolate_bounds(
            spec_table_value(mv),
            spec_interpolation_sum(r, mv, spec_table_value(mv)),
            spec_lower_count(mv),
        );
    }
}

/// Raising the severity of the vulnerable-system impacts within the same
/// joint EQ3/EQ6 band never raises its severity distance.
#[verifier::rlimit(100)]
#[verifier::spinoff_prover]
pub proof fn lemma_dist_eq3eq6_monotone(r1: ResolvedVector, r2: ResolvedVector)
    requires
        r1.wf(),
        r2.wf(),
        r2.cr == r1.cr,
        r2.ir == r1.ir,
        r2.ar == r1.ar,
        r2.vc <= r1.vc,
        r2.vi <= r1.vi,
        r2.va <= r1.va,
        spec_eq3(r2) == spec_eq3(r1),
        spec_eq6(r2) == spec_eq6(r1),
    ensures
        spec_dist_eq3eq6(r2) <= spec_dist_eq3eq6(r1),
{
}

/// Raising the severity of the subsequent-system impacts within the same
/// EQ4 band never raises its severity distance.
#[verifier::rlimit(100)]
#[verifier::spinoff_prover]
pub proof fn lemma_dist_eq4_monotone(r1: ResolvedVector, r2: ResolvedVector)
    requires
        r1.wf(),
        r2.wf(),
        r2.sc <= r1.sc,
        r2.si <= r1.si,
        r2.sa <= r1.sa,
        spec_eq4(r2) == spec_eq4(r1),
    ensures
        spec_dist_eq4(r2) <= spec_dist_eq4(r1),
{
}

/// Raising the severity of impact metrics never moves any equivalence
/// class toward a less severe band.
pub proof fn lemma_classify_monotone(r1: ResolvedVector, r2: ResolvedVector)
    requires
        r1.wf(),
        r2.wf(),
        r2.av == r1.av,
        r2.ac == r1.ac,
        r2.at == r1.at,
        r2.pr == r1.pr,
        r2.ui == r1.ui,
        r2.e == r1.e,
        r2.cr == r1.cr,
        r2.ir == r1.ir,
        r2.ar == r1.ar,
        r2.vc <= r1.vc,
        r2.vi <= r1.vi,
        r2.va <= r1.va,
        r2.sc <= r1.sc,
        r2.si <= r1.si,
        r2.sa <= r1.sa,
    ensures
        spec_eq1(r2) == spec_eq1(r1),
        spec_eq2(r2) == spec_eq2(r1),
        spec_eq3(r2) <= spec_eq3(r1),
        spec_eq4(r2) <= spec_eq4(r1),
        spec_eq5(r2) == spec_eq5(r1),
        spec_eq6(r2) <= spec_eq6(r1),
{
}

/// The interpolated score never falls when the summed proportional
/// distance falls.
pub proof fn lemma_interpolate_monotone(value: int, num1: int, num2: int, n: int)
    requires
        0 <= value <= 100,
        num2 <= num1,
        n >= 0,
    ensures
        spec_interpolate(value, num2, n) >= spec_interpolate(value, num1, n),
{
    lemma_interpolate_bounds(value, num1, n);
    lemma_interpolate_bounds(value, num2, n);
    if n > 0 {
        let q: int = 840 * n;
        let p1: int = value * q - num1;
        let p2: int = value * q - num2;
        if p1 <= 0 {
            // The less severe score clamps to zero.
        } else if p2 >= 100 * q {
            // The more severe score clamps to the maximum.
        } else {
            lemma_div_is_ordered(2 * p1 + q, 2 * p2 + q, 2 * q);
        }
    }
}

/// Monotonicity of the score in the impact metrics, within one
/// macrovector: for two resolved vectors that agree on all non-impact
/// metrics and classify into the same macrovector, the one whose impact
/// metrics are uniformly at least as severe never scores lower.
#[verifier::rlimit(100)]
#[verifier::spinoff_prover]
pub proof fn lemma_score_monotone_same_class(r1: ResolvedVector, r2: ResolvedVector)
    requires
        r1.wf(),
        r2.wf(),
        r2.av == r1.av,
        r2.ac == r1.ac,
        r2.at == r1.at,
        r2.pr == r1.pr,
        r2.ui == r1.ui,
        r2.e == r1.e,
        r2.cr == r1.cr,
        r2.ir == r1.ir,
        r2.ar == r1.ar,
        r2.vc <= r1.vc,
        r2.vi <= r1.vi,
        r2.va <= r1.va,
        r2.sc <= r1.sc,
        r2.si <= r1.si,
        r2.sa <= r1.sa,
        spec_classify(r2) == spec_classify(r1),
    ensures
        spec_score_resolved(r2) >= spec_score_resolved(r1),
{
    reveal(spec_score_resolved);
    lemma_score_resolved_in_range(r1);
    lemma_score_resolved_in_range(r2);
    if spec_no_impact(r1) {
        // The less severe vector scores zero.
    } else if spec_no_impact(r2) {
        // Impossible short of equality: no-impact levels are maximal, so
        // the pointwise less-or-equal hypothesis forces the same levels.
        assert(spec_no_impact(r1));
    } else {
        let mv = spec_classify(r1);
        let value: int = spec_table_value(mv);
        crate::v4::tables::lemma_table_value_bounds(mv);
        let n: int = spec_lower_count(mv);
        let sum1: int = spec_interpolation_sum(r1, mv, value);
        let sum2: int = spec_interpolation_sum(r2, mv, value);
        assert(spec_dist_eq1(r2) == spec_dist_eq1(r1));
        assert(spec_dist_eq2(r2) == spec_dist_eq2(r1));
        lemma_dist_eq3eq6_monotone(r1, r2);
        lemma_dist_eq4_monotone(r1, r2);

        match spec_lower_eq3eq6(mv) {
            Option::Some(lo) => {
                if mv.eq3 == 0 && mv.eq6 == 0 {
                    crate::v4::tables::lemma_table_monotone_eq3(mv);
                    crate::v4::tables::lemma_table_monotone_eq6(mv);
                } else if mv.eq3 == 1 && mv.eq6 == 0 {
                    crate::v4::tables::lemma_table_monotone_eq6(mv);
                } else {
                    crate::v4::tables::lemma_table_monotone_eq3(mv);
                }
                let w: int = 840int / spec_depth_eq3eq6(mv.eq3 as int, mv.eq6 as int);
                let d1: int = spec_dist_eq3eq6(r1);
                let d2: int = spec_dist_eq3eq6(r2);
                assert(w == 120 || w == 140 || w == 105 || w == 84);
                assert((value - lo) * d2 * w <= (value - lo) * d1 * w) by (nonlinear_arith)
                    requires
                        value - lo >= 0,
                        d2 <= d1,
                        w >= 0,
                ;
            },
            Option::None => {},
        }
        match spec_lower_eq4(mv) {
            Option::Some(lo) => {
                crate::v4::tables::lemma_table_monotone_eq4(mv);
                let w: int = 840int / spec_depth_eq4(mv.eq4 as int);
                let d1: int = spec_dist_eq4(r1);
                let d2: int = spec_dist_eq4(r2);
                assert(w == 140 || w == 168);
                assert((value - lo) * d2 * w <= (value - lo) * d1 * w) by (nonlinear_arith)
                    requires
                        value - lo >= 0,
                        d2 <= d1,
                        w >= 0,
                ;
            },
            Option::None => {},
        }
        assert(sum2 <= sum1);
        lemma_interpolate_monotone(value, sum1, sum2, n);
    }
}

} // verus!
