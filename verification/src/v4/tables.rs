//! The constant macrovector score table of the CVSS v4.0 specification.
//!
//! Every valid macrovector maps to the published base severity value of its
//! equivalence class, held in tenths of a point.  The entries are transcribed
//! verbatim from the published CVSS v4.0 reference data and grouped by the
//! EQ1/EQ2 coordinates to keep each function small.

use vstd::prelude::*;

use crate::v4::score::MacroVector;

verus! {

/// Table entries with EQ1 = 0 and EQ2 = 0, keyed by (EQ3, EQ4, EQ5, EQ6).
#[verifier::opaque]
pub open spec fn spec_score_eq1_0_eq2_0(eq3: int, eq4: int, eq5: int, eq6: int) -> int {
    if eq3 == 0 && eq4 == 0 && eq5 == 0 && eq6 == 0 {
        100
    } else if eq3 == 0 && eq4 == 0 && eq5 == 0 && eq6 == 1 {
        99
    } else if eq3 == 0 && eq4 == 0 && eq5 == 1 && eq6 == 0 {
        98
    } else if eq3 == 0 && eq4 == 0 && eq5 == 1 && eq6 == 1 {
        95
    } else if eq3 == 0 && eq4 == 0 && eq5 == 2 && eq6 == 0 {
        95
    } else if eq3 == 0 && eq4 == 0 && eq5 == 2 && eq6 == 1 {
        92
    } else if eq3 == 0 && eq4 == 1 && eq5 == 0 && eq6 == 0 {
        100
    } else if eq3 == 0 && eq4 == 1 && eq5 == 0 && eq6 == 1 {
        96
    } else if eq3 == 0 && eq4 == 1 && eq5 == 1 && eq6 == 0 {
        93
    } else if eq3 == 0 && eq4 == 1 && eq5 == 1 && eq6 == 1 {
        87
    } else if eq3 == 0 && eq4 == 1 && eq5 == 2 && eq6 == 0 {
        91
    } else if eq3 == 0 && eq4 == 1 && eq5 == 2 && eq6 == 1 {
        81
    } else if eq3 == 0 && eq4 == 2 && eq5 == 0 && eq6 == 0 {
        93
    } else if eq3 == 0 && eq4 == 2 && eq5 == 0 && eq6 == 1 {
        90
    } else if eq3 == 0 && eq4 == 2 && eq5 == 1 && eq6 == 0 {
        89
    } else if eq3 == 0 && eq4 == 2 && eq5 == 1 && eq6 == 1 {
        80
    } else if eq3 == 0 && eq4 == 2 && eq5 == 2 && eq6 == 0 {
        81
    } else if eq3 == 0 && eq4 == 2 && eq5 == 2 && eq6 == 1 {
        68
    } else if eq3 == 1 && eq4 == 0 && eq5 == 0 && eq6 == 0 {
        98
    } else if eq3 == 1 && eq4 == 0 && eq5 == 0 && eq6 == 1 {
        95
    } else if eq3 == 1 && eq4 == 0 && eq5 == 1 && eq6 == 0 {
        95
    } else if eq3 == 1 && eq4 == 0 && eq5 == 1 && eq6 == 1 {
        92
    } else if eq3 == 1 && eq4 == 0 && eq5 == 2 && eq6 == 0 {
        90
    } else if eq3 == 1 && eq4 == 0 && eq5 == 2 && eq6 == 1 {
        84
    } else if eq3 == 1 && eq4 == 1 && eq5 == 0 && eq6 == 0 {
        93
    } else if eq3 == 1 && eq4 == 1 && eq5 == 0 && eq6 == 1 {
        92
    } else if eq3 == 1 && eq4 == 1 && eq5 == 1 && eq6 == 0 {
        89
    } else if eq3 == 1 && eq4 == 1 && eq5 == 1 && eq6 == 1 {
        81
    } else if eq3 == 1 && eq4 == 1 && eq5 == 2 && eq6 == 0 {
        81
    } else if eq3 == 1 && eq4 == 1 && eq5 == 2 && eq6 == 1 {
        65
    } else if eq3 == 1 && eq4 == 2 && eq5 == 0 && eq6 == 0 {
        88
    } else if eq3 == 1 && eq4 == 2 && eq5 == 0 && eq6 == 1 {
        80
    } else if eq3 == 1 && eq4 == 2 && eq5 == 1 && eq6 == 0 {
        78
    } else if eq3 == 1 && eq4 == 2 && eq5 == 1 && eq6 == 1 {
        70
    } else if eq3 == 1 && eq4 == 2 && eq5 == 2 && eq6 == 0 {
        69
    } else if eq3 == 1 && eq4 == 2 && eq5 == 2 && eq6 == 1 {
        48
    } else if eq3 == 2 && eq4 == 0 && eq5 == 0 && eq6 == 1 {
        92
    } else if eq3 == 2 && eq4 == 0 && eq5 == 1 && eq6 == 1 {
        82
    } else if eq3 == 2 && eq4 == 0 && eq5 == 2 && eq6 == 1 {
        72
    } else if eq3 == 2 && eq4 == 1 && eq5 == 0 && eq6 == 1 {
        79
    } else if eq3 == 2 && eq4 == 1 && eq5 == 1 && eq6 == 1 {
        69
    } else if eq3 == 2 && eq4 == 1 && eq5 == 2 && eq6 == 1 {
        50
    } else if eq3 == 2 && eq4 == 2 && eq5 == 0 && eq6 == 1 {
        69
    } else if eq3 == 2 && eq4 == 2 && eq5 == 1 && eq6 == 1 {
        55
    } else if eq3 == 2 && eq4 == 2 && eq5 == 2 && eq6 == 1 {
        27
    } else {
        0
    }
}

fn score_eq1_0_eq2_0(eq3: u8, eq4: u8, eq5: u8, eq6: u8) -> (r: u8)
    ensures
        r as int == spec_score_eq1_0_eq2_0(eq3 as int, eq4 as int, eq5 as int, eq6 as int),
        r <= 100,
{
    proof {
        reveal(spec_score_eq1_0_eq2_0);
    }
    if eq3 == 0 && eq4 == 0 && eq5 == 0 && eq6 == 0 {
        100
    } else if eq3 == 0 && eq4 == 0 && eq5 == 0 && eq6 == 1 {
        99
    } else if eq3 == 0 && eq4 == 0 && eq5 == 1 && eq6 == 0 {
        98
    } else if eq3 == 0 && eq4 == 0 && eq5 == 1 && eq6 == 1 {
        95
    } else if eq3 == 0 && eq4 == 0 && eq5 == 2 && eq6 == 0 {
        95
    } else if eq3 == 0 && eq4 == 0 && eq5 == 2 && eq6 == 1 {
        92
    } else if eq3 == 0 && eq4 == 1 && eq5 == 0 && eq6 == 0 {
        100
    } else if eq3 == 0 && eq4 == 1 && eq5 == 0 && eq6 == 1 {
        96
    } else if eq3 == 0 && eq4 == 1 && eq5 == 1 && eq6 == 0 {
        93
    } else if eq3 == 0 && eq4 == 1 && eq5 == 1 && eq6 == 1 {
        87
    } else if eq3 == 0 && eq4 == 1 && eq5 == 2 && eq6 == 0 {
        91
    } else if eq3 == 0 && eq4 == 1 && eq5 == 2 && eq6 == 1 {
        81
    } else if eq3 == 0 && eq4 == 2 && eq5 == 0 && eq6 == 0 {
        93
    } else if eq3 == 0 && eq4 == 2 && eq5 == 0 && eq6 == 1 {
        90
    } else if eq3 == 0 && eq4 == 2 && eq5 == 1 && eq6 == 0 {
        89
    } else if eq3 == 0 && eq4 == 2 && eq5 == 1 && eq6 == 1 {
        80
    } else if eq3 == 0 && eq4 == 2 && eq5 == 2 && eq6 == 0 {
        81
    } else if eq3 == 0 && eq4 == 2 && eq5 == 2 && eq6 == 1 {
        68
    } else if eq3 == 1 && eq4 == 0 && eq5 == 0 && eq6 == 0 {
        98
    } else if eq3 == 1 && eq4 == 0 && eq5 == 0 && eq6 == 1 {
        95
    } else if eq3 == 1 && eq4 == 0 && eq5 == 1 && eq6 == 0 {
        95
    } else if eq3 == 1 && eq4 == 0 && eq5 == 1 && eq6 == 1 {
        92
    } else if eq3 == 1 && eq4 == 0 && eq5 == 2 && eq6 == 0 {
        90
    } else if eq3 == 1 && eq4 == 0 && eq5 == 2 && eq6 == 1 {
        84
    } else if eq3 == 1 && eq4 == 1 && eq5 == 0 && eq6 == 0 {
        93
    } else if eq3 == 1 && eq4 == 1 && eq5 == 0 && eq6 == 1 {
        92
    } else if eq3 == 1 && eq4 == 1 && eq5 == 1 && eq6 == 0 {
        89
    } else if eq3 == 1 && eq4 == 1 && eq5 == 1 && eq6 == 1 {
        81
    } else if eq3 == 1 && eq4 == 1 && eq5 == 2 && eq6 == 0 {
        81
    } else if eq3 == 1 && eq4 == 1 && eq5 == 2 && eq6 == 1 {
        65
    } else if eq3 == 1 && eq4 == 2 && eq5 == 0 && eq6 == 0 {
        88
    } else if eq3 == 1 && eq4 == 2 && eq5 == 0 && eq6 == 1 {
        80
    } else if eq3 == 1 && eq4 == 2 && eq5 == 1 && eq6 == 0 {
        78
    } else if eq3 == 1 && eq4 == 2 && eq5 == 1 && eq6 == 1 {
        70
    } else if eq3 == 1 && eq4 == 2 && eq5 == 2 && eq6 == 0 {
        69
    } else if eq3 == 1 && eq4 == 2 && eq5 == 2 && eq6 == 1 {
        48
    } else if eq3 == 2 && eq4 == 0 && eq5 == 0 && eq6 == 1 {
        92
    } else if eq3 == 2 && eq4 == 0 && eq5 == 1 && eq6 == 1 {
        82
    } else if eq3 == 2 && eq4 == 0 && eq5 == 2 && eq6 == 1 {
        72
    } else if eq3 == 2 && eq4 == 1 && eq5 == 0 && eq6 == 1 {
        79
    } else if eq3 == 2 && eq4 == 1 && eq5 == 1 && eq6 == 1 {
        69
    } else if eq3 == 2 && eq4 == 1 && eq5 == 2 && eq6 == 1 {
        50
    } else if eq3 == 2 && eq4 == 2 && eq5 == 0 && eq6 == 1 {
        69
    } else if eq3 == 2 && eq4 == 2 && eq5 == 1 && eq6 == 1 {
        55
    } else if eq3 == 2 && eq4 == 2 && eq5 == 2 && eq6 == 1 {
        27
    } else {
        0
    }
}

/// Table entries with EQ1 = 0 and EQ2 = 1, keyed by (EQ3, EQ4, EQ5, EQ6).
#[verifier::opaque]
pub open spec fn spec_score_eq1_0_eq2_1(eq3: int, eq4: int, eq5: int, eq6: int) -> int {
    if eq3 == 0 && eq4 == 0 && eq5 == 0 && eq6 == 0 {
        99
    } else if eq3 == 0 && eq4 == 0 && eq5 == 0 && eq6 == 1 {
        97
    } else if eq3 == 0 && eq4 == 0 && eq5 == 1 && eq6 == 0 {
        95
    } else if eq3 == 0 && eq4 == 0 && eq5 == 1 && eq6 == 1 {
        92
    } else if eq3 == 0 && eq4 == 0 && eq5 == 2 && eq6 == 0 {
        92
    } else if eq3 == 0 && eq4 == 0 && eq5 == 2 && eq6 == 1 {
        85
    } else if eq3 == 0 && eq4 == 1 && eq5 == 0 && eq6 == 0 {
        95
    } else if eq3 == 0 && eq4 == 1 && eq5 == 0 && eq6 == 1 {
        91
    } else if eq3 == 0 && eq4 == 1 && eq5 == 1 && eq6 == 0 {
        90
    } else if eq3 == 0 && eq4 == 1 && eq5 == 1 && eq6 == 1 {
        83
    } else if eq3 == 0 && eq4 == 1 && eq5 == 2 && eq6 == 0 {
        84
    } else if eq3 == 0 && eq4 == 1 && eq5 == 2 && eq6 == 1 {
        71
    } else if eq3 == 0 && eq4 == 2 && eq5 == 0 && eq6 == 0 {
        92
    } else if eq3 == 0 && eq4 == 2 && eq5 == 0 && eq6 == 1 {
        81
    } else if eq3 == 0 && eq4 == 2 && eq5 == 1 && eq6 == 0 {
        82
    } else if eq3 == 0 && eq4 == 2 && eq5 == 1 && eq6 == 1 {
        71
    } else if eq3 == 0 && eq4 == 2 && eq5 == 2 && eq6 == 0 {
        72
    } else if eq3 == 0 && eq4 == 2 && eq5 == 2 && eq6 == 1 {
        53
    } else if eq3 == 1 && eq4 == 0 && eq5 == 0 && eq6 == 0 {
        95
    } else if eq3 == 1 && eq4 == 0 && eq5 == 0 && eq6 == 1 {
        93
    } else if eq3 == 1 && eq4 == 0 && eq5 == 1 && eq6 == 0 {
        92
    } else if eq3 == 1 && eq4 == 0 && eq5 == 1 && eq6 == 1 {
        85
    } else if eq3 == 1 && eq4 == 0 && eq5 == 2 && eq6 == 0 {
        85
    } else if eq3 == 1 && eq4 == 0 && eq5 == 2 && eq6 == 1 {
        73
    } else if eq3 == 1 && eq4 == 1 && eq5 == 0 && eq6 == 0 {
        92
    } else if eq3 == 1 && eq4 == 1 && eq5 == 0 && eq6 == 1 {
        82
    } else if eq3 == 1 && eq4 == 1 && eq5 == 1 && eq6 == 0 {
        80
    } else if eq3 == 1 && eq4 == 1 && eq5 == 1 && eq6 == 1 {
        72
    } else if eq3 == 1 && eq4 == 1 && eq5 == 2 && eq6 == 0 {
        70
    } else if eq3 == 1 && eq4 == 1 && eq5 == 2 && eq6 == 1 {
        59
    } else if eq3 == 1 && eq4 == 2 && eq5 == 0 && eq6 == 0 {
        84
    } else if eq3 == 1 && eq4 == 2 && eq5 == 0 && eq6 == 1 {
        70
    } else if eq3 == 1 && eq4 == 2 && eq5 == 1 && eq6 == 0 {
        71
    } else if eq3 == 1 && eq4 == 2 && eq5 == 1 && eq6 == 1 {
        52
    } else if eq3 == 1 && eq4 == 2 && eq5 == 2 && eq6 == 0 {
        50
    } else if eq3 == 1 && eq4 == 2 && eq5 == 2 && eq6 == 1 {
        30
    } else if eq3 == 2 && eq4 == 0 && eq5 == 0 && eq6 == 1 {
        86
    } else if eq3 == 2 && eq4 == 0 && eq5 == 1 && eq6 == 1 {
        75
    } else if eq3 == 2 && eq4 == 0 && eq5 == 2 && eq6 == 1 {
        52
    } else if eq3 == 2 && eq4 == 1 && eq5 == 0 && eq6 == 1 {
        71
    } else if eq3 == 2 && eq4 == 1 && eq5 == 1 && eq6 == 1 {
        52
    } else if eq3 == 2 && eq4 == 1 && eq5 == 2 && eq6 == 1 {
        29
    } else if eq3 == 2 && eq4 == 2 && eq5 == 0 && eq6 == 1 {
        63
    } else if eq3 == 2 && eq4 == 2 && eq5 == 1 && eq6 == 1 {
        29
    } else if eq3 == 2 && eq4 == 2 && eq5 == 2 && eq6 == 1 {
        17
    } else {
        0
    }
}

fn score_eq1_0_eq2_1(eq3: u8, eq4: u8, eq5: u8, eq6: u8) -> (r: u8)
    ensures
        r as int == spec_score_eq1_0_eq2_1(eq3 as int, eq4 as int, eq5 as int, eq6 as int),
        r <= 100,
{
    proof {
        reveal(spec_score_eq1_0_eq2_1);
    }
    if eq3 == 0 && eq4 == 0 && eq5 == 0 && eq6 == 0 {
        99
    } else if eq3 == 0 && eq4 == 0 && eq5 == 0 && eq6 == 1 {
        97
    } else if eq3 == 0 && eq4 == 0 && eq5 == 1 && eq6 == 0 {
        95
    } else if eq3 == 0 && eq4 == 0 && eq5 == 1 && eq6 == 1 {
        92
    } else if eq3 == 0 && eq4 == 0 && eq5 == 2 && eq6 == 0 {
        92
    } else if eq3 == 0 && eq4 == 0 && eq5 == 2 && eq6 == 1 {
        85
    } else if eq3 == 0 && eq4 == 1 && eq5 == 0 && eq6 == 0 {
        95
    } else if eq3 == 0 && eq4 == 1 && eq5 == 0 && eq6 == 1 {
        91
    } else if eq3 == 0 && eq4 == 1 && eq5 == 1 && eq6 == 0 {
        90
    } else if eq3 == 0 && eq4 == 1 && eq5 == 1 && eq6 == 1 {
        83
    } else if eq3 == 0 && eq4 == 1 && eq5 == 2 && eq6 == 0 {
        84
    } else if eq3 == 0 && eq4 == 1 && eq5 == 2 && eq6 == 1 {
        71
    } else if eq3 == 0 && eq4 == 2 && eq5 == 0 && eq6 == 0 {
        92
    } else if eq3 == 0 && eq4 == 2 && eq5 == 0 && eq6 == 1 {
        81
    } else if eq3 == 0 && eq4 == 2 && eq5 == 1 && eq6 == 0 {
        82
    } else if eq3 == 0 && eq4 == 2 && eq5 == 1 && eq6 == 1 {
        71
    } else if eq3 == 0 && eq4 == 2 && eq5 == 2 && eq6 == 0 {
        72
    } else if eq3 == 0 && eq4 == 2 && eq5 == 2 && eq6 == 1 {
        53
    } else if eq3 == 1 && eq4 == 0 && eq5 == 0 && eq6 == 0 {
        95
    } else if eq3 == 1 && eq4 == 0 && eq5 == 0 && eq6 == 1 {
        93
    } else if eq3 == 1 && eq4 == 0 && eq5 == 1 && eq6 == 0 {
        92
    } else if eq3 == 1 && eq4 == 0 && eq5 == 1 && eq6 == 1 {
        85
    } else if eq3 == 1 && eq4 == 0 && eq5 == 2 && eq6 == 0 {
        85
    } else if eq3 == 1 && eq4 == 0 && eq5 == 2 && eq6 == 1 {
        73
    } else if eq3 == 1 && eq4 == 1 && eq5 == 0 && eq6 == 0 {
        92
    } else if eq3 == 1 && eq4 == 1 && eq5 == 0 && eq6 == 1 {
        82
    } else if eq3 == 1 && eq4 == 1 && eq5 == 1 && eq6 == 0 {
        80
    } else if eq3 == 1 && eq4 == 1 && eq5 == 1 && eq6 == 1 {
        72
    } else if eq3 == 1 && eq4 == 1 && eq5 == 2 && eq6 == 0 {
        70
    } else if eq3 == 1 && eq4 == 1 && eq5 == 2 && eq6 == 1 {
        59
    } else if eq3 == 1 && eq4 == 2 && eq5 == 0 && eq6 == 0 {
        84
    } else if eq3 == 1 && eq4 == 2 && eq5 == 0 && eq6 == 1 {
        70
    } else if eq3 == 1 && eq4 == 2 && eq5 == 1 && eq6 == 0 {
        71
    } else if eq3 == 1 && eq4 == 2 && eq5 == 1 && eq6 == 1 {
        52
    } else if eq3 == 1 && eq4 == 2 && eq5 == 2 && eq6 == 0 {
        50
    } else if eq3 == 1 && eq4 == 2 && eq5 == 2 && eq6 == 1 {
        30
    } else if eq3 == 2 && eq4 == 0 && eq5 == 0 && eq6 == 1 {
        86
    } else if eq3 == 2 && eq4 == 0 && eq5 == 1 && eq6 == 1 {
        75
    } else if eq3 == 2 && eq4 == 0 && eq5 == 2 && eq6 == 1 {
        52
    } else if eq3 == 2 && eq4 == 1 && eq5 == 0 && eq6 == 1 {
        71
    } else if eq3 == 2 && eq4 == 1 && eq5 == 1 && eq6 == 1 {
        52
    } else if eq3 == 2 && eq4 == 1 && eq5 == 2 && eq6 == 1 {
        29
    } else if eq3 == 2 && eq4 == 2 && eq5 == 0 && eq6 == 1 {
        63
    } else if eq3 == 2 && eq4 == 2 && eq5 == 1 && eq6 == 1 {
        29
    } else if eq3 == 2 && eq4 == 2 && eq5 == 2 && eq6 == 1 {
        17
    } else {
        0
    }
}

/// Table entries with EQ1 = 1 and EQ2 = 0, keyed by (EQ3, EQ4, EQ5, EQ6).
#[verifier::opaque]
pub open spec fn spec_score_eq1_1_eq2_0(eq3: int, eq4: int, eq5: int, eq6: int) -> int {
    if eq3 == 0 && eq4 == 0 && eq5 == 0 && eq6 == 0 {
        98
    } else if eq3 == 0 && eq4 == 0 && eq5 == 0 && eq6 == 1 {
        95
    } else if eq3 == 0 && eq4 == 0 && eq5 == 1 && eq6 == 0 {
        94
    } else if eq3 == 0 && eq4 == 0 && eq5 == 1 && eq6 == 1 {
        87
    } else if eq3 == 0 && eq4 == 0 && eq5 == 2 && eq6 == 0 {
        91
    } else if eq3 == 0 && eq4 == 0 && eq5 == 2 && eq6 == 1 {
        81
    } else if eq3 == 0 && eq4 == 1 && eq5 == 0 && eq6 == 0 {
        94
    } else if eq3 == 0 && eq4 == 1 && eq5 == 0 && eq6 == 1 {
        89
    } else if eq3 == 0 && eq4 == 1 && eq5 == 1 && eq6 == 0 {
        86
    } else if eq3 == 0 && eq4 == 1 && eq5 == 1 && eq6 == 1 {
        74
    } else if eq3 == 0 && eq4 == 1 && eq5 == 2 && eq6 == 0 {
        77
    } else if eq3 == 0 && eq4 == 1 && eq5 == 2 && eq6 == 1 {
        64
    } else if eq3 == 0 && eq4 == 2 && eq5 == 0 && eq6 == 0 {
        87
    } else if eq3 == 0 && eq4 == 2 && eq5 == 0 && eq6 == 1 {
        75
    } else if eq3 == 0 && eq4 == 2 && eq5 == 1 && eq6 == 0 {
        74
    } else if eq3 == 0 && eq4 == 2 && eq5 == 1 && eq6 == 1 {
        63
    } else if eq3 == 0 && eq4 == 2 && eq5 == 2 && eq6 == 0 {
        63
    } else if eq3 == 0 && eq4 == 2 && eq5 == 2 && eq6 == 1 {
        49
    } else if eq3 == 1 && eq4 == 0 && eq5 == 0 && eq6 == 0 {
        94
    } else if eq3 == 1 && eq4 == 0 && eq5 == 0 && eq6 == 1 {
        89
    } else if eq3 == 1 && eq4 == 0 && eq5 == 1 && eq6 == 0 {
        88
    } else if eq3 == 1 && eq4 == 0 && eq5 == 1 && eq6 == 1 {
        77
    } else if eq3 == 1 && eq4 == 0 && eq5 == 2 && eq6 == 0 {
        76
    } else if eq3 == 1 && eq4 == 0 && eq5 == 2 && eq6 == 1 {
        67
    } else if eq3 == 1 && eq4 == 1 && eq5 == 0 && eq6 == 0 {
        86
    } else if eq3 == 1 && eq4 == 1 && eq5 == 0 && eq6 == 1 {
        76
    } else if eq3 == 1 && eq4 == 1 && eq5 == 1 && eq6 == 0 {
        74
    } else if eq3 == 1 && eq4 == 1 && eq5 == 1 && eq6 == 1 {
        58
    } else if eq3 == 1 && eq4 == 1 && eq5 == 2 && eq6 == 0 {
        59
    } else if eq3 == 1 && eq4 == 1 && eq5 == 2 && eq6 == 1 {
        50
    } else if eq3 == 1 && eq4 == 2 && eq5 == 0 && eq6 == 0 {
        72
    } else if eq3 == 1 && eq4 == 2 && eq5 == 0 && eq6 == 1 {
        57
    } else if eq3 == 1 && eq4 == 2 && eq5 == 1 && eq6 == 0 {
        57
    } else if eq3 == 1 && eq4 == 2 && eq5 == 1 && eq6 == 1 {
        52
    } else if eq3 == 1 && eq4 == 2 && eq5 == 2 && eq6 == 0 {
        52
    } else if eq3 == 1 && eq4 == 2 && eq5 == 2 && eq6 == 1 {
        25
    } else if eq3 == 2 && eq4 == 0 && eq5 == 0 && eq6 == 1 {
        83
    } else if eq3 == 2 && eq4 == 0 && eq5 == 1 && eq6 == 1 {
        70
    } else if eq3 == 2 && eq4 == 0 && eq5 == 2 && eq6 == 1 {
        54
    } else if eq3 == 2 && eq4 == 1 && eq5 == 0 && eq6 == 1 {
        65
    } else if eq3 == 2 && eq4 == 1 && eq5 == 1 && eq6 == 1 {
        58
    } else if eq3 == 2 && eq4 == 1 && eq5 == 2 && eq6 == 1 {
        26
    } else if eq3 == 2 && eq4 == 2 && eq5 == 0 && eq6 == 1 {
        53
    } else if eq3 == 2 && eq4 == 2 && eq5 == 1 && eq6 == 1 {
        21
    } else if eq3 == 2 && eq4 == 2 && eq5 == 2 && eq6 == 1 {
        13
    } else {
        0
    }
}

fn score_eq1_1_eq2_0(eq3: u8, eq4: u8, eq5: u8, eq6: u8) -> (r: u8)
    ensures
        r as int == spec_score_eq1_1_eq2_0(eq3 as int, eq4 as int, eq5 as int, eq6 as int),
        r <= 100,
{
    proof {
        reveal(spec_score_eq1_1_eq2_0);
    }
    if eq3 == 0 && eq4 == 0 && eq5 == 0 && eq6 == 0 {
        98
    } else if eq3 == 0 && eq4 == 0 && eq5 == 0 && eq6 == 1 {
        95
    } else if eq3 == 0 && eq4 == 0 && eq5 == 1 && eq6 == 0 {
        94
    } else if eq3 == 0 && eq4 == 0 && eq5 == 1 && eq6 == 1 {
        87
    } else if eq3 == 0 && eq4 == 0 && eq5 == 2 && eq6 == 0 {
        91
    } else if eq3 == 0 && eq4 == 0 && eq5 == 2 && eq6 == 1 {
        81
    } else if eq3 == 0 && eq4 == 1 && eq5 == 0 && eq6 == 0 {
        94
    } else if eq3 == 0 && eq4 == 1 && eq5 == 0 && eq6 == 1 {
        89
    } else if eq3 == 0 && eq4 == 1 && eq5 == 1 && eq6 == 0 {
        86
    } else if eq3 == 0 && eq4 == 1 && eq5 == 1 && eq6 == 1 {
        74
    } else if eq3 == 0 && eq4 == 1 && eq5 == 2 && eq6 == 0 {
        77
    } else if eq3 == 0 && eq4 == 1 && eq5 == 2 && eq6 == 1 {
        64
    } else if eq3 == 0 && eq4 == 2 && eq5 == 0 && eq6 == 0 {
        87
    } else if eq3 == 0 && eq4 == 2 && eq5 == 0 && eq6 == 1 {
        75
    } else if eq3 == 0 && eq4 == 2 && eq5 == 1 && eq6 == 0 {
        74
    } else if eq3 == 0 && eq4 == 2 && eq5 == 1 && eq6 == 1 {
        63
    } else if eq3 == 0 && eq4 == 2 && eq5 == 2 && eq6 == 0 {
        63
    } else if eq3 == 0 && eq4 == 2 && eq5 == 2 && eq6 == 1 {
        49
    } else if eq3 == 1 && eq4 == 0 && eq5 == 0 && eq6 == 0 {
        94
    } else if eq3 == 1 && eq4 == 0 && eq5 == 0 && eq6 == 1 {
        89
    } else if eq3 == 1 && eq4 == 0 && eq5 == 1 && eq6 == 0 {
        88
    } else if eq3 == 1 && eq4 == 0 && eq5 == 1 && eq6 == 1 {
        77
    } else if eq3 == 1 && eq4 == 0 && eq5 == 2 && eq6 == 0 {
        76
    } else if eq3 == 1 && eq4 == 0 && eq5 == 2 && eq6 == 1 {
        67
    } else if eq3 == 1 && eq4 == 1 && eq5 == 0 && eq6 == 0 {
        86
    } else if eq3 == 1 && eq4 == 1 && eq5 == 0 && eq6 == 1 {
        76
    } else if eq3 == 1 && eq4 == 1 && eq5 == 1 && eq6 == 0 {
        74
    } else if eq3 == 1 && eq4 == 1 && eq5 == 1 && eq6 == 1 {
        58
    } else if eq3 == 1 && eq4 == 1 && eq5 == 2 && eq6 == 0 {
        59
    } else if eq3 == 1 && eq4 == 1 && eq5 == 2 && eq6 == 1 {
        50
    } else if eq3 == 1 && eq4 == 2 && eq5 == 0 && eq6 == 0 {
        72
    } else if eq3 == 1 && eq4 == 2 && eq5 == 0 && eq6 == 1 {
        57
    } else if eq3 == 1 && eq4 == 2 && eq5 == 1 && eq6 == 0 {
        57
    } else if eq3 == 1 && eq4 == 2 && eq5 == 1 && eq6 == 1 {
        52
    } else if eq3 == 1 && eq4 == 2 && eq5 == 2 && eq6 == 0 {
        52
    } else if eq3 == 1 && eq4 == 2 && eq5 == 2 && eq6 == 1 {
        25
    } else if eq3 == 2 && eq4 == 0 && eq5 == 0 && eq6 == 1 {
        83
    } else if eq3 == 2 && eq4 == 0 && eq5 == 1 && eq6 == 1 {
        70
    } else if eq3 == 2 && eq4 == 0 && eq5 == 2 && eq6 == 1 {
        54
    } else if eq3 == 2 && eq4 == 1 && eq5 == 0 && eq6 == 1 {
        65
    } else if eq3 == 2 && eq4 == 1 && eq5 == 1 && eq6 == 1 {
        58
    } else if eq3 == 2 && eq4 == 1 && eq5 == 2 && eq6 == 1 {
        26
    } else if eq3 == 2 && eq4 == 2 && eq5 == 0 && eq6 == 1 {
        53
    } else if eq3 == 2 && eq4 == 2 && eq5 == 1 && eq6 == 1 {
        21
    } else if eq3 == 2 && eq4 == 2 && eq5 == 2 && eq6 == 1 {
        13
    } else {
        0
    }
}

/// Table entries with EQ1 = 1 and EQ2 = 1, keyed by (EQ3, EQ4, EQ5, EQ6).
#[verifier::opaque]
pub open spec fn spec_score_eq1_1_eq2_1(eq3: int, eq4: int, eq5: int, eq6: int) -> int {
    if eq3 == 0 && eq4 == 0 && eq5 == 0 && eq6 == 0 {
        95
    } else if eq3 == 0 && eq4 == 0 && eq5 == 0 && eq6 == 1 {
        90
    } else if eq3 == 0 && eq4 == 0 && eq5 == 1 && eq6 == 0 {
        88
    } else if eq3 == 0 && eq4 == 0 && eq5 == 1 && eq6 == 1 {
        76
    } else if eq3 == 0 && eq4 == 0 && eq5 == 2 && eq6 == 0 {
        76
    } else if eq3 == 0 && eq4 == 0 && eq5 == 2 && eq6 == 1 {
        70
    } else if eq3 == 0 && eq4 == 1 && eq5 == 0 && eq6 == 0 {
        90
    } else if eq3 == 0 && eq4 == 1 && eq5 == 0 && eq6 == 1 {
        77
    } else if eq3 == 0 && eq4 == 1 && eq5 == 1 && eq6 == 0 {
        75
    } else if eq3 == 0 && eq4 == 1 && eq5 == 1 && eq6 == 1 {
        62
    } else if eq3 == 0 && eq4 == 1 && eq5 == 2 && eq6 == 0 {
        61
    } else if eq3 == 0 && eq4 == 1 && eq5 == 2 && eq6 == 1 {
        53
    } else if eq3 == 0 && eq4 == 2 && eq5 == 0 && eq6 == 0 {
        77
    } else if eq3 == 0 && eq4 == 2 && eq5 == 0 && eq6 == 1 {
        66
    } else if eq3 == 0 && eq4 == 2 && eq5 == 1 && eq6 == 0 {
        68
    } else if eq3 == 0 && eq4 == 2 && eq5 == 1 && eq6 == 1 {
        59
    } else if eq3 == 0 && eq4 == 2 && eq5 == 2 && eq6 == 0 {
        52
    } else if eq3 == 0 && eq4 == 2 && eq5 == 2 && eq6 == 1 {
        30
    } else if eq3 == 1 && eq4 == 0 && eq5 == 0 && eq6 == 0 {
        89
    } else if eq3 == 1 && eq4 == 0 && eq5 == 0 && eq6 == 1 {
        78
    } else if eq3 == 1 && eq4 == 0 && eq5 == 1 && eq6 == 0 {
        76
    } else if eq3 == 1 && eq4 == 0 && eq5 == 1 && eq6 == 1 {
        67
    } else if eq3 == 1 && eq4 == 0 && eq5 == 2 && eq6 == 0 {
        62
    } else if eq3 == 1 && eq4 == 0 && eq5 == 2 && eq6 == 1 {
        58
    } else if eq3 == 1 && eq4 == 1 && eq5 == 0 && eq6 == 0 {
        74
    } else if eq3 == 1 && eq4 == 1 && eq5 == 0 && eq6 == 1 {
        59
    } else if eq3 == 1 && eq4 == 1 && eq5 == 1 && eq6 == 0 {
        57
    } else if eq3 == 1 && eq4 == 1 && eq5 == 1 && eq6 == 1 {
        57
    } else if eq3 == 1 && eq4 == 1 && eq5 == 2 && eq6 == 0 {
        47
    } else if eq3 == 1 && eq4 == 1 && eq5 == 2 && eq6 == 1 {
        23
    } else if eq3 == 1 && eq4 == 2 && eq5 == 0 && eq6 == 0 {
        61
    } else if eq3 == 1 && eq4 == 2 && eq5 == 0 && eq6 == 1 {
        52
    } else if eq3 == 1 && eq4 == 2 && eq5 == 1 && eq6 == 0 {
        57
    } else if eq3 == 1 && eq4 == 2 && eq5 == 1 && eq6 == 1 {
        29
    } else if eq3 == 1 && eq4 == 2 && eq5 == 2 && eq6 == 0 {
        24
    } else if eq3 == 1 && eq4 == 2 && eq5 == 2 && eq6 == 1 {
        16
    } else if eq3 == 2 && eq4 == 0 && eq5 == 0 && eq6 == 1 {
        71
    } else if eq3 == 2 && eq4 == 0 && eq5 == 1 && eq6 == 1 {
        59
    } else if eq3 == 2 && eq4 == 0 && eq5 == 2 && eq6 == 1 {
        30
    } else if eq3 == 2 && eq4 == 1 && eq5 == 0 && eq6 == 1 {
        58
    } else if eq3 == 2 && eq4 == 1 && eq5 == 1 && eq6 == 1 {
        26
    } else if eq3 == 2 && eq4 == 1 && eq5 == 2 && eq6 == 1 {
        15
    } else if eq3 == 2 && eq4 == 2 && eq5 == 0 && eq6 == 1 {
        23
    } else if eq3 == 2 && eq4 == 2 && eq5 == 1 && eq6 == 1 {
        13
    } else if eq3 == 2 && eq4 == 2 && eq5 == 2 && eq6 == 1 {
        6
    } else {
        0
    }
}

fn score_eq1_1_eq2_1(eq3: u8, eq4: u8, eq5: u8, eq6: u8) -> (r: u8)
    ensures
        r as int == spec_score_eq1_1_eq2_1(eq3 as int, eq4 as int, eq5 as int, eq6 as int),
        r <= 100,
{
    proof {
        reveal(spec_score_eq1_1_eq2_1);
    }
    if eq3 == 0 && eq4 == 0 && eq5 == 0 && eq6 == 0 {
        95
    } else if eq3 == 0 && eq4 == 0 && eq5 == 0 && eq6 == 1 {
        90
    } else if eq3 == 0 && eq4 == 0 && eq5 == 1 && eq6 == 0 {
        88
    } else if eq3 == 0 && eq4 == 0 && eq5 == 1 && eq6 == 1 {
        76
    } else if eq3 == 0 && eq4 == 0 && eq5 == 2 && eq6 == 0 {
        76
    } else if eq3 == 0 && eq4 == 0 && eq5 == 2 && eq6 == 1 {
        70
    } else if eq3 == 0 && eq4 == 1 && eq5 == 0 && eq6 == 0 {
        90
    } else if eq3 == 0 && eq4 == 1 && eq5 == 0 && eq6 == 1 {
        77
    } else if eq3 == 0 && eq4 == 1 && eq5 == 1 && eq6 == 0 {
        75
    } else if eq3 == 0 && eq4 == 1 && eq5 == 1 && eq6 == 1 {
        62
    } else if eq3 == 0 && eq4 == 1 && eq5 == 2 && eq6 == 0 {
        61
    } else if eq3 == 0 && eq4 == 1 && eq5 == 2 && eq6 == 1 {
        53
    } else if eq3 == 0 && eq4 == 2 && eq5 == 0 && eq6 == 0 {
        77
    } else if eq3 == 0 && eq4 == 2 && eq5 == 0 && eq6 == 1 {
        66
    } else if eq3 == 0 && eq4 == 2 && eq5 == 1 && eq6 == 0 {
        68
    } else if eq3 == 0 && eq4 == 2 && eq5 == 1 && eq6 == 1 {
        59
    } else if eq3 == 0 && eq4 == 2 && eq5 == 2 && eq6 == 0 {
        52
    } else if eq3 == 0 && eq4 == 2 && eq5 == 2 && eq6 == 1 {
        30
    } else if eq3 == 1 && eq4 == 0 && eq5 == 0 && eq6 == 0 {
        89
    } else if eq3 == 1 && eq4 == 0 && eq5 == 0 && eq6 == 1 {
        78
    } else if eq3 == 1 && eq4 == 0 && eq5 == 1 && eq6 == 0 {
        76
    } else if eq3 == 1 && eq4 == 0 && eq5 == 1 && eq6 == 1 {
        67
    } else if eq3 == 1 && eq4 == 0 && eq5 == 2 && eq6 == 0 {
        62
    } else if eq3 == 1 && eq4 == 0 && eq5 == 2 && eq6 == 1 {
        58
    } else if eq3 == 1 && eq4 == 1 && eq5 == 0 && eq6 == 0 {
        74
    } else if eq3 == 1 && eq4 == 1 && eq5 == 0 && eq6 == 1 {
        59
    } else if eq3 == 1 && eq4 == 1 && eq5 == 1 && eq6 == 0 {
        57
    } else if eq3 == 1 && eq4 == 1 && eq5 == 1 && eq6 == 1 {
        57
    } else if eq3 == 1 && eq4 == 1 && eq5 == 2 && eq6 == 0 {
        47
    } else if eq3 == 1 && eq4 == 1 && eq5 == 2 && eq6 == 1 {
        23
    } else if eq3 == 1 && eq4 == 2 && eq5 == 0 && eq6 == 0 {
        61
    } else if eq3 == 1 && eq4 == 2 && eq5 == 0 && eq6 == 1 {
        52
    } else if eq3 == 1 && eq4 == 2 && eq5 == 1 && eq6 == 0 {
        57
    } else if eq3 == 1 && eq4 == 2 && eq5 == 1 && eq6 == 1 {
        29
    } else if eq3 == 1 && eq4 == 2 && eq5 == 2 && eq6 == 0 {
        24
    } else if eq3 == 1 && eq4 == 2 && eq5 == 2 && eq6 == 1 {
        16
    } else if eq3 == 2 && eq4 == 0 && eq5 == 0 && eq6 == 1 {
        71
    } else if eq3 == 2 && eq4 == 0 && eq5 == 1 && eq6 == 1 {
        59
    } else if eq3 == 2 && eq4 == 0 && eq5 == 2 && eq6 == 1 {
        30
    } else if eq3 == 2 && eq4 == 1 && eq5 == 0 && eq6 == 1 {
        58
    } else if eq3 == 2 && eq4 == 1 && eq5 == 1 && eq6 == 1 {
        26
    } else if eq3 == 2 && eq4 == 1 && eq5 == 2 && eq6 == 1 {
        15
    } else if eq3 == 2 && eq4 == 2 && eq5 == 0 && eq6 == 1 {
        23
    } else if eq3 == 2 && eq4 == 2 && eq5 == 1 && eq6 == 1 {
        13
    } else if eq3 == 2 && eq4 == 2 && eq5 == 2 && eq6 == 1 {
        6
    } else {
        0
    }
}

/// Table entries with EQ1 = 2 and EQ2 = 0, keyed by (EQ3, EQ4, EQ5, EQ6).
#[verifier::opaque]
pub open spec fn spec_score_eq1_2_eq2_0(eq3: int, eq4: int, eq5: int, eq6: int) -> int {
    if eq3 == 0 && eq4 == 0 && eq5 == 0 && eq6 == 0 {
        93
    } else if eq3 == 0 && eq4 == 0 && eq5 == 0 && eq6 == 1 {
        87
    } else if eq3 == 0 && eq4 == 0 && eq5 == 1 && eq6 == 0 {
        86
    } else if eq3 == 0 && eq4 == 0 && eq5 == 1 && eq6 == 1 {
        72
    } else if eq3 == 0 && eq4 == 0 && eq5 == 2 && eq6 == 0 {
        75
    } else if eq3 == 0 && eq4 == 0 && eq5 == 2 && eq6 == 1 {
        58
    } else if eq3 == 0 && eq4 == 1 && eq5 == 0 && eq6 == 0 {
        86
    } else if eq3 == 0 && eq4 == 1 && eq5 == 0 && eq6 == 1 {
        74
    } else if eq3 == 0 && eq4 == 1 && eq5 == 1 && eq6 == 0 {
        74
    } else if eq3 == 0 && eq4 == 1 && eq5 == 1 && eq6 == 1 {
        61
    } else if eq3 == 0 && eq4 == 1 && eq5 == 2 && eq6 == 0 {
        56
    } else if eq3 == 0 && eq4 == 1 && eq5 == 2 && eq6 == 1 {
        34
    } else if eq3 == 0 && eq4 == 2 && eq5 == 0 && eq6 == 0 {
        70
    } else if eq3 == 0 && eq4 == 2 && eq5 == 0 && eq6 == 1 {
        54
    } else if eq3 == 0 && eq4 == 2 && eq5 == 1 && eq6 == 0 {
        52
    } else if eq3 == 0 && eq4 == 2 && eq5 == 1 && eq6 == 1 {
        40
    } else if eq3 == 0 && eq4 == 2 && eq5 == 2 && eq6 == 0 {
        40
    } else if eq3 == 0 && eq4 == 2 && eq5 == 2 && eq6 == 1 {
        22
    } else if eq3 == 1 && eq4 == 0 && eq5 == 0 && eq6 == 0 {
        85
    } else if eq3 == 1 && eq4 == 0 && eq5 == 0 && eq6 == 1 {
        75
    } else if eq3 == 1 && eq4 == 0 && eq5 == 1 && eq6 == 0 {
        74
    } else if eq3 == 1 && eq4 == 0 && eq5 == 1 && eq6 == 1 {
        55
    } else if eq3 == 1 && eq4 == 0 && eq5 == 2 && eq6 == 0 {
        62
    } else if eq3 == 1 && eq4 == 0 && eq5 == 2 && eq6 == 1 {
        51
    } else if eq3 == 1 && eq4 == 1 && eq5 == 0 && eq6 == 0 {
        72
    } else if eq3 == 1 && eq4 == 1 && eq5 == 0 && eq6 == 1 {
        57
    } else if eq3 == 1 && eq4 == 1 && eq5 == 1 && eq6 == 0 {
        55
    } else if eq3 == 1 && eq4 == 1 && eq5 == 1 && eq6 == 1 {
        41
    } else if eq3 == 1 && eq4 == 1 && eq5 == 2 && eq6 == 0 {
        46
    } else if eq3 == 1 && eq4 == 1 && eq5 == 2 && eq6 == 1 {
        19
    } else if eq3 == 1 && eq4 == 2 && eq5 == 0 && eq6 == 0 {
        53
    } else if eq3 == 1 && eq4 == 2 && eq5 == 0 && eq6 == 1 {
        36
    } else if eq3 == 1 && eq4 == 2 && eq5 == 1 && eq6 == 0 {
        34
    } else if eq3 == 1 && eq4 == 2 && eq5 == 1 && eq6 == 1 {
        19
    } else if eq3 == 1 && eq4 == 2 && eq5 == 2 && eq6 == 0 {
        19
    } else if eq3 == 1 && eq4 == 2 && eq5 == 2 && eq6 == 1 {
        8
    } else if eq3 == 2 && eq4 == 0 && eq5 == 0 && eq6 == 1 {
        64
    } else if eq3 == 2 && eq4 == 0 && eq5 == 1 && eq6 == 1 {
        51
    } else if eq3 == 2 && eq4 == 0 && eq5 == 2 && eq6 == 1 {
        20
    } else if eq3 == 2 && eq4 == 1 && eq5 == 0 && eq6 == 1 {
        47
    } else if eq3 == 2 && eq4 == 1 && eq5 == 1 && eq6 == 1 {
        21
    } else if eq3 == 2 && eq4 == 1 && eq5 == 2 && eq6 == 1 {
        11
    } else if eq3 == 2 && eq4 == 2 && eq5 == 0 && eq6 == 1 {
        24
    } else if eq3 == 2 && eq4 == 2 && eq5 == 1 && eq6 == 1 {
        9
    } else if eq3 == 2 && eq4 == 2 && eq5 == 2 && eq6 == 1 {
        4
    } else {
        0
    }
}

fn score_eq1_2_eq2_0(eq3: u8, eq4: u8, eq5: u8, eq6: u8) -> (r: u8)
    ensures
        r as int == spec_score_eq1_2_eq2_0(eq3 as int, eq4 as int, eq5 as int, eq6 as int),
        r <= 100,
{
    proof {
        reveal(spec_score_eq1_2_eq2_0);
    }
    if eq3 == 0 && eq4 == 0 && eq5 == 0 && eq6 == 0 {
        93
    } else if eq3 == 0 && eq4 == 0 && eq5 == 0 && eq6 == 1 {
        87
    } else if eq3 == 0 && eq4 == 0 && eq5 == 1 && eq6 == 0 {
        86
    } else if eq3 == 0 && eq4 == 0 && eq5 == 1 && eq6 == 1 {
        72
    } else if eq3 == 0 && eq4 == 0 && eq5 == 2 && eq6 == 0 {
        75
    } else if eq3 == 0 && eq4 == 0 && eq5 == 2 && eq6 == 1 {
        58
    } else if eq3 == 0 && eq4 == 1 && eq5 == 0 && eq6 == 0 {
        86
    } else if eq3 == 0 && eq4 == 1 && eq5 == 0 && eq6 == 1 {
        74
    } else if eq3 == 0 && eq4 == 1 && eq5 == 1 && eq6 == 0 {
        74
    } else if eq3 == 0 && eq4 == 1 && eq5 == 1 && eq6 == 1 {
        61
    } else if eq3 == 0 && eq4 == 1 && eq5 == 2 && eq6 == 0 {
        56
    } else if eq3 == 0 && eq4 == 1 && eq5 == 2 && eq6 == 1 {
        34
    } else if eq3 == 0 && eq4 == 2 && eq5 == 0 && eq6 == 0 {
        70
    } else if eq3 == 0 && eq4 == 2 && eq5 == 0 && eq6 == 1 {
        54
    } else if eq3 == 0 && eq4 == 2 && eq5 == 1 && eq6 == 0 {
        52
    } else if eq3 == 0 && eq4 == 2 && eq5 == 1 && eq6 == 1 {
        40
    } else if eq3 == 0 && eq4 == 2 && eq5 == 2 && eq6 == 0 {
        40
    } else if eq3 == 0 && eq4 == 2 && eq5 == 2 && eq6 == 1 {
        22
    } else if eq3 == 1 && eq4 == 0 && eq5 == 0 && eq6 == 0 {
        85
    } else if eq3 == 1 && eq4 == 0 && eq5 == 0 && eq6 == 1 {
        75
    } else if eq3 == 1 && eq4 == 0 && eq5 == 1 && eq6 == 0 {
        74
    } else if eq3 == 1 && eq4 == 0 && eq5 == 1 && eq6 == 1 {
        55
    } else if eq3 == 1 && eq4 == 0 && eq5 == 2 && eq6 == 0 {
        62
    } else if eq3 == 1 && eq4 == 0 && eq5 == 2 && eq6 == 1 {
        51
    } else if eq3 == 1 && eq4 == 1 && eq5 == 0 && eq6 == 0 {
        72
    } else if eq3 == 1 && eq4 == 1 && eq5 == 0 && eq6 == 1 {
        57
    } else if eq3 == 1 && eq4 == 1 && eq5 == 1 && eq6 == 0 {
        55
    } else if eq3 == 1 && eq4 == 1 && eq5 == 1 && eq6 == 1 {
        41
    } else if eq3 == 1 && eq4 == 1 && eq5 == 2 && eq6 == 0 {
        46
    } else if eq3 == 1 && eq4 == 1 && eq5 == 2 && eq6 == 1 {
        19
    } else if eq3 == 1 && eq4 == 2 && eq5 == 0 && eq6 == 0 {
        53
    } else if eq3 == 1 && eq4 == 2 && eq5 == 0 && eq6 == 1 {
        36
    } else if eq3 == 1 && eq4 == 2 && eq5 == 1 && eq6 == 0 {
        34
    } else if eq3 == 1 && eq4 == 2 && eq5 == 1 && eq6 == 1 {
        19
    } else if eq3 == 1 && eq4 == 2 && eq5 == 2 && eq6 == 0 {
        19
    } else if eq3 == 1 && eq4 == 2 && eq5 == 2 && eq6 == 1 {
        8
    } else if eq3 == 2 && eq4 == 0 && eq5 == 0 && eq6 == 1 {
        64
    } else if eq3 == 2 && eq4 == 0 && eq5 == 1 && eq6 == 1 {
        51
    } else if eq3 == 2 && eq4 == 0 && eq5 == 2 && eq6 == 1 {
        20
    } else if eq3 == 2 && eq4 == 1 && eq5 == 0 && eq6 == 1 {
        47
    } else if eq3 == 2 && eq4 == 1 && eq5 == 1 && eq6 == 1 {
        21
    } else if eq3 == 2 && eq4 == 1 && eq5 == 2 && eq6 == 1 {
        11
    } else if eq3 == 2 && eq4 == 2 && eq5 == 0 && eq6 == 1 {
        24
    } else if eq3 == 2 && eq4 == 2 && eq5 == 1 && eq6 == 1 {
        9
    } else if eq3 == 2 && eq4 == 2 && eq5 == 2 && eq6 == 1 {
        4
    } else {
        0
    }
}

/// Table entries with EQ1 = 2 and EQ2 = 1, keyed by (EQ3, EQ4, EQ5, EQ6).
#[verifier::opaque]
pub open spec fn spec_score_eq1_2_eq2_1(eq3: int, eq4: int, eq5: int, eq6: int) -> int {
    if eq3 == 0 && eq4 == 0 && eq5 == 0 && eq6 == 0 {
        88
    } else if eq3 == 0 && eq4 == 0 && eq5 == 0 && eq6 == 1 {
        75
    } else if eq3 == 0 && eq4 == 0 && eq5 == 1 && eq6 == 0 {
        73
    } else if eq3 == 0 && eq4 == 0 && eq5 == 1 && eq6 == 1 {
        53
    } else if eq3 == 0 && eq4 == 0 && eq5 == 2 && eq6 == 0 {
        60
    } else if eq3 == 0 && eq4 == 0 && eq5 == 2 && eq6 == 1 {
        50
    } else if eq3 == 0 && eq4 == 1 && eq5 == 0 && eq6 == 0 {
        73
    } else if eq3 == 0 && eq4 == 1 && eq5 == 0 && eq6 == 1 {
        55
    } else if eq3 == 0 && eq4 == 1 && eq5 == 1 && eq6 == 0 {
        59
    } else if eq3 == 0 && eq4 == 1 && eq5 == 1 && eq6 == 1 {
        40
    } else if eq3 == 0 && eq4 == 1 && eq5 == 2 && eq6 == 0 {
        41
    } else if eq3 == 0 && eq4 == 1 && eq5 == 2 && eq6 == 1 {
        20
    } else if eq3 == 0 && eq4 == 2 && eq5 == 0 && eq6 == 0 {
        54
    } else if eq3 == 0 && eq4 == 2 && eq5 == 0 && eq6 == 1 {
        43
    } else if eq3 == 0 && eq4 == 2 && eq5 == 1 && eq6 == 0 {
        45
    } else if eq3 == 0 && eq4 == 2 && eq5 == 1 && eq6 == 1 {
        22
    } else if eq3 == 0 && eq4 == 2 && eq5 == 2 && eq6 == 0 {
        20
    } else if eq3 == 0 && eq4 == 2 && eq5 == 2 && eq6 == 1 {
        11
    } else if eq3 == 1 && eq4 == 0 && eq5 == 0 && eq6 == 0 {
        75
    } else if eq3 == 1 && eq4 == 0 && eq5 == 0 && eq6 == 1 {
        55
    } else if eq3 == 1 && eq4 == 0 && eq5 == 1 && eq6 == 0 {
        58
    } else if eq3 == 1 && eq4 == 0 && eq5 == 1 && eq6 == 1 {
        45
    } else if eq3 == 1 && eq4 == 0 && eq5 == 2 && eq6 == 0 {
        40
    } else if eq3 == 1 && eq4 == 0 && eq5 == 2 && eq6 == 1 {
        21
    } else if eq3 == 1 && eq4 == 1 && eq5 == 0 && eq6 == 0 {
        61
    } else if eq3 == 1 && eq4 == 1 && eq5 == 0 && eq6 == 1 {
        51
    } else if eq3 == 1 && eq4 == 1 && eq5 == 1 && eq6 == 0 {
        48
    } else if eq3 == 1 && eq4 == 1 && eq5 == 1 && eq6 == 1 {
        18
    } else if eq3 == 1 && eq4 == 1 && eq5 == 2 && eq6 == 0 {
        20
    } else if eq3 == 1 && eq4 == 1 && eq5 == 2 && eq6 == 1 {
        9
    } else if eq3 == 1 && eq4 == 2 && eq5 == 0 && eq6 == 0 {
        46
    } else if eq3 == 1 && eq4 == 2 && eq5 == 0 && eq6 == 1 {
        18
    } else if eq3 == 1 && eq4 == 2 && eq5 == 1 && eq6 == 0 {
        17
    } else if eq3 == 1 && eq4 == 2 && eq5 == 1 && eq6 == 1 {
        7
    } else if eq3 == 1 && eq4 == 2 && eq5 == 2 && eq6 == 0 {
        8
    } else if eq3 == 1 && eq4 == 2 && eq5 == 2 && eq6 == 1 {
        2
    } else if eq3 == 2 && eq4 == 0 && eq5 == 0 && eq6 == 1 {
        53
    } else if eq3 == 2 && eq4 == 0 && eq5 == 1 && eq6 == 1 {
        24
    } else if eq3 == 2 && eq4 == 0 && eq5 == 2 && eq6 == 1 {
        14
    } else if eq3 == 2 && eq4 == 1 && eq5 == 0 && eq6 == 1 {
        24
    } else if eq3 == 2 && eq4 == 1 && eq5 == 1 && eq6 == 1 {
        12
    } else if eq3 == 2 && eq4 == 1 && eq5 == 2 && eq6 == 1 {
        5
    } else if eq3 == 2 && eq4 == 2 && eq5 == 0 && eq6 == 1 {
        10
    } else if eq3 == 2 && eq4 == 2 && eq5 == 1 && eq6 == 1 {
        3
    } else if eq3 == 2 && eq4 == 2 && eq5 == 2 && eq6 == 1 {
        1
    } else {
        0
    }
}

fn score_eq1_2_eq2_1(eq3: u8, eq4: u8, eq5: u8, eq6: u8) -> (r: u8)
    ensures
        r as int == spec_score_eq1_2_eq2_1(eq3 as int, eq4 as int, eq5 as int, eq6 as int),
        r <= 100,
{
    proof {
        reveal(spec_score_eq1_2_eq2_1);
    }
    if eq3 == 0 && eq4 == 0 && eq5 == 0 && eq6 == 0 {
        88
    } else if eq3 == 0 && eq4 == 0 && eq5 == 0 && eq6 == 1 {
        75
    } else if eq3 == 0 && eq4 == 0 && eq5 == 1 && eq6 == 0 {
        73
    } else if eq3 == 0 && eq4 == 0 && eq5 == 1 && eq6 == 1 {
        53
    } else if eq3 == 0 && eq4 == 0 && eq5 == 2 && eq6 == 0 {
        60
    } else if eq3 == 0 && eq4 == 0 && eq5 == 2 && eq6 == 1 {
        50
    } else if eq3 == 0 && eq4 == 1 && eq5 == 0 && eq6 == 0 {
        73
    } else if eq3 == 0 && eq4 == 1 && eq5 == 0 && eq6 == 1 {
        55
    } else if eq3 == 0 && eq4 == 1 && eq5 == 1 && eq6 == 0 {
        59
    } else if eq3 == 0 && eq4 == 1 && eq5 == 1 && eq6 == 1 {
        40
    } else if eq3 == 0 && eq4 == 1 && eq5 == 2 && eq6 == 0 {
        41
    } else if eq3 == 0 && eq4 == 1 && eq5 == 2 && eq6 == 1 {
        20
    } else if eq3 == 0 && eq4 == 2 && eq5 == 0 && eq6 == 0 {
        54
    } else if eq3 == 0 && eq4 == 2 && eq5 == 0 && eq6 == 1 {
        43
    } else if eq3 == 0 && eq4 == 2 && eq5 == 1 && eq6 == 0 {
        45
    } else if eq3 == 0 && eq4 == 2 && eq5 == 1 && eq6 == 1 {
        22
    } else if eq3 == 0 && eq4 == 2 && eq5 == 2 && eq6 == 0 {
        20
    } else if eq3 == 0 && eq4 == 2 && eq5 == 2 && eq6 == 1 {
        11
    } else if eq3 == 1 && eq4 == 0 && eq5 == 0 && eq6 == 0 {
        75
    } else if eq3 == 1 && eq4 == 0 && eq5 == 0 && eq6 == 1 {
        55
    } else if eq3 == 1 && eq4 == 0 && eq5 == 1 && eq6 == 0 {
        58
    } else if eq3 == 1 && eq4 == 0 && eq5 == 1 && eq6 == 1 {
        45
    } else if eq3 == 1 && eq4 == 0 && eq5 == 2 && eq6 == 0 {
        40
    } else if eq3 == 1 && eq4 == 0 && eq5 == 2 && eq6 == 1 {
        21
    } else if eq3 == 1 && eq4 == 1 && eq5 == 0 && eq6 == 0 {
        61
    } else if eq3 == 1 && eq4 == 1 && eq5 == 0 && eq6 == 1 {
        51
    } else if eq3 == 1 && eq4 == 1 && eq5 == 1 && eq6 == 0 {
        48
    } else if eq3 == 1 && eq4 == 1 && eq5 == 1 && eq6 == 1 {
        18
    } else if eq3 == 1 && eq4 == 1 && eq5 == 2 && eq6 == 0 {
        20
    } else if eq3 == 1 && eq4 == 1 && eq5 == 2 && eq6 == 1 {
        9
    } else if eq3 == 1 && eq4 == 2 && eq5 == 0 && eq6 == 0 {
        46
    } else if eq3 == 1 && eq4 == 2 && eq5 == 0 && eq6 == 1 {
        18
    } else if eq3 == 1 && eq4 == 2 && eq5 == 1 && eq6 == 0 {
        17
    } else if eq3 == 1 && eq4 == 2 && eq5 == 1 && eq6 == 1 {
        7
    } else if eq3 == 1 && eq4 == 2 && eq5 == 2 && eq6 == 0 {
        8
    } else if eq3 == 1 && eq4 == 2 && eq5 == 2 && eq6 == 1 {
        2
    } else if eq3 == 2 && eq4 == 0 && eq5 == 0 && eq6 == 1 {
        53
    } else if eq3 == 2 && eq4 == 0 && eq5 == 1 && eq6 == 1 {
        24
    } else if eq3 == 2 && eq4 == 0 && eq5 == 2 && eq6 == 1 {
        14
    } else if eq3 == 2 && eq4 == 1 && eq5 == 0 && eq6 == 1 {
        24
    } else if eq3 == 2 && eq4 == 1 && eq5 == 1 && eq6 == 1 {
        12
    } else if eq3 == 2 && eq4 == 1 && eq5 == 2 && eq6 == 1 {
        5
    } else if eq3 == 2 && eq4 == 2 && eq5 == 0 && eq6 == 1 {
        10
    } else if eq3 == 2 && eq4 == 2 && eq5 == 1 && eq6 == 1 {
        3
    } else if eq3 == 2 && eq4 == 2 && eq5 == 2 && eq6 == 1 {
        1
    } else {
        0
    }
}

/// The published base severity value of a macrovector, in tenths of a
/// point.  Macrovectors outside the table map to zero; the classifier
/// never produces one.
pub open spec fn spec_table_value(mv: MacroVector) -> int {
    if mv.eq1 == 0 && mv.eq2 == 0 {
        spec_score_eq1_0_eq2_0(mv.eq3 as int, mv.eq4 as int, mv.eq5 as int, mv.eq6 as int)
    } else if mv.eq1 == 0 && mv.eq2 == 1 {
        spec_score_eq1_0_eq2_1(mv.eq3 as int, mv.eq4 as int, mv.eq5 as int, mv.eq6 as int)
    } else if mv.eq1 == 1 && mv.eq2 == 0 {
        spec_score_eq1_1_eq2_0(mv.eq3 as int, mv.eq4 as int, mv.eq5 as int, mv.eq6 as int)
    } else if mv.eq1 == 1 && mv.eq2 == 1 {
        spec_score_eq1_1_eq2_1(mv.eq3 as int, mv.eq4 as int, mv.eq5 as int, mv.eq6 as int)
    } else if mv.eq1 == 2 && mv.eq2 == 0 {
        spec_score_eq1_2_eq2_0(mv.eq3 as int, mv.eq4 as int, mv.eq5 as int, mv.eq6 as int)
    } else if mv.eq1 == 2 && mv.eq2 == 1 {
        spec_score_eq1_2_eq2_1(mv.eq3 as int, mv.eq4 as int, mv.eq5 as int, mv.eq6 as int)
    } else {
        0
    }
}

/// The published base severity value of a macrovector, in tenths of a
/// point.
pub fn table_value(mv: &MacroVector) -> (r: u8)
    ensures
        r as int == spec_table_value(*mv),
        r <= 100,
{
    if mv.eq1 == 0 && mv.eq2 == 0 {
        score_eq1_0_eq2_0(mv.eq3, mv.eq4, mv.eq5, mv.eq6)
    } else if mv.eq1 == 0 && mv.eq2 == 1 {
        score_eq1_0_eq2_1(mv.eq3, mv.eq4, mv.eq5, mv.eq6)
    } else if mv.eq1 == 1 && mv.eq2 == 0 {
        score_eq1_1_eq2_0(mv.eq3, mv.eq4, mv.eq5, mv.eq6)
    } else if mv.eq1 == 1 && mv.eq2 == 1 {
        score_eq1_1_eq2_1(mv.eq3, mv.eq4, mv.eq5, mv.eq6)
    } else if mv.eq1 == 2 && mv.eq2 == 0 {
        score_eq1_2_eq2_0(mv.eq3, mv.eq4, mv.eq5, mv.eq6)
    } else if mv.eq1 == 2 && mv.eq2 == 1 {
        score_eq1_2_eq2_1(mv.eq3, mv.eq4, mv.eq5, mv.eq6)
    } else {
        0
    }
}

/// Every value of the table lies in the score range, whatever the
/// coordinate.
#[verifier::rlimit(60)]
pub proof fn lemma_table_value_bounds(mv: MacroVector)
    ensures
        0 <= spec_table_value(mv) <= 100,
{
    reveal(spec_score_eq1_0_eq2_0);
    reveal(spec_score_eq1_0_eq2_1);
    reveal(spec_score_eq1_1_eq2_0);
    reveal(spec_score_eq1_1_eq2_1);
    reveal(spec_score_eq1_2_eq2_0);
    reveal(spec_score_eq1_2_eq2_1);
}

/// The table is monotone along EQ1: one step toward the less
/// severe band never raises the value.
#[verifier::rlimit(100)]
#[verifier::spinoff_prover]
pub proof fn lemma_table_monotone_eq1(mv: MacroVector)
    requires
        mv.eq1 <= 1,
    ensures
        spec_table_value(MacroVector { eq1: (mv.eq1 + 1) as u8, ..mv }) <= spec_table_value(mv),
{
    reveal(spec_score_eq1_0_eq2_0);
    reveal(spec_score_eq1_0_eq2_1);
    reveal(spec_score_eq1_1_eq2_0);
    reveal(spec_score_eq1_1_eq2_1);
    reveal(spec_score_eq1_2_eq2_0);
    reveal(spec_score_eq1_2_eq2_1);
}

/// The table is monotone along EQ2: one step toward the less
/// severe band never raises the value.
#[verifier::rlimit(100)]
#[verifier::spinoff_prover]
pub proof fn lemma_table_monotone_eq2(mv: MacroVector)
    requires
        mv.eq2 == 0,
    ensures
        spec_table_value(MacroVector { eq2: (mv.eq2 + 1) as u8, ..mv }) <= spec_table_value(mv),
{
    reveal(spec_score_eq1_0_eq2_0);
    reveal(spec_score_eq1_0_eq2_1);
    reveal(spec_score_eq1_1_eq2_0);
    reveal(spec_score_eq1_1_eq2_1);
    reveal(spec_score_eq1_2_eq2_0);
    reveal(spec_score_eq1_2_eq2_1);
}

/// The table is monotone along EQ3: one step toward the less
/// severe band never raises the value.
#[verifier::rlimit(100)]
#[verifier::spinoff_prover]
pub proof fn lemma_table_monotone_eq3(mv: MacroVector)
    requires
        mv.eq3 <= 1,
    ensures
        spec_table_value(MacroVector { eq3: (mv.eq3 + 1) as u8, ..mv }) <= spec_table_value(mv),
{
    reveal(spec_score_eq1_0_eq2_0);
    reveal(spec_score_eq1_0_eq2_1);
    reveal(spec_score_eq1_1_eq2_0);
    reveal(spec_score_eq1_1_eq2_1);
    reveal(spec_score_eq1_2_eq2_0);
    reveal(spec_score_eq1_2_eq2_1);
}

/// The table is monotone along EQ4: one step toward the less
/// severe band never raises the value.
#[verifier::rlimit(100)]
#[verifier::spinoff_prover]
pub proof fn lemma_table_monotone_eq4(mv: MacroVector)
    requires
        mv.eq4 <= 1,
    ensures
        spec_table_value(MacroVector { eq4: (mv.eq4 + 1) as u8, ..mv }) <= spec_table_value(mv),
{
    reveal(spec_score_eq1_0_eq2_0);
    reveal(spec_score_eq1_0_eq2_1);
    reveal(spec_score_eq1_1_eq2_0);
    reveal(spec_score_eq1_1_eq2_1);
    reveal(spec_score_eq1_2_eq2_0);
    reveal(spec_score_eq1_2_eq2_1);
}

/// The table is monotone along EQ5: one step toward the less
/// severe band never raises the value.
#[verifier::rlimit(100)]
#[verifier::spinoff_prover]
pub proof fn lemma_table_monotone_eq5(mv: MacroVector)
    requires
        mv.eq5 <= 1,
    ensures
        spec_table_value(MacroVector { eq5: (mv.eq5 + 1) as u8, ..mv }) <= spec_table_value(mv),
{
    reveal(spec_score_eq1_0_eq2_0);
    reveal(spec_score_eq1_0_eq2_1);
    reveal(spec_score_eq1_1_eq2_0);
    reveal(spec_score_eq1_1_eq2_1);
    reveal(spec_score_eq1_2_eq2_0);
    reveal(spec_score_eq1_2_eq2_1);
}

/// The table is monotone along EQ6: one step toward the less
/// severe band never raises the value.
#[verifier::rlimit(100)]
#[verifier::spinoff_prover]
pub proof fn lemma_table_monotone_eq6(mv: MacroVector)
    requires
        mv.eq6 == 0,
        mv.eq3 <= 1,
    ensures
        spec_table_value(MacroVector { eq6: (mv.eq6 + 1) as u8, ..mv }) <= spec_table_value(mv),
{
    reveal(spec_score_eq1_0_eq2_0);
    reveal(spec_score_eq1_0_eq2_1);
    reveal(spec_score_eq1_1_eq2_0);
    reveal(spec_score_eq1_1_eq2_1);
    reveal(spec_score_eq1_2_eq2_0);
    reveal(spec_score_eq1_2_eq2_1);
}

} // verus!
