//! Behavior of the v4.0 scoring facade: determinism, substitution,
//! entry points, vector editing and formatting.

use std::str::FromStr;

use cvssrust::v4::score::MacroVector;
use cvssrust::v4::V4Vector;
use cvssrust::ParseError;
use cvssrust::Score;
use cvssrust::Severity;

const BASE: &str = "CVSS:4.0/AV:N/AC:L/AT:P/PR:N/UI:P/VC:H/VI:H/VA:H/SC:N/SI:N/SA:N";

#[test]
fn scoring_is_deterministic() {
    let cvss = V4Vector::from_str(BASE).unwrap();
    assert_eq!(cvss.score(), cvss.score());
    let again = V4Vector::from_str(BASE).unwrap();
    assert_eq!(cvss, again);
    assert_eq!(cvss.score(), again.score());
}

#[test]
fn published_example_scores() {
    // Reference vectors with their published scores and bands.
    let cvss =
        V4Vector::from_str("CVSS:4.0/AV:N/AC:L/AT:N/PR:H/UI:N/VC:L/VI:L/VA:N/SC:N/SI:N/SA:N")
            .unwrap();
    assert_eq!(cvss.base_score(), Score::from_tenths(51));
    assert_eq!(cvss.base_score().severity(), Severity::Medium);

    let cvss =
        V4Vector::from_str("CVSS:4.0/AV:N/AC:L/AT:P/PR:N/UI:N/VC:H/VI:L/VA:L/SC:N/SI:N/SA:N")
            .unwrap();
    assert_eq!(cvss.score(), Score::from_tenths(83));

    let cvss = V4Vector::from_str(
        "CVSS:4.0/AV:N/AC:L/AT:P/PR:N/UI:P/VC:H/VI:H/VA:H/SC:N/SI:N/SA:N/E:U",
    )
    .unwrap();
    assert_eq!(cvss.temporal_score(), Score::from_tenths(52));
}

#[test]
fn substitution_of_undefined_modified_metrics() {
    // An explicitly set Modified metric equal to the base metric changes
    // nothing against leaving it "Not Defined".
    let plain =
        V4Vector::from_str("CVSS:4.0/AV:N/AC:L/AT:N/PR:N/UI:N/VC:H/VI:L/VA:N/SC:N/SI:N/SA:N/CR:M")
            .unwrap();
    let explicit = V4Vector::from_str(
        "CVSS:4.0/AV:N/AC:L/AT:N/PR:N/UI:N/VC:H/VI:L/VA:N/SC:N/SI:N/SA:N/CR:M/MAV:N/MAC:L/MPR:N/MUI:N/MVC:H/MVI:L/MVA:N/MSC:N/MSI:N/MSA:N",
    )
    .unwrap();
    assert_eq!(plain.environmental_score(), explicit.environmental_score());
}

#[test]
fn score_entry_points() {
    let with_threat = V4Vector::from_str(
        "CVSS:4.0/AV:N/AC:L/AT:P/PR:N/UI:P/VC:H/VI:H/VA:H/SC:N/SI:N/SA:N/E:U",
    )
    .unwrap();
    // Without environmental metrics the full score equals the
    // threat-adjusted score.
    assert_eq!(with_threat.score(), with_threat.temporal_score());
    assert_eq!(with_threat.score(), with_threat.environmental_score());
    // The base score ignores the threat metric.
    assert_eq!(with_threat.base_score(), Score::from_tenths(77));
}

#[test]
fn clearing_metric_groups() {
    let full = "CVSS:4.0/AV:N/AC:L/AT:P/PR:N/UI:N/VC:H/VI:L/VA:L/SC:N/SI:N/SA:N/E:U/CR:H/IR:L/AR:L/MAV:N/MAC:H/MVC:H/MVI:L/MVA:L/S:P/V:D";
    let base = "CVSS:4.0/AV:N/AC:L/AT:P/PR:N/UI:N/VC:H/VI:L/VA:L/SC:N/SI:N/SA:N";
    let mut cvss = V4Vector::from_str(full).unwrap();
    cvss.clear_threat();
    cvss.clear_environmental();
    cvss.clear_supplemental();
    assert_eq!(cvss, V4Vector::from_str(base).unwrap());
}

#[test]
fn extend_with_threat_metrics() {
    let mut cvss = V4Vector::from_str(BASE).unwrap();
    cvss.extend_with_threat("E:U").unwrap();
    let direct = V4Vector::from_str(
        "CVSS:4.0/AV:N/AC:L/AT:P/PR:N/UI:P/VC:H/VI:H/VA:H/SC:N/SI:N/SA:N/E:U",
    )
    .unwrap();
    assert_eq!(cvss, direct);
    assert_eq!(cvss.score(), Score::from_tenths(52));
    // A malformed threat string leaves the vector unchanged.
    let err = cvss.extend_with_threat("AV:N").unwrap_err();
    assert_eq!(err, ParseError::MalformedVector);
    assert_eq!(cvss, direct);
}

#[test]
fn vector_string_round_trips() {
    let minimal = "CVSS:4.0/AV:N/AC:L/AT:P/PR:N/UI:N/VC:H/VI:L/VA:L/SC:N/SI:N/SA:N/E:U/CR:H/MVC:H/S:P";
    let cvss = V4Vector::from_str(minimal).unwrap();
    // The minimum form omits the version prefix and every "Not Defined"
    // optional metric.
    assert_eq!(
        format!("CVSS:4.0/{}", cvss.to_string_minimum()),
        minimal
    );
    // The full form writes every metric; parsing it back after the prefix
    // yields the same vector.
    let full = format!("CVSS:4.0/{}", cvss.to_string_full());
    assert_eq!(V4Vector::from_str(&full).unwrap(), cvss);
}

#[test]
fn parse_error_variants() {
    // No version prefix.
    assert_eq!(
        V4Vector::from_str("AV:N/AC:L/AT:N/PR:N/UI:N/VC:H/VI:H/VA:H/SC:N/SI:N/SA:N").unwrap_err(),
        ParseError::MalformedVector,
    );
    // A required metric is missing entirely.
    assert_eq!(
        V4Vector::from_str("CVSS:4.0/AV:N/AC:L/AT:N/PR:N/UI:N/VC:H/VI:H/VA:H/SC:N/SI:N")
            .unwrap_err(),
        ParseError::Missing,
    );
    // A required metric out of order reads as malformed.
    assert_eq!(
        V4Vector::from_str("CVSS:4.0/AC:L/AV:N/AT:N/PR:N/UI:N/VC:H/VI:H/VA:H/SC:N/SI:N/SA:N")
            .unwrap_err(),
        ParseError::MalformedVector,
    );
    // A value token outside the metric's closed set.
    assert_eq!(
        V4Vector::from_str("CVSS:4.0/AV:Q/AC:L/AT:N/PR:N/UI:N/VC:H/VI:H/VA:H/SC:N/SI:N/SA:N")
            .unwrap_err(),
        ParseError::IncorrectValue,
    );
}

#[test]
fn no_impact_scores_zero() {
    let cvss =
        V4Vector::from_str("CVSS:4.0/AV:N/AC:L/AT:N/PR:N/UI:N/VC:N/VI:N/VA:N/SC:N/SI:N/SA:N")
            .unwrap();
    assert_eq!(cvss.score(), Score::from_tenths(0));
    assert_eq!(cvss.score().severity(), Severity::Negligible);
}

#[test]
fn equivalence_classes_of_reference_vector() {
    let cvss =
        V4Vector::from_str("CVSS:4.0/AV:L/AC:L/AT:P/PR:L/UI:N/VC:H/VI:H/VA:H/SC:N/SI:N/SA:N")
            .unwrap();
    assert_eq!(
        cvss.eqs(),
        MacroVector {
            eq1: 1,
            eq2: 1,
            eq3: 0,
            eq4: 2,
            eq5: 0,
            eq6: 0,
        }
    );
}

#[test]
fn scores_stay_in_range() {
    let vectors = [
        "CVSS:4.0/AV:N/AC:L/AT:N/PR:N/UI:N/VC:H/VI:H/VA:H/SC:H/SI:H/SA:H/E:A/CR:H/IR:H/AR:H",
        "CVSS:4.0/AV:P/AC:H/AT:P/PR:H/UI:A/VC:N/VI:N/VA:N/SC:N/SI:N/SA:N/E:U/CR:L/IR:L/AR:L",
        "CVSS:4.0/AV:L/AC:H/AT:P/PR:L/UI:P/VC:L/VI:L/VA:L/SC:L/SI:L/SA:L/E:P",
        "CVSS:4.0/AV:A/AC:L/AT:N/PR:N/UI:N/VC:N/VI:N/VA:N/SC:N/SI:S/SA:X",
    ];
    for s in vectors {
        if let Ok(cvss) = V4Vector::from_str(s) {
            assert!(cvss.score().tenths() <= 100);
            assert!(cvss.base_score().tenths() <= 100);
            assert!(cvss.temporal_score().tenths() <= 100);
        }
    }
}

#[test]
fn sub_scores_not_applicable() {
    let cvss = V4Vector::from_str(BASE).unwrap();
    assert!(cvss.impact_score().is_none());
    assert!(cvss.expoitability_score().is_none());
}
