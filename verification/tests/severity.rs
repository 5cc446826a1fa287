//! Severity banding boundaries.

use cvssrust::Score;
use cvssrust::Severity;

#[test]
fn test_severity_from_score() {
    assert_eq!(Severity::from_ten_thousandths(0), Severity::Negligible);
    assert_eq!(Severity::from_ten_thousandths(39000), Severity::Low);
    assert_eq!(Severity::from_ten_thousandths(39500), Severity::Low);
    assert_eq!(Severity::from_ten_thousandths(40000), Severity::Medium);
    assert_eq!(Severity::from_ten_thousandths(40100), Severity::Medium);
    assert_eq!(Severity::from_ten_thousandths(78900), Severity::High);
    assert_eq!(Severity::from_ten_thousandths(91200), Severity::Critical);
    assert_eq!(Severity::from_ten_thousandths(1023000), Severity::Critical);
}

#[test]
fn test_score_severity() {
    assert_eq!(Score::from_tenths(45).severity(), Severity::Medium);
}

#[test]
fn test_band_boundaries_exact() {
    // 3.9 -> Low, 4.0 -> Medium, 6.9999 -> Medium, 7.0 -> High,
    // 8.999 -> High, 9.0 -> Critical.
    assert_eq!(Score::from_tenths(39).severity(), Severity::Low);
    assert_eq!(Score::from_tenths(40).severity(), Severity::Medium);
    assert_eq!(Severity::from_ten_thousandths(69999), Severity::Medium);
    assert_eq!(Score::from_tenths(70).severity(), Severity::High);
    assert_eq!(Severity::from_ten_thousandths(89990), Severity::High);
    assert_eq!(Score::from_tenths(90).severity(), Severity::Critical);
}

#[test]
fn test_band_lower_edge() {
    // Scores strictly below 0.1 band as None; 0.1 itself is Low.
    assert_eq!(Score::from_tenths(0).severity(), Severity::Negligible);
    assert_eq!(Severity::from_ten_thousandths(999), Severity::Negligible);
    assert_eq!(Score::from_tenths(1).severity(), Severity::Low);
}

#[test]
fn test_severity_names() {
    assert_eq!(Severity::Negligible.as_str(), "None");
    assert_eq!(Severity::Low.as_str(), "Low");
    assert_eq!(Severity::Medium.as_str(), "Medium");
    assert_eq!(Severity::High.as_str(), "High");
    assert_eq!(Severity::Critical.as_str(), "Critical");
}
