//! Published reference vectors and their v4.0 scores.

use std::str::FromStr;

use cvssrust::v4::V4Vector;
use cvssrust::Score;

fn check_score(cvss_str: &str, expected_tenths: u16) {
    let cvss = V4Vector::from_str(cvss_str).unwrap();
    let cvss_score = cvss.score();
    assert_eq!(
        cvss_score,
        Score::from_tenths(expected_tenths),
        "score mismatch for {}",
        cvss_str
    );
}

#[test]
fn cve_2022_41741() {
    check_score(
        "CVSS:4.0/AV:L/AC:L/AT:P/PR:L/UI:N/VC:H/VI:H/VA:H/SC:N/SI:N/SA:N",
        73,
    );
}

#[test]
fn cve_2020_3549() {
    check_score(
        "CVSS:4.0/AV:N/AC:L/AT:P/PR:N/UI:P/VC:H/VI:H/VA:H/SC:N/SI:N/SA:N",
        77,
    );
}

#[test]
fn cve_2020_3549_environmental() {
    check_score(
        "CVSS:4.0/AV:N/AC:L/AT:P/PR:N/UI:P/VC:H/VI:H/VA:H/SC:N/SI:N/SA:N/E:U",
        52,
    );
}

#[test]
fn cve_2023_3089() {
    check_score(
        "CVSS:4.0/AV:N/AC:L/AT:P/PR:N/UI:N/VC:H/VI:L/VA:L/SC:N/SI:N/SA:N",
        83,
    );
}

#[test]
fn cve_2023_3089_environmental() {
    check_score(
        "CVSS:4.0/AV:N/AC:L/AT:P/PR:N/UI:N/VC:H/VI:L/VA:L/SC:N/SI:N/SA:N/CR:H/IR:L/AR:L/MAV:N/MAC:H/MVC:H/MVI:L/MVA:L",
        81,
    );
}

#[test]
fn cve_2021_44714() {
    check_score(
        "CVSS:4.0/AV:L/AC:L/AT:N/PR:N/UI:A/VC:L/VI:N/VA:N/SC:N/SI:N/SA:N",
        46,
    );
}

#[test]
fn cve_2022_21830() {
    check_score(
        "CVSS:4.0/AV:N/AC:L/AT:N/PR:N/UI:A/VC:N/VI:N/VA:N/SC:L/SI:L/SA:N",
        51,
    );
}

#[test]
fn cve_2022_22186() {
    check_score(
        "CVSS:4.0/AV:N/AC:L/AT:N/PR:N/UI:N/VC:N/VI:N/VA:N/SC:L/SI:L/SA:N",
        69,
    );
}

#[test]
fn cve_2023_21989() {
    check_score(
        "CVSS:4.0/AV:L/AC:L/AT:N/PR:H/UI:N/VC:N/VI:N/VA:N/SC:H/SI:N/SA:N",
        59,
    );
}

#[test]
fn cve_2020_3947() {
    check_score(
        "CVSS:4.0/AV:L/AC:L/AT:N/PR:N/UI:N/VC:H/VI:H/VA:H/SC:H/SI:H/SA:H",
        94,
    );
}

#[test]
fn cve_2023_30560() {
    check_score(
        "CVSS:4.0/AV:P/AC:L/AT:N/PR:N/UI:N/VC:H/VI:H/VA:H/SC:N/SI:H/SA:N/S:P/V:D",
        83,
    );
}

#[test]
fn cve_2014_0160() {
    check_score(
        "CVSS:4.0/AV:N/AC:L/AT:N/PR:N/UI:N/VC:H/VI:N/VA:N/SC:N/SI:N/SA:N/E:A",
        87,
    );
}

#[test]
fn cve_2014_6271() {
    check_score(
        "CVSS:4.0/AV:N/AC:L/AT:N/PR:N/UI:N/VC:H/VI:H/VA:H/SC:N/SI:N/SA:N/E:A",
        93,
    );
}

#[test]
fn cve_2021_44228() {
    check_score(
        "CVSS:4.0/AV:N/AC:L/AT:N/PR:N/UI:N/VC:H/VI:H/VA:H/SC:H/SI:H/SA:H/E:A",
        100,
    );
}

#[test]
fn cve_2013_6014() {
    check_score(
        "CVSS:4.0/AV:A/AC:L/AT:N/PR:N/UI:N/VC:N/VI:L/VA:N/SC:H/SI:N/SA:H",
        64,
    );
}

#[test]
fn cve_2016_5729() {
    check_score(
        "CVSS:4.0/AV:L/AC:L/AT:N/PR:H/UI:N/VC:H/VI:H/VA:H/SC:H/SI:H/SA:H/R:I",
        93,
    );
}

#[test]
fn cve_2015_2890() {
    check_score(
        "CVSS:4.0/AV:L/AC:L/AT:P/PR:H/UI:N/VC:H/VI:H/VA:H/SC:H/SI:H/SA:H/R:I",
        87,
    );
}

#[test]
fn cve_2018_3652() {
    check_score(
        "CVSS:4.0/AV:P/AC:L/AT:N/PR:N/UI:N/VC:H/VI:H/VA:H/SC:H/SI:H/SA:H",
        86,
    );
}
