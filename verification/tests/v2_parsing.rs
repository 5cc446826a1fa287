//! CVSS v2 vector parsing and round trips.

use std::str::FromStr;

use cvssrust::v2::V2Vector;
use cvssrust::ParseError;

#[test]
fn test_parse_v2() {
    let cvss_str = "AV:N/AC:M/Au:N/C:P/I:P/A:N";
    let vector = V2Vector::from_str(cvss_str).unwrap();
    assert_eq!(vector.as_string(), cvss_str);
}

#[test]
fn test_parse_v2_temp_env() {
    let cvss_str = "AV:A/AC:L/Au:S/C:P/I:P/A:C/E:POC/RL:W/RC:UR/CDP:LM/TD:H/CR:M/IR:M/AR:M";
    let vector = V2Vector::from_str(cvss_str).unwrap();
    assert_eq!(vector.as_string(), cvss_str);
}

#[test]
fn test_parse_v2_missing_metric() {
    // The availability impact is absent.
    let err = V2Vector::from_str("AV:N/AC:M/Au:N/C:P/I:P").unwrap_err();
    assert_eq!(err, ParseError::Missing);
}

#[test]
fn test_parse_v2_duplicated_metric() {
    let err = V2Vector::from_str("AV:N/AC:M/Au:N/C:P/I:P/A:N/AV:L").unwrap_err();
    assert_eq!(err, ParseError::Duplicated);
}

#[test]
fn test_parse_v2_incorrect_value() {
    let err = V2Vector::from_str("AV:N/AC:M/Au:N/C:Q/I:P/A:N").unwrap_err();
    assert_eq!(err, ParseError::IncorrectValue);
}

#[test]
fn test_parse_v2_malformed_part() {
    let err = V2Vector::from_str("AV:N/AC/Au:N/C:P/I:P/A:N").unwrap_err();
    assert_eq!(err, ParseError::MalformedVector);
}
