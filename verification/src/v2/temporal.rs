//! CVSS v2 temporal metrics.

use vstd::prelude::*;

use crate::common::str_eq;
use crate::common::CvssMetric;
use crate::common::Optional;
use crate::common::ParseError;

verus! {

/// Exploitability (`E`).
#[derive(Clone, Copy, Debug, PartialEq, Eq, Hash, Structural)]
pub enum Exploitability {
    NotDefined,
    High,
    Functional,
    ProofOfConcept,
    Unproven,
}

impl CvssMetric for Exploitability {
    open spec fn spec_abbrev() -> Seq<char> {
        "E"@
    }

    open spec fn spec_token(self) -> Seq<char> {
        match self {
            Exploitability::NotDefined => "ND"@,
            Exploitability::High => "H"@,
            Exploitability::Functional => "F"@,
            Exploitability::ProofOfConcept => "POC"@,
            Exploitability::Unproven => "U"@,
        }
    }

    open spec fn spec_from_str(s: Seq<char>) -> Result<Exploitability, ParseError> {
        if s == "ND"@ {
            Ok(Exploitability::NotDefined)
        } else if s == "H"@ {
            Ok(Exploitability::High)
        } else if s == "F"@ {
            Ok(Exploitability::Functional)
        } else if s == "POC"@ {
            Ok(Exploitability::ProofOfConcept)
        } else if s == "U"@ {
            Ok(Exploitability::Unproven)
        } else {
            Err(ParseError::IncorrectValue)
        }
    }

    fn abbreviated_form() -> (r: &'static str) {
        "E"
    }

    fn as_str(&self) -> (r: &'static str) {
        match self {
            Exploitability::NotDefined => "ND",
            Exploitability::High => "H",
            Exploitability::Functional => "F",
            Exploitability::ProofOfConcept => "POC",
            Exploitability::Unproven => "U",
        }
    }

    fn from_str(value: &str) -> (r: Result<Exploitability, ParseError>) {
        if str_eq(value, "ND") {
            Ok(Exploitability::NotDefined)
        } else if str_eq(value, "H") {
            Ok(Exploitability::High)
        } else if str_eq(value, "F") {
            Ok(Exploitability::Functional)
        } else if str_eq(value, "POC") {
            Ok(Exploitability::ProofOfConcept)
        } else if str_eq(value, "U") {
            Ok(Exploitability::Unproven)
        } else {
            Err(ParseError::IncorrectValue)
        }
    }
}

impl Optional for Exploitability {
    open spec fn spec_undefined() -> Exploitability {
        Exploitability::NotDefined
    }

    fn undefined() -> (r: Exploitability) {
        Exploitability::NotDefined
    }

    fn is_undefined(&self) -> (r: bool) {
        matches!(*self, Exploitability::NotDefined)
    }
}

/// Remediation Level (`RL`).
#[derive(Clone, Copy, Debug, PartialEq, Eq, Hash, Structural)]
pub enum RemediationLevel {
    NotDefined,
    Unavailable,
    Workaround,
    TemporaryFix,
    OfficialFix,
}

impl CvssMetric for RemediationLevel {
    open spec fn spec_abbrev() -> Seq<char> {
        "RL"@
    }

    open spec fn spec_token(self) -> Seq<char> {
        match self {
            RemediationLevel::NotDefined => "ND"@,
            RemediationLevel::Unavailable => "U"@,
            RemediationLevel::Workaround => "W"@,
            RemediationLevel::TemporaryFix => "TF"@,
            RemediationLevel::OfficialFix => "OF"@,
        }
    }

    open spec fn spec_from_str(s: Seq<char>) -> Result<RemediationLevel, ParseError> {
        if s == "ND"@ {
            Ok(RemediationLevel::NotDefined)
        } else if s == "U"@ {
            Ok(RemediationLevel::Unavailable)
        } else if s == "W"@ {
            Ok(RemediationLevel::Workaround)
        } else if s == "TF"@ {
            Ok(RemediationLevel::TemporaryFix)
        } else if s == "OF"@ {
            Ok(RemediationLevel::OfficialFix)
        } else {
            Err(ParseError::IncorrectValue)
        }
    }

    fn abbreviated_form() -> (r: &'static str) {
        "RL"
    }

    fn as_str(&self) -> (r: &'static str) {
        match self {
            RemediationLevel::NotDefined => "ND",
            RemediationLevel::Unavailable => "U",
            RemediationLevel::Workaround => "W",
            RemediationLevel::TemporaryFix => "TF",
            RemediationLevel::OfficialFix => "OF",
        }
    }

    fn from_str(value: &str) -> (r: Result<RemediationLevel, ParseError>) {
        if str_eq(value, "ND") {
            Ok(RemediationLevel::NotDefined)
        } else if str_eq(value, "U") {
            Ok(RemediationLevel::Unavailable)
        } else if str_eq(value, "W") {
            Ok(RemediationLevel::Workaround)
        } else if str_eq(value, "TF") {
            Ok(RemediationLevel::TemporaryFix)
        } else if str_eq(value, "OF") {
            Ok(RemediationLevel::OfficialFix)
        } else {
            Err(ParseError::IncorrectValue)
        }
    }
}

impl Optional for RemediationLevel {
    open spec fn spec_undefined() -> RemediationLevel {
        RemediationLevel::NotDefined
    }

    fn undefined() -> (r: RemediationLevel) {
        RemediationLevel::NotDefined
    }

    fn is_undefined(&self) -> (r: bool) {
        matches!(*self, RemediationLevel::NotDefined)
    }
}

/// Report Confidence (`RC`).
#[derive(Clone, Copy, Debug, PartialEq, Eq, Hash, Structural)]
pub enum ReportConfidence {
    Unconfirmed,
    Uncorroborated,
    Confirmed,
    NotDefined,
}

impl CvssMetric for ReportConfidence {
    open spec fn spec_abbrev() -> Seq<char> {
        "RC"@
    }

    open spec fn spec_token(self) -> Seq<char> {
        match self {
            ReportConfidence::Unconfirmed => "UC"@,
            ReportConfidence::Uncorroborated => "UR"@,
            ReportConfidence::Confirmed => "C"@,
            ReportConfidence::NotDefined => "ND"@,
        }
    }

    open spec fn spec_from_str(s: Seq<char>) -> Result<ReportConfidence, ParseError> {
        if s == "UC"@ {
            Ok(ReportConfidence::Unconfirmed)
        } else if s == "UR"@ {
            Ok(ReportConfidence::Uncorroborated)
        } else if s == "C"@ {
            Ok(ReportConfidence::Confirmed)
        } else if s == "ND"@ {
            Ok(ReportConfidence::NotDefined)
        } else {
            Err(ParseError::IncorrectValue)
        }
    }

    fn abbreviated_form() -> (r: &'static str) {
        "RC"
    }

    fn as_str(&self) -> (r: &'static str) {
        match self {
            ReportConfidence::Unconfirmed => "UC",
            ReportConfidence::Uncorroborated => "UR",
            ReportConfidence::Confirmed => "C",
            ReportConfidence::NotDefined => "ND",
        }
    }

    fn from_str(value: &str) -> (r: Result<ReportConfidence, ParseError>) {
        if str_eq(value, "UC") {
            Ok(ReportConfidence::Unconfirmed)
        } else if str_eq(value, "UR") {
            Ok(ReportConfidence::Uncorroborated)
        } else if str_eq(value, "C") {
            Ok(ReportConfidence::Confirmed)
        } else if str_eq(value, "ND") {
            Ok(ReportConfidence::NotDefined)
        } else {
            Err(ParseError::IncorrectValue)
        }
    }
}

impl Optional for ReportConfidence {
    open spec fn spec_undefined() -> ReportConfidence {
        ReportConfidence::NotDefined
    }

    fn undefined() -> (r: ReportConfidence) {
        ReportConfidence::NotDefined
    }

    fn is_undefined(&self) -> (r: bool) {
        matches!(*self, ReportConfidence::NotDefined)
    }
}
/// Parsing a value's own wire token yields the value back.
pub proof fn lemma_exploitability_round_trip(m: Exploitability)
    ensures
        Exploitability::spec_from_str(m.spec_token()) == Ok::<Exploitability, ParseError>(m),
{
    reveal_strlit("ND");
    reveal_strlit("H");
    reveal_strlit("F");
    reveal_strlit("POC");
    reveal_strlit("U");
    assert("ND"@.len() == 2 && "ND"@[0] == 'N' && "ND"@[1] == 'D');
    assert("H"@.len() == 1 && "H"@[0] == 'H');
    assert("F"@.len() == 1 && "F"@[0] == 'F');
    assert("POC"@.len() == 3 && "POC"@[0] == 'P' && "POC"@[1] == 'O' && "POC"@[2] == 'C');
    assert("U"@.len() == 1 && "U"@[0] == 'U');
    match m {
        Exploitability::NotDefined => assert(Exploitability::spec_from_str("ND"@) == Ok::<
            Exploitability,
            ParseError,
        >(m)),
        Exploitability::High => assert(Exploitability::spec_from_str("H"@) == Ok::<
            Exploitability,
            ParseError,
        >(m)),
        Exploitability::Functional => assert(Exploitability::spec_from_str("F"@) == Ok::<
            Exploitability,
            ParseError,
        >(m)),
        Exploitability::ProofOfConcept => assert(Exploitability::spec_from_str("POC"@) == Ok::<
            Exploitability,
            ParseError,
        >(m)),
        Exploitability::Unproven => assert(Exploitability::spec_from_str("U"@) == Ok::<
            Exploitability,
            ParseError,
        >(m)),
    }
}

/// Parsing a value's own wire token yields the value back.
pub proof fn lemma_remediation_level_round_trip(m: RemediationLevel)
    ensures
        RemediationLevel::spec_from_str(m.spec_token()) == Ok::<RemediationLevel, ParseError>(m),
{
    reveal_strlit("ND");
    reveal_strlit("U");
    reveal_strlit("W");
    reveal_strlit("TF");
    reveal_strlit("OF");
    assert("ND"@.len() == 2 && "ND"@[0] == 'N' && "ND"@[1] == 'D');
    assert("U"@.len() == 1 && "U"@[0] == 'U');
    assert("W"@.len() == 1 && "W"@[0] == 'W');
    assert("TF"@.len() == 2 && "TF"@[0] == 'T' && "TF"@[1] == 'F');
    assert("OF"@.len() == 2 && "OF"@[0] == 'O' && "OF"@[1] == 'F');
    match m {
        RemediationLevel::NotDefined => assert(RemediationLevel::spec_from_str("ND"@) == Ok::<
            RemediationLevel,
            ParseError,
        >(m)),
        RemediationLevel::Unavailable => assert(RemediationLevel::spec_from_str("U"@) == Ok::<
            RemediationLevel,
            ParseError,
        >(m)),
        RemediationLevel::Workaround => assert(RemediationLevel::spec_from_str("W"@) == Ok::<
            RemediationLevel,
            ParseError,
        >(m)),
        RemediationLevel::TemporaryFix => assert(RemediationLevel::spec_from_str("TF"@) == Ok::<
            RemediationLevel,
            ParseError,
        >(m)),
        RemediationLevel::OfficialFix => assert(RemediationLevel::spec_from_str("OF"@) == Ok::<
            RemediationLevel,
            ParseError,
        >(m)),
    }
}

/// Parsing a value's own wire token yields the value back.
pub proof fn lemma_report_confidence_round_trip(m: ReportConfidence)
    ensures
        ReportConfidence::spec_from_str(m.spec_token()) == Ok::<ReportConfidence, ParseError>(m),
{
    reveal_strlit("UC");
    reveal_strlit("UR");
    reveal_strlit("C");
    reveal_strlit("ND");
    assert("UC"@.len() == 2 && "UC"@[0] == 'U' && "UC"@[1] == 'C');
    assert("UR"@.len() == 2 && "UR"@[0] == 'U' && "UR"@[1] == 'R');
    assert("C"@.len() == 1 && "C"@[0] == 'C');
    assert("ND"@.len() == 2 && "ND"@[0] == 'N' && "ND"@[1] == 'D');
    match m {
        ReportConfidence::Unconfirmed => assert(ReportConfidence::spec_from_str("UC"@) == Ok::<
            ReportConfidence,
            ParseError,
        >(m)),
        ReportConfidence::Uncorroborated => assert(ReportConfidence::spec_from_str("UR"@) == Ok::<
            ReportConfidence,
            ParseError,
        >(m)),
        ReportConfidence::Confirmed => assert(ReportConfidence::spec_from_str("C"@) == Ok::<
            ReportConfidence,
            ParseError,
        >(m)),
        ReportConfidence::NotDefined => assert(ReportConfidence::spec_from_str("ND"@) == Ok::<
            ReportConfidence,
            ParseError,
        >(m)),
    }
}

} // verus!
