//! CVSS v3 temporal metrics.

use vstd::prelude::*;

use crate::common::str_eq;
use crate::common::CvssMetric;
use crate::common::Optional;
use crate::common::ParseError;

verus! {

/// Exploit Code Maturity (`E`).
#[derive(Clone, Copy, Debug, PartialEq, Eq, Hash, Structural)]
pub enum ExploitCodeMaturity {
    NotDefined,
    High,
    Functional,
    ProofOfConcept,
    Unproven,
}

impl CvssMetric for ExploitCodeMaturity {
    open spec fn spec_abbrev() -> Seq<char> {
        "E"@
    }

    open spec fn spec_token(self) -> Seq<char> {
        match self {
            ExploitCodeMaturity::NotDefined => "X"@,
            ExploitCodeMaturity::High => "H"@,
            ExploitCodeMaturity::Functional => "F"@,
            ExploitCodeMaturity::ProofOfConcept => "P"@,
            ExploitCodeMaturity::Unproven => "U"@,
        }
    }

    open spec fn spec_from_str(s: Seq<char>) -> Result<ExploitCodeMaturity, ParseError> {
        if s == "X"@ {
            Ok(ExploitCodeMaturity::NotDefined)
        } else if s == "H"@ {
            Ok(ExploitCodeMaturity::High)
        } else if s == "F"@ {
            Ok(ExploitCodeMaturity::Functional)
        } else if s == "P"@ {
            Ok(ExploitCodeMaturity::ProofOfConcept)
        } else if s == "U"@ {
            Ok(ExploitCodeMaturity::Unproven)
        } else {
            Err(ParseError::IncorrectValue)
        }
    }

    fn abbreviated_form() -> (r: &'static str) {
        "E"
    }

    fn as_str(&self) -> (r: &'static str) {
        match self {
            ExploitCodeMaturity::NotDefined => "X",
            ExploitCodeMaturity::High => "H",
            ExploitCodeMaturity::Functional => "F",
            ExploitCodeMaturity::ProofOfConcept => "P",
            ExploitCodeMaturity::Unproven => "U",
        }
    }

    fn from_str(value: &str) -> (r: Result<ExploitCodeMaturity, ParseError>) {
        if str_eq(value, "X") {
            Ok(ExploitCodeMaturity::NotDefined)
        } else if str_eq(value, "H") {
            Ok(ExploitCodeMaturity::High)
        } else if str_eq(value, "F") {
            Ok(ExploitCodeMaturity::Functional)
        } else if str_eq(value, "P") {
            Ok(ExploitCodeMaturity::ProofOfConcept)
        } else if str_eq(value, "U") {
            Ok(ExploitCodeMaturity::Unproven)
        } else {
            Err(ParseError::IncorrectValue)
        }
    }
}

impl Optional for ExploitCodeMaturity {
    open spec fn spec_undefined() -> ExploitCodeMaturity {
        ExploitCodeMaturity::NotDefined
    }

    fn undefined() -> (r: ExploitCodeMaturity) {
        ExploitCodeMaturity::NotDefined
    }

    fn is_undefined(&self) -> (r: bool) {
        matches!(*self, ExploitCodeMaturity::NotDefined)
    }
}

/// Remediation Level (`RL`).
#[derive(Clone, Copy, Debug, PartialEq, Eq, Hash, Structural)]
pub enum RemediationLevel {
    NotDefined,
    Unavailable,
    Workaround,
    TemporaryFix,
    OfficialFix,
}

impl CvssMetric for RemediationLevel {
    open spec fn spec_abbrev() -> Seq<char> {
        "RL"@
    }

    open spec fn spec_token(self) -> Seq<char> {
        match self {
            RemediationLevel::NotDefined => "X"@,
            RemediationLevel::Unavailable => "U"@,
            RemediationLevel::Workaround => "W"@,
            RemediationLevel::TemporaryFix => "T"@,
            RemediationLevel::OfficialFix => "O"@,
        }
    }

    open spec fn spec_from_str(s: Seq<char>) -> Result<RemediationLevel, ParseError> {
        if s == "X"@ {
            Ok(RemediationLevel::NotDefined)
        } else if s == "U"@ {
            Ok(RemediationLevel::Unavailable)
        } else if s == "W"@ {
            Ok(RemediationLevel::Workaround)
        } else if s == "T"@ {
            Ok(RemediationLevel::TemporaryFix)
        } else if s == "O"@ {
            Ok(RemediationLevel::OfficialFix)
        } else {
            Err(ParseError::IncorrectValue)
        }
    }

    fn abbreviated_form() -> (r: &'static str) {
        "RL"
    }

    fn as_str(&self) -> (r: &'static str) {
        match self {
            RemediationLevel::NotDefined => "X",
            RemediationLevel::Unavailable => "U",
            RemediationLevel::Workaround => "W",
            RemediationLevel::TemporaryFix => "T",
            RemediationLevel::OfficialFix => "O",
        }
    }

    fn from_str(value: &str) -> (r: Result<RemediationLevel, ParseError>) {
        if str_eq(value, "X") {
            Ok(RemediationLevel::NotDefined)
        } else if str_eq(value, "U") {
            Ok(RemediationLevel::Unavailable)
        } else if str_eq(value, "W") {
            Ok(RemediationLevel::Workaround)
        } else if str_eq(value, "T") {
            Ok(RemediationLevel::TemporaryFix)
        } else if str_eq(value, "O") {
            Ok(RemediationLevel::OfficialFix)
        } else {
            Err(ParseError::IncorrectValue)
        }
    }
}

impl Optional for RemediationLevel {
    open spec fn spec_undefined() -> RemediationLevel {
        RemediationLevel::NotDefined
    }

    fn undefined() -> (r: RemediationLevel) {
        RemediationLevel::NotDefined
    }

    fn is_undefined(&self) -> (r: bool) {
        matches!(*self, RemediationLevel::NotDefined)
    }
}

/// Report Confidence (`RC`).
#[derive(Clone, Copy, Debug, PartialEq, Eq, Hash, Structural)]
pub enum ReportConfidence {
    NotDefined,
    Confirmed,
    Reasonable,
    Unknown,
}

impl CvssMetric for ReportConfidence {
    open spec fn spec_abbrev() -> Seq<char> {
        "RC"@
    }

    open spec fn spec_token(self) -> Seq<char> {
        match self {
            ReportConfidence::NotDefined => "X"@,
            ReportConfidence::Confirmed => "C"@,
            ReportConfidence::Reasonable => "R"@,
            ReportConfidence::Unknown => "U"@,
        }
    }

    open spec fn spec_from_str(s: Seq<char>) -> Result<ReportConfidence, ParseError> {
        if s == "X"@ {
            Ok(ReportConfidence::NotDefined)
        } else if s == "C"@ {
            Ok(ReportConfidence::Confirmed)
        } else if s == "R"@ {
            Ok(ReportConfidence::Reasonable)
        } else if s == "U"@ {
            Ok(ReportConfidence::Unknown)
        } else {
            Err(ParseError::IncorrectValue)
        }
    }

    fn abbreviated_form() -> (r: &'static str) {
        "RC"
    }

    fn as_str(&self) -> (r: &'static str) {
        match self {
            ReportConfidence::NotDefined => "X",
            ReportConfidence::Confirmed => "C",
            ReportConfidence::Reasonable => "R",
            ReportConfidence::Unknown => "U",
        }
    }

    fn from_str(value: &str) -> (r: Result<ReportConfidence, ParseError>) {
        if str_eq(value, "X") {
            Ok(ReportConfidence::NotDefined)
        } else if str_eq(value, "C") {
            Ok(ReportConfidence::Confirmed)
        } else if str_eq(value, "R") {
            Ok(ReportConfidence::Reasonable)
        } else if str_eq(value, "U") {
            Ok(ReportConfidence::Unknown)
        } else {
            Err(ParseError::IncorrectValue)
        }
    }
}

impl Optional for ReportConfidence {
    open spec fn spec_undefined() -> ReportConfidence {
        ReportConfidence::NotDefined
    }

    fn undefined() -> (r: ReportConfidence) {
        ReportConfidence::NotDefined
    }

    fn is_undefined(&self) -> (r: bool) {
        matches!(*self, ReportConfidence::NotDefined)
    }
}
/// Parsing a value's own wire token yields the value back.
pub proof fn lemma_exploit_code_maturity_round_trip(m: ExploitCodeMaturity)
    ensures
        ExploitCodeMaturity::spec_from_str(m.spec_token()) == Ok::<ExploitCodeMaturity, ParseError>(m),
{
    reveal_strlit("X");
    reveal_strlit("H");
    reveal_strlit("F");
    reveal_strlit("P");
    reveal_strlit("U");
    assert("X"@.len() == 1 && "X"@[0] == 'X');
    assert("H"@.len() == 1 && "H"@[0] == 'H');
    assert("F"@.len() == 1 && "F"@[0] == 'F');
    assert("P"@.len() == 1 && "P"@[0] == 'P');
    assert("U"@.len() == 1 && "U"@[0] == 'U');
    match m {
        ExploitCodeMaturity::NotDefined => assert(ExploitCodeMaturity::spec_from_str("X"@) == Ok::<
            ExploitCodeMaturity,
            ParseError,
        >(m)),
        ExploitCodeMaturity::High => assert(ExploitCodeMaturity::spec_from_str("H"@) == Ok::<
            ExploitCodeMaturity,
            ParseError,
        >(m)),
        ExploitCodeMaturity::Functional => assert(ExploitCodeMaturity::spec_from_str("F"@) == Ok::<
            ExploitCodeMaturity,
            ParseError,
        >(m)),
        ExploitCodeMaturity::ProofOfConcept => assert(ExploitCodeMaturity::spec_from_str("P"@) == Ok::<
            ExploitCodeMaturity,
            ParseError,
        >(m)),
        ExploitCodeMaturity::Unproven => assert(ExploitCodeMaturity::spec_from_str("U"@) == Ok::<
            ExploitCodeMaturity,
            ParseError,
        >(m)),
    }
}

/// Parsing a value's own wire token yields the value back.
pub proof fn lemma_remediation_level_round_trip(m: RemediationLevel)
    ensures
        RemediationLevel::spec_from_str(m.spec_token()) == Ok::<RemediationLevel, ParseError>(m),
{
    reveal_strlit("X");
    reveal_strlit("U");
    reveal_strlit("W");
    reveal_strlit("T");
    reveal_strlit("O");
    assert("X"@.len() == 1 && "X"@[0] == 'X');
    assert("U"@.len() == 1 && "U"@[0] == 'U');
    assert("W"@.len() == 1 && "W"@[0] == 'W');
    assert("T"@.len() == 1 && "T"@[0] == 'T');
    assert("O"@.len() == 1 && "O"@[0] == 'O');
    match m {
        RemediationLevel::NotDefined => assert(RemediationLevel::spec_from_str("X"@) == Ok::<
            RemediationLevel,
            ParseError,
        >(m)),
        RemediationLevel::Unavailable => assert(RemediationLevel::spec_from_str("U"@) == Ok::<
            RemediationLevel,
            ParseError,
        >(m)),
        RemediationLevel::Workaround => assert(RemediationLevel::spec_from_str("W"@) == Ok::<
            RemediationLevel,
            ParseError,
        >(m)),
        RemediationLevel::TemporaryFix => assert(RemediationLevel::spec_from_str("T"@) == Ok::<
            RemediationLevel,
            ParseError,
        >(m)),
        RemediationLevel::OfficialFix => assert(RemediationLevel::spec_from_str("O"@) == Ok::<
            RemediationLevel,
            ParseError,
        >(m)),
    }
}

/// Parsing a value's own wire token yields the value back.
pub proof fn lemma_report_confidence_round_trip(m: ReportConfidence)
    ensures
        ReportConfidence::spec_from_str(m.spec_token()) == Ok::<ReportConfidence, ParseError>(m),
{
    reveal_strlit("X");
    reveal_strlit("C");
    reveal_strlit("R");
    reveal_strlit("U");
    assert("X"@.len() == 1 && "X"@[0] == 'X');
    assert("C"@.len() == 1 && "C"@[0] == 'C');
    assert("R"@.len() == 1 && "R"@[0] == 'R');
    assert("U"@.len() == 1 && "U"@[0] == 'U');
    match m {
        ReportConfidence::NotDefined => assert(ReportConfidence::spec_from_str("X"@) == Ok::<
            ReportConfidence,
            ParseError,
        >(m)),
        ReportConfidence::Confirmed => assert(ReportConfidence::spec_from_str("C"@) == Ok::<
            ReportConfidence,
            ParseError,
        >(m)),
        ReportConfidence::Reasonable => assert(ReportConfidence::spec_from_str("R"@) == Ok::<
            ReportConfidence,
            ParseError,
        >(m)),
        ReportConfidence::Unknown => assert(ReportConfidence::spec_from_str("U"@) == Ok::<
            ReportConfidence,
            ParseError,
        >(m)),
    }
}

} // verus!
