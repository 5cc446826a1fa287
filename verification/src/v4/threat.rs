//! CVSS v4 threat metrics.

use vstd::prelude::*;

use crate::common::str_eq;
use crate::common::CvssMetric;
use crate::common::Optional;
use crate::common::ParseError;
use crate::v4::V4Metric;

verus! {

/// Exploit Maturity (`E`).
#[derive(Clone, Copy, Debug, PartialEq, Eq, Hash, Structural)]
pub enum ExploitMaturity {
    NotDefined,
    Attacked,
    ProofOfConcept,
    Unreported,
}

impl CvssMetric for ExploitMaturity {
    open spec fn spec_abbrev() -> Seq<char> {
        "E"@
    }

    open spec fn spec_token(self) -> Seq<char> {
        match self {
            ExploitMaturity::NotDefined => "X"@,
            ExploitMaturity::Attacked => "A"@,
            ExploitMaturity::ProofOfConcept => "P"@,
            ExploitMaturity::Unreported => "U"@,
        }
    }

    open spec fn spec_from_str(s: Seq<char>) -> Result<ExploitMaturity, ParseError> {
        if s == "X"@ {
            Ok(ExploitMaturity::NotDefined)
        } else if s == "A"@ {
            Ok(ExploitMaturity::Attacked)
        } else if s == "P"@ {
            Ok(ExploitMaturity::ProofOfConcept)
        } else if s == "U"@ {
            Ok(ExploitMaturity::Unreported)
        } else {
            Err(ParseError::IncorrectValue)
        }
    }

    fn abbreviated_form() -> (r: &'static str) {
        "E"
    }

    fn as_str(&self) -> (r: &'static str) {
        match self {
            ExploitMaturity::NotDefined => "X",
            ExploitMaturity::Attacked => "A",
            ExploitMaturity::ProofOfConcept => "P",
            ExploitMaturity::Unreported => "U",
        }
    }

    fn from_str(value: &str) -> (r: Result<ExploitMaturity, ParseError>) {
        if str_eq(value, "X") {
            Ok(ExploitMaturity::NotDefined)
        } else if str_eq(value, "A") {
            Ok(ExploitMaturity::Attacked)
        } else if str_eq(value, "P") {
            Ok(ExploitMaturity::ProofOfConcept)
        } else if str_eq(value, "U") {
            Ok(ExploitMaturity::Unreported)
        } else {
            Err(ParseError::IncorrectValue)
        }
    }
}

impl Optional for ExploitMaturity {
    open spec fn spec_undefined() -> ExploitMaturity {
        ExploitMaturity::NotDefined
    }

    fn undefined() -> (r: ExploitMaturity) {
        ExploitMaturity::NotDefined
    }

    fn is_undefined(&self) -> (r: bool) {
        matches!(*self, ExploitMaturity::NotDefined)
    }
}

impl V4Metric for ExploitMaturity {
    open spec fn spec_level(self) -> int {
        match self {
            ExploitMaturity::NotDefined => 0,
            ExploitMaturity::Attacked => 0,
            ExploitMaturity::ProofOfConcept => 1,
            ExploitMaturity::Unreported => 2,
        }
    }

    fn level(&self) -> (r: u8) {
        match self {
            ExploitMaturity::NotDefined => 0,
            ExploitMaturity::Attacked => 0,
            ExploitMaturity::ProofOfConcept => 1,
            ExploitMaturity::Unreported => 2,
        }
    }
}
/// Parsing a value's own wire token yields the value back.
pub proof fn lemma_exploit_maturity_round_trip(m: ExploitMaturity)
    ensures
        ExploitMaturity::spec_from_str(m.spec_token()) == Ok::<ExploitMaturity, ParseError>(m),
{
    reveal_strlit("X");
    reveal_strlit("A");
    reveal_strlit("P");
    reveal_strlit("U");
    assert("X"@.len() == 1 && "X"@[0] == 'X');
    assert("A"@.len() == 1 && "A"@[0] == 'A');
    assert("P"@.len() == 1 && "P"@[0] == 'P');
    assert("U"@.len() == 1 && "U"@[0] == 'U');
    match m {
        ExploitMaturity::NotDefined => assert(ExploitMaturity::spec_from_str("X"@) == Ok::<
            ExploitMaturity,
            ParseError,
        >(m)),
        ExploitMaturity::Attacked => assert(ExploitMaturity::spec_from_str("A"@) == Ok::<
            ExploitMaturity,
            ParseError,
        >(m)),
        ExploitMaturity::ProofOfConcept => assert(ExploitMaturity::spec_from_str("P"@) == Ok::<
            ExploitMaturity,
            ParseError,
        >(m)),
        ExploitMaturity::Unreported => assert(ExploitMaturity::spec_from_str("U"@) == Ok::<
            ExploitMaturity,
            ParseError,
        >(m)),
    }
}

/// The metric name and every wire token are free of the vector and
/// metric delimiters.
pub proof fn lemma_exploit_maturity_token_chars(m: ExploitMaturity)
    ensures
        ExploitMaturity::spec_abbrev().len() > 0,
        forall|j: int|
            0 <= j < ExploitMaturity::spec_abbrev().len() ==> ExploitMaturity::spec_abbrev()[j] != '/'
                && ExploitMaturity::spec_abbrev()[j] != ':',
        forall|j: int|
            0 <= j < m.spec_token().len() ==> m.spec_token()[j] != '/' && m.spec_token()[j]
                != ':',
{
    reveal_strlit("E");
    reveal_strlit("X");
    reveal_strlit("A");
    reveal_strlit("P");
    reveal_strlit("U");
    assert("E"@.len() == 1 && "E"@[0] == 'E');
    assert("X"@.len() == 1 && "X"@[0] == 'X');
    assert("A"@.len() == 1 && "A"@[0] == 'A');
    assert("P"@.len() == 1 && "P"@[0] == 'P');
    assert("U"@.len() == 1 && "U"@[0] == 'U');
}

} // verus!
