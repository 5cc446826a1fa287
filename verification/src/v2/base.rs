//! CVSS v2 base metrics.

use vstd::prelude::*;

use crate::common::str_eq;
use crate::common::CvssMetric;
use crate::common::Optional;
use crate::common::ParseError;

verus! {

/// Access Vector (`AV`).
#[derive(Clone, Copy, Debug, PartialEq, Eq, Hash, Structural)]
pub enum AccessVector {
    Local,
    AdjacentNetwork,
    Network,
}

impl CvssMetric for AccessVector {
    open spec fn spec_abbrev() -> Seq<char> {
        "AV"@
    }

    open spec fn spec_token(self) -> Seq<char> {
        match self {
            AccessVector::Local => "L"@,
            AccessVector::AdjacentNetwork => "A"@,
            AccessVector::Network => "N"@,
        }
    }

    open spec fn spec_from_str(s: Seq<char>) -> Result<AccessVector, ParseError> {
        if s == "L"@ {
            Ok(AccessVector::Local)
        } else if s == "A"@ {
            Ok(AccessVector::AdjacentNetwork)
        } else if s == "N"@ {
            Ok(AccessVector::Network)
        } else {
            Err(ParseError::IncorrectValue)
        }
    }

    fn abbreviated_form() -> (r: &'static str) {
        "AV"
    }

    fn as_str(&self) -> (r: &'static str) {
        match self {
            AccessVector::Local => "L",
            AccessVector::AdjacentNetwork => "A",
            AccessVector::Network => "N",
        }
    }

    fn from_str(value: &str) -> (r: Result<AccessVector, ParseError>) {
        if str_eq(value, "L") {
            Ok(AccessVector::Local)
        } else if str_eq(value, "A") {
            Ok(AccessVector::AdjacentNetwork)
        } else if str_eq(value, "N") {
            Ok(AccessVector::Network)
        } else {
            Err(ParseError::IncorrectValue)
        }
    }
}

/// Access Complexity (`AC`).
#[derive(Clone, Copy, Debug, PartialEq, Eq, Hash, Structural)]
pub enum AccessComplexity {
    High,
    Medium,
    Low,
}

impl CvssMetric for AccessComplexity {
    open spec fn spec_abbrev() -> Seq<char> {
        "AC"@
    }

    open spec fn spec_token(self) -> Seq<char> {
        match self {
            AccessComplexity::High => "H"@,
            AccessComplexity::Medium => "M"@,
            AccessComplexity::Low => "L"@,
        }
    }

    open spec fn spec_from_str(s: Seq<char>) -> Result<AccessComplexity, ParseError> {
        if s == "H"@ {
            Ok(AccessComplexity::High)
        } else if s == "M"@ {
            Ok(AccessComplexity::Medium)
        } else if s == "L"@ {
            Ok(AccessComplexity::Low)
        } else {
            Err(ParseError::IncorrectValue)
        }
    }

    fn abbreviated_form() -> (r: &'static str) {
        "AC"
    }

    fn as_str(&self) -> (r: &'static str) {
        match self {
            AccessComplexity::High => "H",
            AccessComplexity::Medium => "M",
            AccessComplexity::Low => "L",
        }
    }

    fn from_str(value: &str) -> (r: Result<AccessComplexity, ParseError>) {
        if str_eq(value, "H") {
            Ok(AccessComplexity::High)
        } else if str_eq(value, "M") {
            Ok(AccessComplexity::Medium)
        } else if str_eq(value, "L") {
            Ok(AccessComplexity::Low)
        } else {
            Err(ParseError::IncorrectValue)
        }
    }
}

/// Authentication (`Au`).
#[derive(Clone, Copy, Debug, PartialEq, Eq, Hash, Structural)]
pub enum Authentication {
    Multiple,
    Single,
    NoneRequired,
}

impl CvssMetric for Authentication {
    open spec fn spec_abbrev() -> Seq<char> {
        "Au"@
    }

    open spec fn spec_token(self) -> Seq<char> {
        match self {
            Authentication::Multiple => "M"@,
            Authentication::Single => "S"@,
            Authentication::NoneRequired => "N"@,
        }
    }

    open spec fn spec_from_str(s: Seq<char>) -> Result<Authentication, ParseError> {
        if s == "M"@ {
            Ok(Authentication::Multiple)
        } else if s == "S"@ {
            Ok(Authentication::Single)
        } else if s == "N"@ {
            Ok(Authentication::NoneRequired)
        } else {
            Err(ParseError::IncorrectValue)
        }
    }

    fn abbreviated_form() -> (r: &'static str) {
        "Au"
    }

    fn as_str(&self) -> (r: &'static str) {
        match self {
            Authentication::Multiple => "M",
            Authentication::Single => "S",
            Authentication::NoneRequired => "N",
        }
    }

    fn from_str(value: &str) -> (r: Result<Authentication, ParseError>) {
        if str_eq(value, "M") {
            Ok(Authentication::Multiple)
        } else if str_eq(value, "S") {
            Ok(Authentication::Single)
        } else if str_eq(value, "N") {
            Ok(Authentication::NoneRequired)
        } else {
            Err(ParseError::IncorrectValue)
        }
    }
}

/// Confidentiality Impact (`C`).
#[derive(Clone, Copy, Debug, PartialEq, Eq, Hash, Structural)]
pub enum ConfidentialityImpact {
    Negligible,
    Partial,
    Complete,
}

impl CvssMetric for ConfidentialityImpact {
    open spec fn spec_abbrev() -> Seq<char> {
        "C"@
    }

    open spec fn spec_token(self) -> Seq<char> {
        match self {
            ConfidentialityImpact::Negligible => "N"@,
            ConfidentialityImpact::Partial => "P"@,
            ConfidentialityImpact::Complete => "C"@,
        }
    }

    open spec fn spec_from_str(s: Seq<char>) -> Result<ConfidentialityImpact, ParseError> {
        if s == "N"@ {
            Ok(ConfidentialityImpact::Negligible)
        } else if s == "P"@ {
            Ok(ConfidentialityImpact::Partial)
        } else if s == "C"@ {
            Ok(ConfidentialityImpact::Complete)
        } else {
            Err(ParseError::IncorrectValue)
        }
    }

    fn abbreviated_form() -> (r: &'static str) {
        "C"
    }

    fn as_str(&self) -> (r: &'static str) {
        match self {
            ConfidentialityImpact::Negligible => "N",
            ConfidentialityImpact::Partial => "P",
            ConfidentialityImpact::Complete => "C",
        }
    }

    fn from_str(value: &str) -> (r: Result<ConfidentialityImpact, ParseError>) {
        if str_eq(value, "N") {
            Ok(ConfidentialityImpact::Negligible)
        } else if str_eq(value, "P") {
            Ok(ConfidentialityImpact::Partial)
        } else if str_eq(value, "C") {
            Ok(ConfidentialityImpact::Complete)
        } else {
            Err(ParseError::IncorrectValue)
        }
    }
}

/// Integrity Impact (`I`).
#[derive(Clone, Copy, Debug, PartialEq, Eq, Hash, Structural)]
pub enum IntegrityImpact {
    Negligible,
    Partial,
    Complete,
}

impl CvssMetric for IntegrityImpact {
    open spec fn spec_abbrev() -> Seq<char> {
        "I"@
    }

    open spec fn spec_token(self) -> Seq<char> {
        match self {
            IntegrityImpact::Negligible => "N"@,
            IntegrityImpact::Partial => "P"@,
            IntegrityImpact::Complete => "C"@,
        }
    }

    open spec fn spec_from_str(s: Seq<char>) -> Result<IntegrityImpact, ParseError> {
        if s == "N"@ {
            Ok(IntegrityImpact::Negligible)
        } else if s == "P"@ {
            Ok(IntegrityImpact::Partial)
        } else if s == "C"@ {
            Ok(IntegrityImpact::Complete)
        } else {
            Err(ParseError::IncorrectValue)
        }
    }

    fn abbreviated_form() -> (r: &'static str) {
        "I"
    }

    fn as_str(&self) -> (r: &'static str) {
        match self {
            IntegrityImpact::Negligible => "N",
            IntegrityImpact::Partial => "P",
            IntegrityImpact::Complete => "C",
        }
    }

    fn from_str(value: &str) -> (r: Result<IntegrityImpact, ParseError>) {
        if str_eq(value, "N") {
            Ok(IntegrityImpact::Negligible)
        } else if str_eq(value, "P") {
            Ok(IntegrityImpact::Partial)
        } else if str_eq(value, "C") {
            Ok(IntegrityImpact::Complete)
        } else {
            Err(ParseError::IncorrectValue)
        }
    }
}

/// Availability Impact (`A`).
#[derive(Clone, Copy, Debug, PartialEq, Eq, Hash, Structural)]
pub enum AvailabilityImpact {
    Negligible,
    Partial,
    Complete,
}

impl CvssMetric for AvailabilityImpact {
    open spec fn spec_abbrev() -> Seq<char> {
        "A"@
    }

    open spec fn spec_token(self) -> Seq<char> {
        match self {
            AvailabilityImpact::Negligible => "N"@,
            AvailabilityImpact::Partial => "P"@,
            AvailabilityImpact::Complete => "C"@,
        }
    }

    open spec fn spec_from_str(s: Seq<char>) -> Result<AvailabilityImpact, ParseError> {
        if s == "N"@ {
            Ok(AvailabilityImpact::Negligible)
        } else if s == "P"@ {
            Ok(AvailabilityImpact::Partial)
        } else if s == "C"@ {
            Ok(AvailabilityImpact::Complete)
        } else {
            Err(ParseError::IncorrectValue)
        }
    }

    fn abbreviated_form() -> (r: &'static str) {
        "A"
    }

    fn as_str(&self) -> (r: &'static str) {
        match self {
            AvailabilityImpact::Negligible => "N",
            AvailabilityImpact::Partial => "P",
            AvailabilityImpact::Complete => "C",
        }
    }

    fn from_str(value: &str) -> (r: Result<AvailabilityImpact, ParseError>) {
        if str_eq(value, "N") {
            Ok(AvailabilityImpact::Negligible)
        } else if str_eq(value, "P") {
            Ok(AvailabilityImpact::Partial)
        } else if str_eq(value, "C") {
            Ok(AvailabilityImpact::Complete)
        } else {
            Err(ParseError::IncorrectValue)
        }
    }
}
/// Parsing a value's own wire token yields the value back.
pub proof fn lemma_access_vector_round_trip(m: AccessVector)
    ensures
        AccessVector::spec_from_str(m.spec_token()) == Ok::<AccessVector, ParseError>(m),
{
    reveal_strlit("L");
    reveal_strlit("A");
    reveal_strlit("N");
    assert("L"@.len() == 1 && "L"@[0] == 'L');
    assert("A"@.len() == 1 && "A"@[0] == 'A');
    assert("N"@.len() == 1 && "N"@[0] == 'N');
    match m {
        AccessVector::Local => assert(AccessVector::spec_from_str("L"@) == Ok::<
            AccessVector,
            ParseError,
        >(m)),
        AccessVector::AdjacentNetwork => assert(AccessVector::spec_from_str("A"@) == Ok::<
            AccessVector,
            ParseError,
        >(m)),
        AccessVector::Network => assert(AccessVector::spec_from_str("N"@) == Ok::<
            AccessVector,
            ParseError,
        >(m)),
    }
}

/// Parsing a value's own wire token yields the value back.
pub proof fn lemma_access_complexity_round_trip(m: AccessComplexity)
    ensures
        AccessComplexity::spec_from_str(m.spec_token()) == Ok::<AccessComplexity, ParseError>(m),
{
    reveal_strlit("H");
    reveal_strlit("M");
    reveal_strlit("L");
    assert("H"@.len() == 1 && "H"@[0] == 'H');
    assert("M"@.len() == 1 && "M"@[0] == 'M');
    assert("L"@.len() == 1 && "L"@[0] == 'L');
    match m {
        AccessComplexity::High => assert(AccessComplexity::spec_from_str("H"@) == Ok::<
            AccessComplexity,
            ParseError,
        >(m)),
        AccessComplexity::Medium => assert(AccessComplexity::spec_from_str("M"@) == Ok::<
            AccessComplexity,
            ParseError,
        >(m)),
        AccessComplexity::Low => assert(AccessComplexity::spec_from_str("L"@) == Ok::<
            AccessComplexity,
            ParseError,
        >(m)),
    }
}

/// Parsing a value's own wire token yields the value back.
pub proof fn lemma_authentication_round_trip(m: Authentication)
    ensures
        Authentication::spec_from_str(m.spec_token()) == Ok::<Authentication, ParseError>(m),
{
    reveal_strlit("M");
    reveal_strlit("S");
    reveal_strlit("N");
    assert("M"@.len() == 1 && "M"@[0] == 'M');
    assert("S"@.len() == 1 && "S"@[0] == 'S');
    assert("N"@.len() == 1 && "N"@[0] == 'N');
    match m {
        Authentication::Multiple => assert(Authentication::spec_from_str("M"@) == Ok::<
            Authentication,
            ParseError,
        >(m)),
        Authentication::Single => assert(Authentication::spec_from_str("S"@) == Ok::<
            Authentication,
            ParseError,
        >(m)),
        Authentication::NoneRequired => assert(Authentication::spec_from_str("N"@) == Ok::<
            Authentication,
            ParseError,
        >(m)),
    }
}

/// Parsing a value's own wire token yields the value back.
pub proof fn lemma_confidentiality_impact_round_trip(m: ConfidentialityImpact)
    ensures
        ConfidentialityImpact::spec_from_str(m.spec_token()) == Ok::<ConfidentialityImpact, ParseError>(m),
{
    reveal_strlit("N");
    reveal_strlit("P");
    reveal_strlit("C");
    assert("N"@.len() == 1 && "N"@[0] == 'N');
    assert("P"@.len() == 1 && "P"@[0] == 'P');
    assert("C"@.len() == 1 && "C"@[0] == 'C');
    match m {
        ConfidentialityImpact::Negligible => assert(ConfidentialityImpact::spec_from_str("N"@) == Ok::<
            ConfidentialityImpact,
            ParseError,
        >(m)),
        ConfidentialityImpact::Partial => assert(ConfidentialityImpact::spec_from_str("P"@) == Ok::<
            ConfidentialityImpact,
            ParseError,
        >(m)),
        ConfidentialityImpact::Complete => assert(ConfidentialityImpact::spec_from_str("C"@) == Ok::<
            ConfidentialityImpact,
            ParseError,
        >(m)),
    }
}

/// Parsing a value's own wire token yields the value back.
pub proof fn lemma_integrity_impact_round_trip(m: IntegrityImpact)
    ensures
        IntegrityImpact::spec_from_str(m.spec_token()) == Ok::<IntegrityImpact, ParseError>(m),
{
    reveal_strlit("N");
    reveal_strlit("P");
    reveal_strlit("C");
    assert("N"@.len() == 1 && "N"@[0] == 'N');
    assert("P"@.len() == 1 && "P"@[0] == 'P');
    assert("C"@.len() == 1 && "C"@[0] == 'C');
    match m {
        IntegrityImpact::Negligible => assert(IntegrityImpact::spec_from_str("N"@) == Ok::<
            IntegrityImpact,
            ParseError,
        >(m)),
        IntegrityImpact::Partial => assert(IntegrityImpact::spec_from_str("P"@) == Ok::<
            IntegrityImpact,
            ParseError,
        >(m)),
        IntegrityImpact::Complete => assert(IntegrityImpact::spec_from_str("C"@) == Ok::<
            IntegrityImpact,
            ParseError,
        >(m)),
    }
}

/// Parsing a value's own wire token yields the value back.
pub proof fn lemma_availability_impact_round_trip(m: AvailabilityImpact)
    ensures
        AvailabilityImpact::spec_from_str(m.spec_token()) == Ok::<AvailabilityImpact, ParseError>(m),
{
    reveal_strlit("N");
    reveal_strlit("P");
    reveal_strlit("C");
    assert("N"@.len() == 1 && "N"@[0] == 'N');
    assert("P"@.len() == 1 && "P"@[0] == 'P');
    assert("C"@.len() == 1 && "C"@[0] == 'C');
    match m {
        AvailabilityImpact::Negligible => assert(AvailabilityImpact::spec_from_str("N"@) == Ok::<
            AvailabilityImpact,
            ParseError,
        >(m)),
        AvailabilityImpact::Partial => assert(AvailabilityImpact::spec_from_str("P"@) == Ok::<
            AvailabilityImpact,
            ParseError,
        >(m)),
        AvailabilityImpact::Complete => assert(AvailabilityImpact::spec_from_str("C"@) == Ok::<
            AvailabilityImpact,
            ParseError,
        >(m)),
    }
}

} // verus!
