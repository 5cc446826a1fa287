//! CVSS v3 base metrics.

use vstd::prelude::*;

use crate::common::str_eq;
use crate::common::CvssMetric;
use crate::common::Optional;
use crate::common::ParseError;
use crate::v4::V4Metric;

verus! {

/// Attack Vector (`AV`).
#[derive(Clone, Copy, Debug, PartialEq, Eq, Hash, Structural)]
pub enum AttackVector {
    Network,
    Adjacent,
    Local,
    Physical,
}

impl CvssMetric for AttackVector {
    open spec fn spec_abbrev() -> Seq<char> {
        "AV"@
    }

    open spec fn spec_token(self) -> Seq<char> {
        match self {
            AttackVector::Network => "N"@,
            AttackVector::Adjacent => "A"@,
            AttackVector::Local => "L"@,
            AttackVector::Physical => "P"@,
        }
    }

    open spec fn spec_from_str(s: Seq<char>) -> Result<AttackVector, ParseError> {
        if s == "N"@ {
            Ok(AttackVector::Network)
        } else if s == "A"@ {
            Ok(AttackVector::Adjacent)
        } else if s == "L"@ {
            Ok(AttackVector::Local)
        } else if s == "P"@ {
            Ok(AttackVector::Physical)
        } else {
            Err(ParseError::IncorrectValue)
        }
    }

    fn abbreviated_form() -> (r: &'static str) {
        "AV"
    }

    fn as_str(&self) -> (r: &'static str) {
        match self {
            AttackVector::Network => "N",
            AttackVector::Adjacent => "A",
            AttackVector::Local => "L",
            AttackVector::Physical => "P",
        }
    }

    fn from_str(value: &str) -> (r: Result<AttackVector, ParseError>) {
        if str_eq(value, "N") {
            Ok(AttackVector::Network)
        } else if str_eq(value, "A") {
            Ok(AttackVector::Adjacent)
        } else if str_eq(value, "L") {
            Ok(AttackVector::Local)
        } else if str_eq(value, "P") {
            Ok(AttackVector::Physical)
        } else {
            Err(ParseError::IncorrectValue)
        }
    }
}

impl V4Metric for AttackVector {
    open spec fn spec_level(self) -> int {
        match self {
            AttackVector::Network => 0,
            AttackVector::Adjacent => 1,
            AttackVector::Local => 2,
            AttackVector::Physical => 3,
        }
    }

    fn level(&self) -> (r: u8) {
        match self {
            AttackVector::Network => 0,
            AttackVector::Adjacent => 1,
            AttackVector::Local => 2,
            AttackVector::Physical => 3,
        }
    }
}

/// Attack Complexity (`AC`).
#[derive(Clone, Copy, Debug, PartialEq, Eq, Hash, Structural)]
pub enum AttackComplexity {
    Low,
    High,
}

impl CvssMetric for AttackComplexity {
    open spec fn spec_abbrev() -> Seq<char> {
        "AC"@
    }

    open spec fn spec_token(self) -> Seq<char> {
        match self {
            AttackComplexity::Low => "L"@,
            AttackComplexity::High => "H"@,
        }
    }

    open spec fn spec_from_str(s: Seq<char>) -> Result<AttackComplexity, ParseError> {
        if s == "L"@ {
            Ok(AttackComplexity::Low)
        } else if s == "H"@ {
            Ok(AttackComplexity::High)
        } else {
            Err(ParseError::IncorrectValue)
        }
    }

    fn abbreviated_form() -> (r: &'static str) {
        "AC"
    }

    fn as_str(&self) -> (r: &'static str) {
        match self {
            AttackComplexity::Low => "L",
            AttackComplexity::High => "H",
        }
    }

    fn from_str(value: &str) -> (r: Result<AttackComplexity, ParseError>) {
        if str_eq(value, "L") {
            Ok(AttackComplexity::Low)
        } else if str_eq(value, "H") {
            Ok(AttackComplexity::High)
        } else {
            Err(ParseError::IncorrectValue)
        }
    }
}

impl V4Metric for AttackComplexity {
    open spec fn spec_level(self) -> int {
        match self {
            AttackComplexity::Low => 0,
            AttackComplexity::High => 1,
        }
    }

    fn level(&self) -> (r: u8) {
        match self {
            AttackComplexity::Low => 0,
            AttackComplexity::High => 1,
        }
    }
}

/// Privileges Required (`PR`).
#[derive(Clone, Copy, Debug, PartialEq, Eq, Hash, Structural)]
pub enum PrivilegesRequired {
    NoneRequired,
    Low,
    High,
}

impl CvssMetric for PrivilegesRequired {
    open spec fn spec_abbrev() -> Seq<char> {
        "PR"@
    }

    open spec fn spec_token(self) -> Seq<char> {
        match self {
            PrivilegesRequired::NoneRequired => "N"@,
            PrivilegesRequired::Low => "L"@,
            PrivilegesRequired::High => "H"@,
        }
    }

    open spec fn spec_from_str(s: Seq<char>) -> Result<PrivilegesRequired, ParseError> {
        if s == "N"@ {
            Ok(PrivilegesRequired::NoneRequired)
        } else if s == "L"@ {
            Ok(PrivilegesRequired::Low)
        } else if s == "H"@ {
            Ok(PrivilegesRequired::High)
        } else {
            Err(ParseError::IncorrectValue)
        }
    }

    fn abbreviated_form() -> (r: &'static str) {
        "PR"
    }

    fn as_str(&self) -> (r: &'static str) {
        match self {
            PrivilegesRequired::NoneRequired => "N",
            PrivilegesRequired::Low => "L",
            PrivilegesRequired::High => "H",
        }
    }

    fn from_str(value: &str) -> (r: Result<PrivilegesRequired, ParseError>) {
        if str_eq(value, "N") {
            Ok(PrivilegesRequired::NoneRequired)
        } else if str_eq(value, "L") {
            Ok(PrivilegesRequired::Low)
        } else if str_eq(value, "H") {
            Ok(PrivilegesRequired::High)
        } else {
            Err(ParseError::IncorrectValue)
        }
    }
}

impl V4Metric for PrivilegesRequired {
    open spec fn spec_level(self) -> int {
        match self {
            PrivilegesRequired::NoneRequired => 0,
            PrivilegesRequired::Low => 1,
            PrivilegesRequired::High => 2,
        }
    }

    fn level(&self) -> (r: u8) {
        match self {
            PrivilegesRequired::NoneRequired => 0,
            PrivilegesRequired::Low => 1,
            PrivilegesRequired::High => 2,
        }
    }
}

/// User Interaction (`UI`).
#[derive(Clone, Copy, Debug, PartialEq, Eq, Hash, Structural)]
pub enum UserInteraction {
    NoneRequired,
    Required,
}

impl CvssMetric for UserInteraction {
    open spec fn spec_abbrev() -> Seq<char> {
        "UI"@
    }

    open spec fn spec_token(self) -> Seq<char> {
        match self {
            UserInteraction::NoneRequired => "N"@,
            UserInteraction::Required => "R"@,
        }
    }

    open spec fn spec_from_str(s: Seq<char>) -> Result<UserInteraction, ParseError> {
        if s == "N"@ {
            Ok(UserInteraction::NoneRequired)
        } else if s == "R"@ {
            Ok(UserInteraction::Required)
        } else {
            Err(ParseError::IncorrectValue)
        }
    }

    fn abbreviated_form() -> (r: &'static str) {
        "UI"
    }

    fn as_str(&self) -> (r: &'static str) {
        match self {
            UserInteraction::NoneRequired => "N",
            UserInteraction::Required => "R",
        }
    }

    fn from_str(value: &str) -> (r: Result<UserInteraction, ParseError>) {
        if str_eq(value, "N") {
            Ok(UserInteraction::NoneRequired)
        } else if str_eq(value, "R") {
            Ok(UserInteraction::Required)
        } else {
            Err(ParseError::IncorrectValue)
        }
    }
}

/// Scope (`S`).
#[derive(Clone, Copy, Debug, PartialEq, Eq, Hash, Structural)]
pub enum Scope {
    Unchanged,
    Changed,
}

impl CvssMetric for Scope {
    open spec fn spec_abbrev() -> Seq<char> {
        "S"@
    }

    open spec fn spec_token(self) -> Seq<char> {
        match self {
            Scope::Unchanged => "U"@,
            Scope::Changed => "C"@,
        }
    }

    open spec fn spec_from_str(s: Seq<char>) -> Result<Scope, ParseError> {
        if s == "U"@ {
            Ok(Scope::Unchanged)
        } else if s == "C"@ {
            Ok(Scope::Changed)
        } else {
            Err(ParseError::IncorrectValue)
        }
    }

    fn abbreviated_form() -> (r: &'static str) {
        "S"
    }

    fn as_str(&self) -> (r: &'static str) {
        match self {
            Scope::Unchanged => "U",
            Scope::Changed => "C",
        }
    }

    fn from_str(value: &str) -> (r: Result<Scope, ParseError>) {
        if str_eq(value, "U") {
            Ok(Scope::Unchanged)
        } else if str_eq(value, "C") {
            Ok(Scope::Changed)
        } else {
            Err(ParseError::IncorrectValue)
        }
    }
}

/// Confidentiality Impact (`C`).
#[derive(Clone, Copy, Debug, PartialEq, Eq, Hash, Structural)]
pub enum Confidentiality {
    High,
    Low,
    Negligible,
}

impl CvssMetric for Confidentiality {
    open spec fn spec_abbrev() -> Seq<char> {
        "C"@
    }

    open spec fn spec_token(self) -> Seq<char> {
        match self {
            Confidentiality::High => "H"@,
            Confidentiality::Low => "L"@,
            Confidentiality::Negligible => "N"@,
        }
    }

    open spec fn spec_from_str(s: Seq<char>) -> Result<Confidentiality, ParseError> {
        if s == "H"@ {
            Ok(Confidentiality::High)
        } else if s == "L"@ {
            Ok(Confidentiality::Low)
        } else if s == "N"@ {
            Ok(Confidentiality::Negligible)
        } else {
            Err(ParseError::IncorrectValue)
        }
    }

    fn abbreviated_form() -> (r: &'static str) {
        "C"
    }

    fn as_str(&self) -> (r: &'static str) {
        match self {
            Confidentiality::High => "H",
            Confidentiality::Low => "L",
            Confidentiality::Negligible => "N",
        }
    }

    fn from_str(value: &str) -> (r: Result<Confidentiality, ParseError>) {
        if str_eq(value, "H") {
            Ok(Confidentiality::High)
        } else if str_eq(value, "L") {
            Ok(Confidentiality::Low)
        } else if str_eq(value, "N") {
            Ok(Confidentiality::Negligible)
        } else {
            Err(ParseError::IncorrectValue)
        }
    }
}

/// Integrity Impact (`I`).
#[derive(Clone, Copy, Debug, PartialEq, Eq, Hash, Structural)]
pub enum Integrity {
    High,
    Low,
    Negligible,
}

impl CvssMetric for Integrity {
    open spec fn spec_abbrev() -> Seq<char> {
        "I"@
    }

    open spec fn spec_token(self) -> Seq<char> {
        match self {
            Integrity::High => "H"@,
            Integrity::Low => "L"@,
            Integrity::Negligible => "N"@,
        }
    }

    open spec fn spec_from_str(s: Seq<char>) -> Result<Integrity, ParseError> {
        if s == "H"@ {
            Ok(Integrity::High)
        } else if s == "L"@ {
            Ok(Integrity::Low)
        } else if s == "N"@ {
            Ok(Integrity::Negligible)
        } else {
            Err(ParseError::IncorrectValue)
        }
    }

    fn abbreviated_form() -> (r: &'static str) {
        "I"
    }

    fn as_str(&self) -> (r: &'static str) {
        match self {
            Integrity::High => "H",
            Integrity::Low => "L",
            Integrity::Negligible => "N",
        }
    }

    fn from_str(value: &str) -> (r: Result<Integrity, ParseError>) {
        if str_eq(value, "H") {
            Ok(Integrity::High)
        } else if str_eq(value, "L") {
            Ok(Integrity::Low)
        } else if str_eq(value, "N") {
            Ok(Integrity::Negligible)
        } else {
            Err(ParseError::IncorrectValue)
        }
    }
}

/// Availability Impact (`A`).
#[derive(Clone, Copy, Debug, PartialEq, Eq, Hash, Structural)]
pub enum Availability {
    High,
    Low,
    Negligible,
}

impl CvssMetric for Availability {
    open spec fn spec_abbrev() -> Seq<char> {
        "A"@
    }

    open spec fn spec_token(self) -> Seq<char> {
        match self {
            Availability::High => "H"@,
            Availability::Low => "L"@,
            Availability::Negligible => "N"@,
        }
    }

    open spec fn spec_from_str(s: Seq<char>) -> Result<Availability, ParseError> {
        if s == "H"@ {
            Ok(Availability::High)
        } else if s == "L"@ {
            Ok(Availability::Low)
        } else if s == "N"@ {
            Ok(Availability::Negligible)
        } else {
            Err(ParseError::IncorrectValue)
        }
    }

    fn abbreviated_form() -> (r: &'static str) {
        "A"
    }

    fn as_str(&self) -> (r: &'static str) {
        match self {
            Availability::High => "H",
            Availability::Low => "L",
            Availability::Negligible => "N",
        }
    }

    fn from_str(value: &str) -> (r: Result<Availability, ParseError>) {
        if str_eq(value, "H") {
            Ok(Availability::High)
        } else if str_eq(value, "L") {
            Ok(Availability::Low)
        } else if str_eq(value, "N") {
            Ok(Availability::Negligible)
        } else {
            Err(ParseError::IncorrectValue)
        }
    }
}
/// Parsing a value's own wire token yields the value back.
pub proof fn lemma_attack_vector_round_trip(m: AttackVector)
    ensures
        AttackVector::spec_from_str(m.spec_token()) == Ok::<AttackVector, ParseError>(m),
{
    reveal_strlit("N");
    reveal_strlit("A");
    reveal_strlit("L");
    reveal_strlit("P");
    assert("N"@.len() == 1 && "N"@[0] == 'N');
    assert("A"@.len() == 1 && "A"@[0] == 'A');
    assert("L"@.len() == 1 && "L"@[0] == 'L');
    assert("P"@.len() == 1 && "P"@[0] == 'P');
    match m {
        AttackVector::Network => assert(AttackVector::spec_from_str("N"@) == Ok::<
            AttackVector,
            ParseError,
        >(m)),
        AttackVector::Adjacent => assert(AttackVector::spec_from_str("A"@) == Ok::<
            AttackVector,
            ParseError,
        >(m)),
        AttackVector::Local => assert(AttackVector::spec_from_str("L"@) == Ok::<
            AttackVector,
            ParseError,
        >(m)),
        AttackVector::Physical => assert(AttackVector::spec_from_str("P"@) == Ok::<
            AttackVector,
            ParseError,
        >(m)),
    }
}

/// Parsing a value's own wire token yields the value back.
pub proof fn lemma_attack_complexity_round_trip(m: AttackComplexity)
    ensures
        AttackComplexity::spec_from_str(m.spec_token()) == Ok::<AttackComplexity, ParseError>(m),
{
    reveal_strlit("L");
    reveal_strlit("H");
    assert("L"@.len() == 1 && "L"@[0] == 'L');
    assert("H"@.len() == 1 && "H"@[0] == 'H');
    match m {
        AttackComplexity::Low => assert(AttackComplexity::spec_from_str("L"@) == Ok::<
            AttackComplexity,
            ParseError,
        >(m)),
        AttackComplexity::High => assert(AttackComplexity::spec_from_str("H"@) == Ok::<
            AttackComplexity,
            ParseError,
        >(m)),
    }
}

/// Parsing a value's own wire token yields the value back.
pub proof fn lemma_privileges_required_round_trip(m: PrivilegesRequired)
    ensures
        PrivilegesRequired::spec_from_str(m.spec_token()) == Ok::<PrivilegesRequired, ParseError>(m),
{
    reveal_strlit("N");
    reveal_strlit("L");
    reveal_strlit("H");
    assert("N"@.len() == 1 && "N"@[0] == 'N');
    assert("L"@.len() == 1 && "L"@[0] == 'L');
    assert("H"@.len() == 1 && "H"@[0] == 'H');
    match m {
        PrivilegesRequired::NoneRequired => assert(PrivilegesRequired::spec_from_str("N"@) == Ok::<
            PrivilegesRequired,
            ParseError,
        >(m)),
        PrivilegesRequired::Low => assert(PrivilegesRequired::spec_from_str("L"@) == Ok::<
            PrivilegesRequired,
            ParseError,
        >(m)),
        PrivilegesRequired::High => assert(PrivilegesRequired::spec_from_str("H"@) == Ok::<
            PrivilegesRequired,
            ParseError,
        >(m)),
    }
}

/// Parsing a value's own wire token yields the value back.
pub proof fn lemma_user_interaction_round_trip(m: UserInteraction)
    ensures
        UserInteraction::spec_from_str(m.spec_token()) == Ok::<UserInteraction, ParseError>(m),
{
    reveal_strlit("N");
    reveal_strlit("R");
    assert("N"@.len() == 1 && "N"@[0] == 'N');
    assert("R"@.len() == 1 && "R"@[0] == 'R');
    match m {
        UserInteraction::NoneRequired => assert(UserInteraction::spec_from_str("N"@) == Ok::<
            UserInteraction,
            ParseError,
        >(m)),
        UserInteraction::Required => assert(UserInteraction::spec_from_str("R"@) == Ok::<
            UserInteraction,
            ParseError,
        >(m)),
    }
}

/// Parsing a value's own wire token yields the value back.
pub proof fn lemma_scope_round_trip(m: Scope)
    ensures
        Scope::spec_from_str(m.spec_token()) == Ok::<Scope, ParseError>(m),
{
    reveal_strlit("U");
    reveal_strlit("C");
    assert("U"@.len() == 1 && "U"@[0] == 'U');
    assert("C"@.len() == 1 && "C"@[0] == 'C');
    match m {
        Scope::Unchanged => assert(Scope::spec_from_str("U"@) == Ok::<
            Scope,
            ParseError,
        >(m)),
        Scope::Changed => assert(Scope::spec_from_str("C"@) == Ok::<
            Scope,
            ParseError,
        >(m)),
    }
}

/// Parsing a value's own wire token yields the value back.
pub proof fn lemma_confidentiality_round_trip(m: Confidentiality)
    ensures
        Confidentiality::spec_from_str(m.spec_token()) == Ok::<Confidentiality, ParseError>(m),
{
    reveal_strlit("H");
    reveal_strlit("L");
    reveal_strlit("N");
    assert("H"@.len() == 1 && "H"@[0] == 'H');
    assert("L"@.len() == 1 && "L"@[0] == 'L');
    assert("N"@.len() == 1 && "N"@[0] == 'N');
    match m {
        Confidentiality::High => assert(Confidentiality::spec_from_str("H"@) == Ok::<
            Confidentiality,
            ParseError,
        >(m)),
        Confidentiality::Low => assert(Confidentiality::spec_from_str("L"@) == Ok::<
            Confidentiality,
            ParseError,
        >(m)),
        Confidentiality::Negligible => assert(Confidentiality::spec_from_str("N"@) == Ok::<
            Confidentiality,
            ParseError,
        >(m)),
    }
}

/// Parsing a value's own wire token yields the value back.
pub proof fn lemma_integrity_round_trip(m: Integrity)
    ensures
        Integrity::spec_from_str(m.spec_token()) == Ok::<Integrity, ParseError>(m),
{
    reveal_strlit("H");
    reveal_strlit("L");
    reveal_strlit("N");
    assert("H"@.len() == 1 && "H"@[0] == 'H');
    assert("L"@.len() == 1 && "L"@[0] == 'L');
    assert("N"@.len() == 1 && "N"@[0] == 'N');
    match m {
        Integrity::High => assert(Integrity::spec_from_str("H"@) == Ok::<
            Integrity,
            ParseError,
        >(m)),
        Integrity::Low => assert(Integrity::spec_from_str("L"@) == Ok::<
            Integrity,
            ParseError,
        >(m)),
        Integrity::Negligible => assert(Integrity::spec_from_str("N"@) == Ok::<
            Integrity,
            ParseError,
        >(m)),
    }
}

/// Parsing a value's own wire token yields the value back.
pub proof fn lemma_availability_round_trip(m: Availability)
    ensures
        Availability::spec_from_str(m.spec_token()) == Ok::<Availability, ParseError>(m),
{
    reveal_strlit("H");
    reveal_strlit("L");
    reveal_strlit("N");
    assert("H"@.len() == 1 && "H"@[0] == 'H');
    assert("L"@.len() == 1 && "L"@[0] == 'L');
    assert("N"@.len() == 1 && "N"@[0] == 'N');
    match m {
        Availability::High => assert(Availability::spec_from_str("H"@) == Ok::<
            Availability,
            ParseError,
        >(m)),
        Availability::Low => assert(Availability::spec_from_str("L"@) == Ok::<
            Availability,
            ParseError,
        >(m)),
        Availability::Negligible => assert(Availability::spec_from_str("N"@) == Ok::<
            Availability,
            ParseError,
        >(m)),
    }
}

/// The metric name and every wire token are free of the vector and
/// metric delimiters.
pub proof fn lemma_attack_vector_token_chars(m: AttackVector)
    ensures
        AttackVector::spec_abbrev().len() > 0,
        forall|j: int|
            0 <= j < AttackVector::spec_abbrev().len() ==> AttackVector::spec_abbrev()[j] != '/'
                && AttackVector::spec_abbrev()[j] != ':',
        forall|j: int|
            0 <= j < m.spec_token().len() ==> m.spec_token()[j] != '/' && m.spec_token()[j]
                != ':',
{
    reveal_strlit("AV");
    reveal_strlit("N");
    reveal_strlit("A");
    reveal_strlit("L");
    reveal_strlit("P");
    assert("AV"@.len() == 2 && "AV"@[0] == 'A' && "AV"@[1] == 'V');
    assert("N"@.len() == 1 && "N"@[0] == 'N');
    assert("A"@.len() == 1 && "A"@[0] == 'A');
    assert("L"@.len() == 1 && "L"@[0] == 'L');
    assert("P"@.len() == 1 && "P"@[0] == 'P');
}

/// The metric name and every wire token are free of the vector and
/// metric delimiters.
pub proof fn lemma_attack_complexity_token_chars(m: AttackComplexity)
    ensures
        AttackComplexity::spec_abbrev().len() > 0,
        forall|j: int|
            0 <= j < AttackComplexity::spec_abbrev().len() ==> AttackComplexity::spec_abbrev()[j] != '/'
                && AttackComplexity::spec_abbrev()[j] != ':',
        forall|j: int|
            0 <= j < m.spec_token().len() ==> m.spec_token()[j] != '/' && m.spec_token()[j]
                != ':',
{
    reveal_strlit("AC");
    reveal_strlit("L");
    reveal_strlit("H");
    assert("AC"@.len() == 2 && "AC"@[0] == 'A' && "AC"@[1] == 'C');
    assert("L"@.len() == 1 && "L"@[0] == 'L');
    assert("H"@.len() == 1 && "H"@[0] == 'H');
}

/// The metric name and every wire token are free of the vector and
/// metric delimiters.
pub proof fn lemma_privileges_required_token_chars(m: PrivilegesRequired)
    ensures
        PrivilegesRequired::spec_abbrev().len() > 0,
        forall|j: int|
            0 <= j < PrivilegesRequired::spec_abbrev().len() ==> PrivilegesRequired::spec_abbrev()[j] != '/'
                && PrivilegesRequired::spec_abbrev()[j] != ':',
        forall|j: int|
            0 <= j < m.spec_token().len() ==> m.spec_token()[j] != '/' && m.spec_token()[j]
                != ':',
{
    reveal_strlit("PR");
    reveal_strlit("N");
    reveal_strlit("L");
    reveal_strlit("H");
    assert("PR"@.len() == 2 && "PR"@[0] == 'P' && "PR"@[1] == 'R');
    assert("N"@.len() == 1 && "N"@[0] == 'N');
    assert("L"@.len() == 1 && "L"@[0] == 'L');
    assert("H"@.len() == 1 && "H"@[0] == 'H');
}

} // verus!
