//! CVSS v4 base metrics.

use vstd::prelude::*;

use crate::common::str_eq;
use crate::common::CvssMetric;
use crate::common::Optional;
use crate::common::ParseError;
use crate::v4::V4Metric;

pub use crate::v3::base::AttackComplexity;
pub use crate::v3::base::AttackVector;
pub use crate::v3::base::PrivilegesRequired;

verus! {

/// Attack Requirements (`AT`).
#[derive(Clone, Copy, Debug, PartialEq, Eq, Hash, Structural)]
pub enum AttackRequirements {
    Absent,
    Present,
}

impl CvssMetric for AttackRequirements {
    open spec fn spec_abbrev() -> Seq<char> {
        "AT"@
    }

    open spec fn spec_token(self) -> Seq<char> {
        match self {
            AttackRequirements::Absent => "N"@,
            AttackRequirements::Present => "P"@,
        }
    }

    open spec fn spec_from_str(s: Seq<char>) -> Result<AttackRequirements, ParseError> {
        if s == "N"@ {
            Ok(AttackRequirements::Absent)
        } else if s == "P"@ {
            Ok(AttackRequirements::Present)
        } else {
            Err(ParseError::IncorrectValue)
        }
    }

    fn abbreviated_form() -> (r: &'static str) {
        "AT"
    }

    fn as_str(&self) -> (r: &'static str) {
        match self {
            AttackRequirements::Absent => "N",
            AttackRequirements::Present => "P",
        }
    }

    fn from_str(value: &str) -> (r: Result<AttackRequirements, ParseError>) {
        if str_eq(value, "N") {
            Ok(AttackRequirements::Absent)
        } else if str_eq(value, "P") {
            Ok(AttackRequirements::Present)
        } else {
            Err(ParseError::IncorrectValue)
        }
    }
}

impl V4Metric for AttackRequirements {
    open spec fn spec_level(self) -> int {
        match self {
            AttackRequirements::Absent => 0,
            AttackRequirements::Present => 1,
        }
    }

    fn level(&self) -> (r: u8) {
        match self {
            AttackRequirements::Absent => 0,
            AttackRequirements::Present => 1,
        }
    }
}

/// User Interaction (`UI`).
#[derive(Clone, Copy, Debug, PartialEq, Eq, Hash, Structural)]
pub enum UserInteraction {
    NoneRequired,
    Passive,
    Active,
}

impl CvssMetric for UserInteraction {
    open spec fn spec_abbrev() -> Seq<char> {
        "UI"@
    }

    open spec fn spec_token(self) -> Seq<char> {
        match self {
            UserInteraction::NoneRequired => "N"@,
            UserInteraction::Passive => "P"@,
            UserInteraction::Active => "A"@,
        }
    }

    open spec fn spec_from_str(s: Seq<char>) -> Result<UserInteraction, ParseError> {
        if s == "N"@ {
            Ok(UserInteraction::NoneRequired)
        } else if s == "P"@ {
            Ok(UserInteraction::Passive)
        } else if s == "A"@ {
            Ok(UserInteraction::Active)
        } else {
            Err(ParseError::IncorrectValue)
        }
    }

    fn abbreviated_form() -> (r: &'static str) {
        "UI"
    }

    fn as_str(&self) -> (r: &'static str) {
        match self {
            UserInteraction::NoneRequired => "N",
            UserInteraction::Passive => "P",
            UserInteraction::Active => "A",
        }
    }

    fn from_str(value: &str) -> (r: Result<UserInteraction, ParseError>) {
        if str_eq(value, "N") {
            Ok(UserInteraction::NoneRequired)
        } else if str_eq(value, "P") {
            Ok(UserInteraction::Passive)
        } else if str_eq(value, "A") {
            Ok(UserInteraction::Active)
        } else {
            Err(ParseError::IncorrectValue)
        }
    }
}

impl V4Metric for UserInteraction {
    open spec fn spec_level(self) -> int {
        match self {
            UserInteraction::NoneRequired => 0,
            UserInteraction::Passive => 1,
            UserInteraction::Active => 2,
        }
    }

    fn level(&self) -> (r: u8) {
        match self {
            UserInteraction::NoneRequired => 0,
            UserInteraction::Passive => 1,
            UserInteraction::Active => 2,
        }
    }
}

/// Vulnerable System Confidentiality Impact (`VC`).
#[derive(Clone, Copy, Debug, PartialEq, Eq, Hash, Structural)]
pub enum VulnerableSystemConfidentiality {
    High,
    Low,
    Negligible,
}

impl CvssMetric for VulnerableSystemConfidentiality {
    open spec fn spec_abbrev() -> Seq<char> {
        "VC"@
    }

    open spec fn spec_token(self) -> Seq<char> {
        match self {
            VulnerableSystemConfidentiality::High => "H"@,
            VulnerableSystemConfidentiality::Low => "L"@,
            VulnerableSystemConfidentiality::Negligible => "N"@,
        }
    }

    open spec fn spec_from_str(s: Seq<char>) -> Result<VulnerableSystemConfidentiality, ParseError> {
        if s == "H"@ {
            Ok(VulnerableSystemConfidentiality::High)
        } else if s == "L"@ {
            Ok(VulnerableSystemConfidentiality::Low)
        } else if s == "N"@ {
            Ok(VulnerableSystemConfidentiality::Negligible)
        } else {
            Err(ParseError::IncorrectValue)
        }
    }

    fn abbreviated_form() -> (r: &'static str) {
        "VC"
    }

    fn as_str(&self) -> (r: &'static str) {
        match self {
            VulnerableSystemConfidentiality::High => "H",
            VulnerableSystemConfidentiality::Low => "L",
            VulnerableSystemConfidentiality::Negligible => "N",
        }
    }

    fn from_str(value: &str) -> (r: Result<VulnerableSystemConfidentiality, ParseError>) {
        if str_eq(value, "H") {
            Ok(VulnerableSystemConfidentiality::High)
        } else if str_eq(value, "L") {
            Ok(VulnerableSystemConfidentiality::Low)
        } else if str_eq(value, "N") {
            Ok(VulnerableSystemConfidentiality::Negligible)
        } else {
            Err(ParseError::IncorrectValue)
        }
    }
}

impl V4Metric for VulnerableSystemConfidentiality {
    open spec fn spec_level(self) -> int {
        match self {
            VulnerableSystemConfidentiality::High => 0,
            VulnerableSystemConfidentiality::Low => 1,
            VulnerableSystemConfidentiality::Negligible => 2,
        }
    }

    fn level(&self) -> (r: u8) {
        match self {
            VulnerableSystemConfidentiality::High => 0,
            VulnerableSystemConfidentiality::Low => 1,
            VulnerableSystemConfidentiality::Negligible => 2,
        }
    }
}

/// Vulnerable System Integrity Impact (`VI`).
#[derive(Clone, Copy, Debug, PartialEq, Eq, Hash, Structural)]
pub enum VulnerableSystemIntegrity {
    High,
    Low,
    Negligible,
}

impl CvssMetric for VulnerableSystemIntegrity {
    open spec fn spec_abbrev() -> Seq<char> {
        "VI"@
    }

    open spec fn spec_token(self) -> Seq<char> {
        match self {
            VulnerableSystemIntegrity::High => "H"@,
            VulnerableSystemIntegrity::Low => "L"@,
            VulnerableSystemIntegrity::Negligible => "N"@,
        }
    }

    open spec fn spec_from_str(s: Seq<char>) -> Result<VulnerableSystemIntegrity, ParseError> {
        if s == "H"@ {
            Ok(VulnerableSystemIntegrity::High)
        } else if s == "L"@ {
            Ok(VulnerableSystemIntegrity::Low)
        } else if s == "N"@ {
            Ok(VulnerableSystemIntegrity::Negligible)
        } else {
            Err(ParseError::IncorrectValue)
        }
    }

    fn abbreviated_form() -> (r: &'static str) {
        "VI"
    }

    fn as_str(&self) -> (r: &'static str) {
        match self {
            VulnerableSystemIntegrity::High => "H",
            VulnerableSystemIntegrity::Low => "L",
            VulnerableSystemIntegrity::Negligible => "N",
        }
    }

    fn from_str(value: &str) -> (r: Result<VulnerableSystemIntegrity, ParseError>) {
        if str_eq(value, "H") {
            Ok(VulnerableSystemIntegrity::High)
        } else if str_eq(value, "L") {
            Ok(VulnerableSystemIntegrity::Low)
        } else if str_eq(value, "N") {
            Ok(VulnerableSystemIntegrity::Negligible)
        } else {
            Err(ParseError::IncorrectValue)
        }
    }
}

impl V4Metric for VulnerableSystemIntegrity {
    open spec fn spec_level(self) -> int {
        match self {
            VulnerableSystemIntegrity::High => 0,
            VulnerableSystemIntegrity::Low => 1,
            VulnerableSystemIntegrity::Negligible => 2,
        }
    }

    fn level(&self) -> (r: u8) {
        match self {
            VulnerableSystemIntegrity::High => 0,
            VulnerableSystemIntegrity::Low => 1,
            VulnerableSystemIntegrity::Negligible => 2,
        }
    }
}

/// Vulnerable System Availability Impact (`VA`).
#[derive(Clone, Copy, Debug, PartialEq, Eq, Hash, Structural)]
pub enum VulnerableSystemAvailability {
    High,
    Low,
    Negligible,
}

impl CvssMetric for VulnerableSystemAvailability {
    open spec fn spec_abbrev() -> Seq<char> {
        "VA"@
    }

    open spec fn spec_token(self) -> Seq<char> {
        match self {
            VulnerableSystemAvailability::High => "H"@,
            VulnerableSystemAvailability::Low => "L"@,
            VulnerableSystemAvailability::Negligible => "N"@,
        }
    }

    open spec fn spec_from_str(s: Seq<char>) -> Result<VulnerableSystemAvailability, ParseError> {
        if s == "H"@ {
            Ok(VulnerableSystemAvailability::High)
        } else if s == "L"@ {
            Ok(VulnerableSystemAvailability::Low)
        } else if s == "N"@ {
            Ok(VulnerableSystemAvailability::Negligible)
        } else {
            Err(ParseError::IncorrectValue)
        }
    }

    fn abbreviated_form() -> (r: &'static str) {
        "VA"
    }

    fn as_str(&self) -> (r: &'static str) {
        match self {
            VulnerableSystemAvailability::High => "H",
            VulnerableSystemAvailability::Low => "L",
            VulnerableSystemAvailability::Negligible => "N",
        }
    }

    fn from_str(value: &str) -> (r: Result<VulnerableSystemAvailability, ParseError>) {
        if str_eq(value, "H") {
            Ok(VulnerableSystemAvailability::High)
        } else if str_eq(value, "L") {
            Ok(VulnerableSystemAvailability::Low)
        } else if str_eq(value, "N") {
            Ok(VulnerableSystemAvailability::Negligible)
        } else {
            Err(ParseError::IncorrectValue)
        }
    }
}

impl V4Metric for VulnerableSystemAvailability {
    open spec fn spec_level(self) -> int {
        match self {
            VulnerableSystemAvailability::High => 0,
            VulnerableSystemAvailability::Low => 1,
            VulnerableSystemAvailability::Negligible => 2,
        }
    }

    fn level(&self) -> (r: u8) {
        match self {
            VulnerableSystemAvailability::High => 0,
            VulnerableSystemAvailability::Low => 1,
            VulnerableSystemAvailability::Negligible => 2,
        }
    }
}

/// Subsequent System Confidentiality Impact (`SC`).
#[derive(Clone, Copy, Debug, PartialEq, Eq, Hash, Structural)]
pub enum SubsequentSystemConfidentiality {
    High,
    Low,
    Negligible,
}

impl CvssMetric for SubsequentSystemConfidentiality {
    open spec fn spec_abbrev() -> Seq<char> {
        "SC"@
    }

    open spec fn spec_token(self) -> Seq<char> {
        match self {
            SubsequentSystemConfidentiality::High => "H"@,
            SubsequentSystemConfidentiality::Low => "L"@,
            SubsequentSystemConfidentiality::Negligible => "N"@,
        }
    }

    open spec fn spec_from_str(s: Seq<char>) -> Result<SubsequentSystemConfidentiality, ParseError> {
        if s == "H"@ {
            Ok(SubsequentSystemConfidentiality::High)
        } else if s == "L"@ {
            Ok(SubsequentSystemConfidentiality::Low)
        } else if s == "N"@ {
            Ok(SubsequentSystemConfidentiality::Negligible)
        } else {
            Err(ParseError::IncorrectValue)
        }
    }

    fn abbreviated_form() -> (r: &'static str) {
        "SC"
    }

    fn as_str(&self) -> (r: &'static str) {
        match self {
            SubsequentSystemConfidentiality::High => "H",
            SubsequentSystemConfidentiality::Low => "L",
            SubsequentSystemConfidentiality::Negligible => "N",
        }
    }

    fn from_str(value: &str) -> (r: Result<SubsequentSystemConfidentiality, ParseError>) {
        if str_eq(value, "H") {
            Ok(SubsequentSystemConfidentiality::High)
        } else if str_eq(value, "L") {
            Ok(SubsequentSystemConfidentiality::Low)
        } else if str_eq(value, "N") {
            Ok(SubsequentSystemConfidentiality::Negligible)
        } else {
            Err(ParseError::IncorrectValue)
        }
    }
}

impl V4Metric for SubsequentSystemConfidentiality {
    open spec fn spec_level(self) -> int {
        match self {
            SubsequentSystemConfidentiality::High => 1,
            SubsequentSystemConfidentiality::Low => 2,
            SubsequentSystemConfidentiality::Negligible => 3,
        }
    }

    fn level(&self) -> (r: u8) {
        match self {
            SubsequentSystemConfidentiality::High => 1,
            SubsequentSystemConfidentiality::Low => 2,
            SubsequentSystemConfidentiality::Negligible => 3,
        }
    }
}

/// Subsequent System Integrity Impact (`SI`).
#[derive(Clone, Copy, Debug, PartialEq, Eq, Hash, Structural)]
pub enum SubsequentSystemIntegrity {
    High,
    Low,
    Negligible,
}

impl CvssMetric for SubsequentSystemIntegrity {
    open spec fn spec_abbrev() -> Seq<char> {
        "SI"@
    }

    open spec fn spec_token(self) -> Seq<char> {
        match self {
            SubsequentSystemIntegrity::High => "H"@,
            SubsequentSystemIntegrity::Low => "L"@,
            SubsequentSystemIntegrity::Negligible => "N"@,
        }
    }

    open spec fn spec_from_str(s: Seq<char>) -> Result<SubsequentSystemIntegrity, ParseError> {
        if s == "H"@ {
            Ok(SubsequentSystemIntegrity::High)
        } else if s == "L"@ {
            Ok(SubsequentSystemIntegrity::Low)
        } else if s == "N"@ {
            Ok(SubsequentSystemIntegrity::Negligible)
        } else {
            Err(ParseError::IncorrectValue)
        }
    }

    fn abbreviated_form() -> (r: &'static str) {
        "SI"
    }

    fn as_str(&self) -> (r: &'static str) {
        match self {
            SubsequentSystemIntegrity::High => "H",
            SubsequentSystemIntegrity::Low => "L",
            SubsequentSystemIntegrity::Negligible => "N",
        }
    }

    fn from_str(value: &str) -> (r: Result<SubsequentSystemIntegrity, ParseError>) {
        if str_eq(value, "H") {
            Ok(SubsequentSystemIntegrity::High)
        } else if str_eq(value, "L") {
            Ok(SubsequentSystemIntegrity::Low)
        } else if str_eq(value, "N") {
            Ok(SubsequentSystemIntegrity::Negligible)
        } else {
            Err(ParseError::IncorrectValue)
        }
    }
}

impl V4Metric for SubsequentSystemIntegrity {
    open spec fn spec_level(self) -> int {
        match self {
            SubsequentSystemIntegrity::High => 1,
            SubsequentSystemIntegrity::Low => 2,
            SubsequentSystemIntegrity::Negligible => 3,
        }
    }

    fn level(&self) -> (r: u8) {
        match self {
            SubsequentSystemIntegrity::High => 1,
            SubsequentSystemIntegrity::Low => 2,
            SubsequentSystemIntegrity::Negligible => 3,
        }
    }
}

/// Subsequent System Availability Impact (`SA`).
#[derive(Clone, Copy, Debug, PartialEq, Eq, Hash, Structural)]
pub enum SubsequentSystemAvailability {
    High,
    Low,
    Negligible,
}

impl CvssMetric for SubsequentSystemAvailability {
    open spec fn spec_abbrev() -> Seq<char> {
        "SA"@
    }

    open spec fn spec_token(self) -> Seq<char> {
        match self {
            SubsequentSystemAvailability::High => "H"@,
            SubsequentSystemAvailability::Low => "L"@,
            SubsequentSystemAvailability::Negligible => "N"@,
        }
    }

    open spec fn spec_from_str(s: Seq<char>) -> Result<SubsequentSystemAvailability, ParseError> {
        if s == "H"@ {
            Ok(SubsequentSystemAvailability::High)
        } else if s == "L"@ {
            Ok(SubsequentSystemAvailability::Low)
        } else if s == "N"@ {
            Ok(SubsequentSystemAvailability::Negligible)
        } else {
            Err(ParseError::IncorrectValue)
        }
    }

    fn abbreviated_form() -> (r: &'static str) {
        "SA"
    }

    fn as_str(&self) -> (r: &'static str) {
        match self {
            SubsequentSystemAvailability::High => "H",
            SubsequentSystemAvailability::Low => "L",
            SubsequentSystemAvailability::Negligible => "N",
        }
    }

    fn from_str(value: &str) -> (r: Result<SubsequentSystemAvailability, ParseError>) {
        if str_eq(value, "H") {
            Ok(SubsequentSystemAvailability::High)
        } else if str_eq(value, "L") {
            Ok(SubsequentSystemAvailability::Low)
        } else if str_eq(value, "N") {
            Ok(SubsequentSystemAvailability::Negligible)
        } else {
            Err(ParseError::IncorrectValue)
        }
    }
}

impl V4Metric for SubsequentSystemAvailability {
    open spec fn spec_level(self) -> int {
        match self {
            SubsequentSystemAvailability::High => 1,
            SubsequentSystemAvailability::Low => 2,
            SubsequentSystemAvailability::Negligible => 3,
        }
    }

    fn level(&self) -> (r: u8) {
        match self {
            SubsequentSystemAvailability::High => 1,
            SubsequentSystemAvailability::Low => 2,
            SubsequentSystemAvailability::Negligible => 3,
        }
    }
}
/// Parsing a value's own wire token yields the value back.
pub proof fn lemma_attack_requirements_round_trip(m: AttackRequirements)
    ensures
        AttackRequirements::spec_from_str(m.spec_token()) == Ok::<AttackRequirements, ParseError>(m),
{
    reveal_strlit("N");
    reveal_strlit("P");
    assert("N"@.len() == 1 && "N"@[0] == 'N');
    assert("P"@.len() == 1 && "P"@[0] == 'P');
    match m {
        AttackRequirements::Absent => assert(AttackRequirements::spec_from_str("N"@) == Ok::<
            AttackRequirements,
            ParseError,
        >(m)),
        AttackRequirements::Present => assert(AttackRequirements::spec_from_str("P"@) == Ok::<
            AttackRequirements,
            ParseError,
        >(m)),
    }
}

/// Parsing a value's own wire token yields the value back.
pub proof fn lemma_user_interaction_round_trip(m: UserInteraction)
    ensures
        UserInteraction::spec_from_str(m.spec_token()) == Ok::<UserInteraction, ParseError>(m),
{
    reveal_strlit("N");
    reveal_strlit("P");
    reveal_strlit("A");
    assert("N"@.len() == 1 && "N"@[0] == 'N');
    assert("P"@.len() == 1 && "P"@[0] == 'P');
    assert("A"@.len() == 1 && "A"@[0] == 'A');
    match m {
        UserInteraction::NoneRequired => assert(UserInteraction::spec_from_str("N"@) == Ok::<
            UserInteraction,
            ParseError,
        >(m)),
        UserInteraction::Passive => assert(UserInteraction::spec_from_str("P"@) == Ok::<
            UserInteraction,
            ParseError,
        >(m)),
        UserInteraction::Active => assert(UserInteraction::spec_from_str("A"@) == Ok::<
            UserInteraction,
            ParseError,
        >(m)),
    }
}

/// Parsing a value's own wire token yields the value back.
pub proof fn lemma_vulnerable_system_confidentiality_round_trip(m: VulnerableSystemConfidentiality)
    ensures
        VulnerableSystemConfidentiality::spec_from_str(m.spec_token()) == Ok::<VulnerableSystemConfidentiality, ParseError>(m),
{
    reveal_strlit("H");
    reveal_strlit("L");
    reveal_strlit("N");
    assert("H"@.len() == 1 && "H"@[0] == 'H');
    assert("L"@.len() == 1 && "L"@[0] == 'L');
    assert("N"@.len() == 1 && "N"@[0] == 'N');
    match m {
        VulnerableSystemConfidentiality::High => assert(VulnerableSystemConfidentiality::spec_from_str("H"@) == Ok::<
            VulnerableSystemConfidentiality,
            ParseError,
        >(m)),
        VulnerableSystemConfidentiality::Low => assert(VulnerableSystemConfidentiality::spec_from_str("L"@) == Ok::<
            VulnerableSystemConfidentiality,
            ParseError,
        >(m)),
        VulnerableSystemConfidentiality::Negligible => assert(VulnerableSystemConfidentiality::spec_from_str("N"@) == Ok::<
            VulnerableSystemConfidentiality,
            ParseError,
        >(m)),
    }
}

/// Parsing a value's own wire token yields the value back.
pub proof fn lemma_vulnerable_system_integrity_round_trip(m: VulnerableSystemIntegrity)
    ensures
        VulnerableSystemIntegrity::spec_from_str(m.spec_token()) == Ok::<VulnerableSystemIntegrity, ParseError>(m),
{
    reveal_strlit("H");
    reveal_strlit("L");
    reveal_strlit("N");
    assert("H"@.len() == 1 && "H"@[0] == 'H');
    assert("L"@.len() == 1 && "L"@[0] == 'L');
    assert("N"@.len() == 1 && "N"@[0] == 'N');
    match m {
        VulnerableSystemIntegrity::High => assert(VulnerableSystemIntegrity::spec_from_str("H"@) == Ok::<
            VulnerableSystemIntegrity,
            ParseError,
        >(m)),
        VulnerableSystemIntegrity::Low => assert(VulnerableSystemIntegrity::spec_from_str("L"@) == Ok::<
            VulnerableSystemIntegrity,
            ParseError,
        >(m)),
        VulnerableSystemIntegrity::Negligible => assert(VulnerableSystemIntegrity::spec_from_str("N"@) == Ok::<
            VulnerableSystemIntegrity,
            ParseError,
        >(m)),
    }
}

/// Parsing a value's own wire token yields the value back.
pub proof fn lemma_vulnerable_system_availability_round_trip(m: VulnerableSystemAvailability)
    ensures
        VulnerableSystemAvailability::spec_from_str(m.spec_token()) == Ok::<VulnerableSystemAvailability, ParseError>(m),
{
    reveal_strlit("H");
    reveal_strlit("L");
    reveal_strlit("N");
    assert("H"@.len() == 1 && "H"@[0] == 'H');
    assert("L"@.len() == 1 && "L"@[0] == 'L');
    assert("N"@.len() == 1 && "N"@[0] == 'N');
    match m {
        VulnerableSystemAvailability::High => assert(VulnerableSystemAvailability::spec_from_str("H"@) == Ok::<
            VulnerableSystemAvailability,
            ParseError,
        >(m)),
        VulnerableSystemAvailability::Low => assert(VulnerableSystemAvailability::spec_from_str("L"@) == Ok::<
            VulnerableSystemAvailability,
            ParseError,
        >(m)),
        VulnerableSystemAvailability::Negligible => assert(VulnerableSystemAvailability::spec_from_str("N"@) == Ok::<
            VulnerableSystemAvailability,
            ParseError,
        >(m)),
    }
}

/// Parsing a value's own wire token yields the value back.
pub proof fn lemma_subsequent_system_confidentiality_round_trip(m: SubsequentSystemConfidentiality)
    ensures
        SubsequentSystemConfidentiality::spec_from_str(m.spec_token()) == Ok::<SubsequentSystemConfidentiality, ParseError>(m),
{
    reveal_strlit("H");
    reveal_strlit("L");
    reveal_strlit("N");
    assert("H"@.len() == 1 && "H"@[0] == 'H');
    assert("L"@.len() == 1 && "L"@[0] == 'L');
    assert("N"@.len() == 1 && "N"@[0] == 'N');
    match m {
        SubsequentSystemConfidentiality::High => assert(SubsequentSystemConfidentiality::spec_from_str("H"@) == Ok::<
            SubsequentSystemConfidentiality,
            ParseError,
        >(m)),
        SubsequentSystemConfidentiality::Low => assert(SubsequentSystemConfidentiality::spec_from_str("L"@) == Ok::<
            SubsequentSystemConfidentiality,
            ParseError,
        >(m)),
        SubsequentSystemConfidentiality::Negligible => assert(SubsequentSystemConfidentiality::spec_from_str("N"@) == Ok::<
            SubsequentSystemConfidentiality,
            ParseError,
        >(m)),
    }
}

/// Parsing a value's own wire token yields the value back.
pub proof fn lemma_subsequent_system_integrity_round_trip(m: SubsequentSystemIntegrity)
    ensures
        SubsequentSystemIntegrity::spec_from_str(m.spec_token()) == Ok::<SubsequentSystemIntegrity, ParseError>(m),
{
    reveal_strlit("H");
    reveal_strlit("L");
    reveal_strlit("N");
    assert("H"@.len() == 1 && "H"@[0] == 'H');
    assert("L"@.len() == 1 && "L"@[0] == 'L');
    assert("N"@.len() == 1 && "N"@[0] == 'N');
    match m {
        SubsequentSystemIntegrity::High => assert(SubsequentSystemIntegrity::spec_from_str("H"@) == Ok::<
            SubsequentSystemIntegrity,
            ParseError,
        >(m)),
        SubsequentSystemIntegrity::Low => assert(SubsequentSystemIntegrity::spec_from_str("L"@) == Ok::<
            SubsequentSystemIntegrity,
            ParseError,
        >(m)),
        SubsequentSystemIntegrity::Negligible => assert(SubsequentSystemIntegrity::spec_from_str("N"@) == Ok::<
            SubsequentSystemIntegrity,
            ParseError,
        >(m)),
    }
}

/// Parsing a value's own wire token yields the value back.
pub proof fn lemma_subsequent_system_availability_round_trip(m: SubsequentSystemAvailability)
    ensures
        SubsequentSystemAvailability::spec_from_str(m.spec_token()) == Ok::<SubsequentSystemAvailability, ParseError>(m),
{
    reveal_strlit("H");
    reveal_strlit("L");
    reveal_strlit("N");
    assert("H"@.len() == 1 && "H"@[0] == 'H');
    assert("L"@.len() == 1 && "L"@[0] == 'L');
    assert("N"@.len() == 1 && "N"@[0] == 'N');
    match m {
        SubsequentSystemAvailability::High => assert(SubsequentSystemAvailability::spec_from_str("H"@) == Ok::<
            SubsequentSystemAvailability,
            ParseError,
        >(m)),
        SubsequentSystemAvailability::Low => assert(SubsequentSystemAvailability::spec_from_str("L"@) == Ok::<
            SubsequentSystemAvailability,
            ParseError,
        >(m)),
        SubsequentSystemAvailability::Negligible => assert(SubsequentSystemAvailability::spec_from_str("N"@) == Ok::<
            SubsequentSystemAvailability,
            ParseError,
        >(m)),
    }
}

/// The metric name and every wire token are free of the vector and
/// metric delimiters.
pub proof fn lemma_attack_requirements_token_chars(m: AttackRequirements)
    ensures
        AttackRequirements::spec_abbrev().len() > 0,
        forall|j: int|
            0 <= j < AttackRequirements::spec_abbrev().len() ==> AttackRequirements::spec_abbrev()[j] != '/'
                && AttackRequirements::spec_abbrev()[j] != ':',
        forall|j: int|
            0 <= j < m.spec_token().len() ==> m.spec_token()[j] != '/' && m.spec_token()[j]
                != ':',
{
    reveal_strlit("AT");
    reveal_strlit("N");
    reveal_strlit("P");
    assert("AT"@.len() == 2 && "AT"@[0] == 'A' && "AT"@[1] == 'T');
    assert("N"@.len() == 1 && "N"@[0] == 'N');
    assert("P"@.len() == 1 && "P"@[0] == 'P');
}

/// The metric name and every wire token are free of the vector and
/// metric delimiters.
pub proof fn lemma_user_interaction_token_chars(m: UserInteraction)
    ensures
        UserInteraction::spec_abbrev().len() > 0,
        forall|j: int|
            0 <= j < UserInteraction::spec_abbrev().len() ==> UserInteraction::spec_abbrev()[j] != '/'
                && UserInteraction::spec_abbrev()[j] != ':',
        forall|j: int|
            0 <= j < m.spec_token().len() ==> m.spec_token()[j] != '/' && m.spec_token()[j]
                != ':',
{
    reveal_strlit("UI");
    reveal_strlit("N");
    reveal_strlit("P");
    reveal_strlit("A");
    assert("UI"@.len() == 2 && "UI"@[0] == 'U' && "UI"@[1] == 'I');
    assert("N"@.len() == 1 && "N"@[0] == 'N');
    assert("P"@.len() == 1 && "P"@[0] == 'P');
    assert("A"@.len() == 1 && "A"@[0] == 'A');
}

/// The metric name and every wire token are free of the vector and
/// metric delimiters.
pub proof fn lemma_vulnerable_system_confidentiality_token_chars(m: VulnerableSystemConfidentiality)
    ensures
        VulnerableSystemConfidentiality::spec_abbrev().len() > 0,
        forall|j: int|
            0 <= j < VulnerableSystemConfidentiality::spec_abbrev().len() ==> VulnerableSystemConfidentiality::spec_abbrev()[j] != '/'
                && VulnerableSystemConfidentiality::spec_abbrev()[j] != ':',
        forall|j: int|
            0 <= j < m.spec_token().len() ==> m.spec_token()[j] != '/' && m.spec_token()[j]
                != ':',
{
    reveal_strlit("VC");
    reveal_strlit("H");
    reveal_strlit("L");
    reveal_strlit("N");
    assert("VC"@.len() == 2 && "VC"@[0] == 'V' && "VC"@[1] == 'C');
    assert("H"@.len() == 1 && "H"@[0] == 'H');
    assert("L"@.len() == 1 && "L"@[0] == 'L');
    assert("N"@.len() == 1 && "N"@[0] == 'N');
}

/// The metric name and every wire token are free of the vector and
/// metric delimiters.
pub proof fn lemma_vulnerable_system_integrity_token_chars(m: VulnerableSystemIntegrity)
    ensures
        VulnerableSystemIntegrity::spec_abbrev().len() > 0,
        forall|j: int|
            0 <= j < VulnerableSystemIntegrity::spec_abbrev().len() ==> VulnerableSystemIntegrity::spec_abbrev()[j] != '/'
                && VulnerableSystemIntegrity::spec_abbrev()[j] != ':',
        forall|j: int|
            0 <= j < m.spec_token().len() ==> m.spec_token()[j] != '/' && m.spec_token()[j]
                != ':',
{
    reveal_strlit("VI");
    reveal_strlit("H");
    reveal_strlit("L");
    reveal_strlit("N");
    assert("VI"@.len() == 2 && "VI"@[0] == 'V' && "VI"@[1] == 'I');
    assert("H"@.len() == 1 && "H"@[0] == 'H');
    assert("L"@.len() == 1 && "L"@[0] == 'L');
    assert("N"@.len() == 1 && "N"@[0] == 'N');
}

/// The metric name and every wire token are free of the vector and
/// metric delimiters.
pub proof fn lemma_vulnerable_system_availability_token_chars(m: VulnerableSystemAvailability)
    ensures
        VulnerableSystemAvailability::spec_abbrev().len() > 0,
        forall|j: int|
            0 <= j < VulnerableSystemAvailability::spec_abbrev().len() ==> VulnerableSystemAvailability::spec_abbrev()[j] != '/'
                && VulnerableSystemAvailability::spec_abbrev()[j] != ':',
        forall|j: int|
            0 <= j < m.spec_token().len() ==> m.spec_token()[j] != '/' && m.spec_token()[j]
                != ':',
{
    reveal_strlit("VA");
    reveal_strlit("H");
    reveal_strlit("L");
    reveal_strlit("N");
    assert("VA"@.len() == 2 && "VA"@[0] == 'V' && "VA"@[1] == 'A');
    assert("H"@.len() == 1 && "H"@[0] == 'H');
    assert("L"@.len() == 1 && "L"@[0] == 'L');
    assert("N"@.len() == 1 && "N"@[0] == 'N');
}

/// The metric name and every wire token are free of the vector and
/// metric delimiters.
pub proof fn lemma_subsequent_system_confidentiality_token_chars(m: SubsequentSystemConfidentiality)
    ensures
        SubsequentSystemConfidentiality::spec_abbrev().len() > 0,
        forall|j: int|
            0 <= j < SubsequentSystemConfidentiality::spec_abbrev().len() ==> SubsequentSystemConfidentiality::spec_abbrev()[j] != '/'
                && SubsequentSystemConfidentiality::spec_abbrev()[j] != ':',
        forall|j: int|
            0 <= j < m.spec_token().len() ==> m.spec_token()[j] != '/' && m.spec_token()[j]
                != ':',
{
    reveal_strlit("SC");
    reveal_strlit("H");
    reveal_strlit("L");
    reveal_strlit("N");
    assert("SC"@.len() == 2 && "SC"@[0] == 'S' && "SC"@[1] == 'C');
    assert("H"@.len() == 1 && "H"@[0] == 'H');
    assert("L"@.len() == 1 && "L"@[0] == 'L');
    assert("N"@.len() == 1 && "N"@[0] == 'N');
}

/// The metric name and every wire token are free of the vector and
/// metric delimiters.
pub proof fn lemma_subsequent_system_integrity_token_chars(m: SubsequentSystemIntegrity)
    ensures
        SubsequentSystemIntegrity::spec_abbrev().len() > 0,
        forall|j: int|
            0 <= j < SubsequentSystemIntegrity::spec_abbrev().len() ==> SubsequentSystemIntegrity::spec_abbrev()[j] != '/'
                && SubsequentSystemIntegrity::spec_abbrev()[j] != ':',
        forall|j: int|
            0 <= j < m.spec_token().len() ==> m.spec_token()[j] != '/' && m.spec_token()[j]
                != ':',
{
    reveal_strlit("SI");
    reveal_strlit("H");
    reveal_strlit("L");
    reveal_strlit("N");
    assert("SI"@.len() == 2 && "SI"@[0] == 'S' && "SI"@[1] == 'I');
    assert("H"@.len() == 1 && "H"@[0] == 'H');
    assert("L"@.len() == 1 && "L"@[0] == 'L');
    assert("N"@.len() == 1 && "N"@[0] == 'N');
}

/// The metric name and every wire token are free of the vector and
/// metric delimiters.
pub proof fn lemma_subsequent_system_availability_token_chars(m: SubsequentSystemAvailability)
    ensures
        SubsequentSystemAvailability::spec_abbrev().len() > 0,
        forall|j: int|
            0 <= j < SubsequentSystemAvailability::spec_abbrev().len() ==> SubsequentSystemAvailability::spec_abbrev()[j] != '/'
                && SubsequentSystemAvailability::spec_abbrev()[j] != ':',
        forall|j: int|
            0 <= j < m.spec_token().len() ==> m.spec_token()[j] != '/' && m.spec_token()[j]
                != ':',
{
    reveal_strlit("SA");
    reveal_strlit("H");
    reveal_strlit("L");
    reveal_strlit("N");
    assert("SA"@.len() == 2 && "SA"@[0] == 'S' && "SA"@[1] == 'A');
    assert("H"@.len() == 1 && "H"@[0] == 'H');
    assert("L"@.len() == 1 && "L"@[0] == 'L');
    assert("N"@.len() == 1 && "N"@[0] == 'N');
}

} // verus!
