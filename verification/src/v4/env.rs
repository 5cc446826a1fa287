//! CVSS v4 environmental metrics.

use vstd::prelude::*;

use crate::common::str_eq;
use crate::common::CvssMetric;
use crate::common::Optional;
use crate::common::ParseError;
use crate::v4::V4Metric;

pub use crate::v3::env::AvailabilityRequirement;
pub use crate::v3::env::ConfidentialityRequirement;
pub use crate::v3::env::IntegrityRequirement;
pub use crate::v3::env::ModifiedAttackComplexity;
pub use crate::v3::env::ModifiedAttackVector;
pub use crate::v3::env::ModifiedPrivilegesRequired;

verus! {

/// Modified User Interaction (`MUI`).
#[derive(Clone, Copy, Debug, PartialEq, Eq, Hash, Structural)]
pub enum ModifiedUserInteraction {
    NotDefined,
    NoneRequired,
    Passive,
    Active,
}

impl CvssMetric for ModifiedUserInteraction {
    open spec fn spec_abbrev() -> Seq<char> {
        "MUI"@
    }

    open spec fn spec_token(self) -> Seq<char> {
        match self {
            ModifiedUserInteraction::NotDefined => "X"@,
            ModifiedUserInteraction::NoneRequired => "N"@,
            ModifiedUserInteraction::Passive => "P"@,
            ModifiedUserInteraction::Active => "A"@,
        }
    }

    open spec fn spec_from_str(s: Seq<char>) -> Result<ModifiedUserInteraction, ParseError> {
        if s == "X"@ {
            Ok(ModifiedUserInteraction::NotDefined)
        } else if s == "N"@ {
            Ok(ModifiedUserInteraction::NoneRequired)
        } else if s == "P"@ {
            Ok(ModifiedUserInteraction::Passive)
        } else if s == "A"@ {
            Ok(ModifiedUserInteraction::Active)
        } else {
            Err(ParseError::IncorrectValue)
        }
    }

    fn abbreviated_form() -> (r: &'static str) {
        "MUI"
    }

    fn as_str(&self) -> (r: &'static str) {
        match self {
            ModifiedUserInteraction::NotDefined => "X",
            ModifiedUserInteraction::NoneRequired => "N",
            ModifiedUserInteraction::Passive => "P",
            ModifiedUserInteraction::Active => "A",
        }
    }

    fn from_str(value: &str) -> (r: Result<ModifiedUserInteraction, ParseError>) {
        if str_eq(value, "X") {
            Ok(ModifiedUserInteraction::NotDefined)
        } else if str_eq(value, "N") {
            Ok(ModifiedUserInteraction::NoneRequired)
        } else if str_eq(value, "P") {
            Ok(ModifiedUserInteraction::Passive)
        } else if str_eq(value, "A") {
            Ok(ModifiedUserInteraction::Active)
        } else {
            Err(ParseError::IncorrectValue)
        }
    }
}

impl Optional for ModifiedUserInteraction {
    open spec fn spec_undefined() -> ModifiedUserInteraction {
        ModifiedUserInteraction::NotDefined
    }

    fn undefined() -> (r: ModifiedUserInteraction) {
        ModifiedUserInteraction::NotDefined
    }

    fn is_undefined(&self) -> (r: bool) {
        matches!(*self, ModifiedUserInteraction::NotDefined)
    }
}

impl V4Metric for ModifiedUserInteraction {
    open spec fn spec_level(self) -> int {
        match self {
            ModifiedUserInteraction::NotDefined => 0,
            ModifiedUserInteraction::NoneRequired => 0,
            ModifiedUserInteraction::Passive => 1,
            ModifiedUserInteraction::Active => 2,
        }
    }

    fn level(&self) -> (r: u8) {
        match self {
            ModifiedUserInteraction::NotDefined => 0,
            ModifiedUserInteraction::NoneRequired => 0,
            ModifiedUserInteraction::Passive => 1,
            ModifiedUserInteraction::Active => 2,
        }
    }
}

/// Modified Vulnerable System Confidentiality Impact (`MVC`).
#[derive(Clone, Copy, Debug, PartialEq, Eq, Hash, Structural)]
pub enum ModifiedVulnerableSystemConfidentiality {
    NotDefined,
    High,
    Low,
    Negligible,
}

impl CvssMetric for ModifiedVulnerableSystemConfidentiality {
    open spec fn spec_abbrev() -> Seq<char> {
        "MVC"@
    }

    open spec fn spec_token(self) -> Seq<char> {
        match self {
            ModifiedVulnerableSystemConfidentiality::NotDefined => "X"@,
            ModifiedVulnerableSystemConfidentiality::High => "H"@,
            ModifiedVulnerableSystemConfidentiality::Low => "L"@,
            ModifiedVulnerableSystemConfidentiality::Negligible => "N"@,
        }
    }

    open spec fn spec_from_str(s: Seq<char>) -> Result<ModifiedVulnerableSystemConfidentiality, ParseError> {
        if s == "X"@ {
            Ok(ModifiedVulnerableSystemConfidentiality::NotDefined)
        } else if s == "H"@ {
            Ok(ModifiedVulnerableSystemConfidentiality::High)
        } else if s == "L"@ {
            Ok(ModifiedVulnerableSystemConfidentiality::Low)
        } else if s == "N"@ {
            Ok(ModifiedVulnerableSystemConfidentiality::Negligible)
        } else {
            Err(ParseError::IncorrectValue)
        }
    }

    fn abbreviated_form() -> (r: &'static str) {
        "MVC"
    }

    fn as_str(&self) -> (r: &'static str) {
        match self {
            ModifiedVulnerableSystemConfidentiality::NotDefined => "X",
            ModifiedVulnerableSystemConfidentiality::High => "H",
            ModifiedVulnerableSystemConfidentiality::Low => "L",
            ModifiedVulnerableSystemConfidentiality::Negligible => "N",
        }
    }

    fn from_str(value: &str) -> (r: Result<ModifiedVulnerableSystemConfidentiality, ParseError>) {
        if str_eq(value, "X") {
            Ok(ModifiedVulnerableSystemConfidentiality::NotDefined)
        } else if str_eq(value, "H") {
            Ok(ModifiedVulnerableSystemConfidentiality::High)
        } else if str_eq(value, "L") {
            Ok(ModifiedVulnerableSystemConfidentiality::Low)
        } else if str_eq(value, "N") {
            Ok(ModifiedVulnerableSystemConfidentiality::Negligible)
        } else {
            Err(ParseError::IncorrectValue)
        }
    }
}

impl Optional for ModifiedVulnerableSystemConfidentiality {
    open spec fn spec_undefined() -> ModifiedVulnerableSystemConfidentiality {
        ModifiedVulnerableSystemConfidentiality::NotDefined
    }

    fn undefined() -> (r: ModifiedVulnerableSystemConfidentiality) {
        ModifiedVulnerableSystemConfidentiality::NotDefined
    }

    fn is_undefined(&self) -> (r: bool) {
        matches!(*self, ModifiedVulnerableSystemConfidentiality::NotDefined)
    }
}

impl V4Metric for ModifiedVulnerableSystemConfidentiality {
    open spec fn spec_level(self) -> int {
        match self {
            ModifiedVulnerableSystemConfidentiality::NotDefined => 0,
            ModifiedVulnerableSystemConfidentiality::High => 0,
            ModifiedVulnerableSystemConfidentiality::Low => 1,
            ModifiedVulnerableSystemConfidentiality::Negligible => 2,
        }
    }

    fn level(&self) -> (r: u8) {
        match self {
            ModifiedVulnerableSystemConfidentiality::NotDefined => 0,
            ModifiedVulnerableSystemConfidentiality::High => 0,
            ModifiedVulnerableSystemConfidentiality::Low => 1,
            ModifiedVulnerableSystemConfidentiality::Negligible => 2,
        }
    }
}

/// Modified Vulnerable System Integrity Impact (`MVI`).
#[derive(Clone, Copy, Debug, PartialEq, Eq, Hash, Structural)]
pub enum ModifiedVulnerableSystemIntegrity {
    NotDefined,
    High,
    Low,
    Negligible,
}

impl CvssMetric for ModifiedVulnerableSystemIntegrity {
    open spec fn spec_abbrev() -> Seq<char> {
        "MVI"@
    }

    open spec fn spec_token(self) -> Seq<char> {
        match self {
            ModifiedVulnerableSystemIntegrity::NotDefined => "X"@,
            ModifiedVulnerableSystemIntegrity::High => "H"@,
            ModifiedVulnerableSystemIntegrity::Low => "L"@,
            ModifiedVulnerableSystemIntegrity::Negligible => "N"@,
        }
    }

    open spec fn spec_from_str(s: Seq<char>) -> Result<ModifiedVulnerableSystemIntegrity, ParseError> {
        if s == "X"@ {
            Ok(ModifiedVulnerableSystemIntegrity::NotDefined)
        } else if s == "H"@ {
            Ok(ModifiedVulnerableSystemIntegrity::High)
        } else if s == "L"@ {
            Ok(ModifiedVulnerableSystemIntegrity::Low)
        } else if s == "N"@ {
            Ok(ModifiedVulnerableSystemIntegrity::Negligible)
        } else {
            Err(ParseError::IncorrectValue)
        }
    }

    fn abbreviated_form() -> (r: &'static str) {
        "MVI"
    }

    fn as_str(&self) -> (r: &'static str) {
        match self {
            ModifiedVulnerableSystemIntegrity::NotDefined => "X",
            ModifiedVulnerableSystemIntegrity::High => "H",
            ModifiedVulnerableSystemIntegrity::Low => "L",
            ModifiedVulnerableSystemIntegrity::Negligible => "N",
        }
    }

    fn from_str(value: &str) -> (r: Result<ModifiedVulnerableSystemIntegrity, ParseError>) {
        if str_eq(value, "X") {
            Ok(ModifiedVulnerableSystemIntegrity::NotDefined)
        } else if str_eq(value, "H") {
            Ok(ModifiedVulnerableSystemIntegrity::High)
        } else if str_eq(value, "L") {
            Ok(ModifiedVulnerableSystemIntegrity::Low)
        } else if str_eq(value, "N") {
            Ok(ModifiedVulnerableSystemIntegrity::Negligible)
        } else {
            Err(ParseError::IncorrectValue)
        }
    }
}

impl Optional for ModifiedVulnerableSystemIntegrity {
    open spec fn spec_undefined() -> ModifiedVulnerableSystemIntegrity {
        ModifiedVulnerableSystemIntegrity::NotDefined
    }

    fn undefined() -> (r: ModifiedVulnerableSystemIntegrity) {
        ModifiedVulnerableSystemIntegrity::NotDefined
    }

    fn is_undefined(&self) -> (r: bool) {
        matches!(*self, ModifiedVulnerableSystemIntegrity::NotDefined)
    }
}

impl V4Metric for ModifiedVulnerableSystemIntegrity {
    open spec fn spec_level(self) -> int {
        match self {
            ModifiedVulnerableSystemIntegrity::NotDefined => 0,
            ModifiedVulnerableSystemIntegrity::High => 0,
            ModifiedVulnerableSystemIntegrity::Low => 1,
            ModifiedVulnerableSystemIntegrity::Negligible => 2,
        }
    }

    fn level(&self) -> (r: u8) {
        match self {
            ModifiedVulnerableSystemIntegrity::NotDefined => 0,
            ModifiedVulnerableSystemIntegrity::High => 0,
            ModifiedVulnerableSystemIntegrity::Low => 1,
            ModifiedVulnerableSystemIntegrity::Negligible => 2,
        }
    }
}

/// Modified Vulnerable System Availability Impact (`MVA`).
#[derive(Clone, Copy, Debug, PartialEq, Eq, Hash, Structural)]
pub enum ModifiedVulnerableSystemAvailability {
    NotDefined,
    High,
    Low,
    Negligible,
}

impl CvssMetric for ModifiedVulnerableSystemAvailability {
    open spec fn spec_abbrev() -> Seq<char> {
        "MVA"@
    }

    open spec fn spec_token(self) -> Seq<char> {
        match self {
            ModifiedVulnerableSystemAvailability::NotDefined => "X"@,
            ModifiedVulnerableSystemAvailability::High => "H"@,
            ModifiedVulnerableSystemAvailability::Low => "L"@,
            ModifiedVulnerableSystemAvailability::Negligible => "N"@,
        }
    }

    open spec fn spec_from_str(s: Seq<char>) -> Result<ModifiedVulnerableSystemAvailability, ParseError> {
        if s == "X"@ {
            Ok(ModifiedVulnerableSystemAvailability::NotDefined)
        } else if s == "H"@ {
            Ok(ModifiedVulnerableSystemAvailability::High)
        } else if s == "L"@ {
            Ok(ModifiedVulnerableSystemAvailability::Low)
        } else if s == "N"@ {
            Ok(ModifiedVulnerableSystemAvailability::Negligible)
        } else {
            Err(ParseError::IncorrectValue)
        }
    }

    fn abbreviated_form() -> (r: &'static str) {
        "MVA"
    }

    fn as_str(&self) -> (r: &'static str) {
        match self {
            ModifiedVulnerableSystemAvailability::NotDefined => "X",
            ModifiedVulnerableSystemAvailability::High => "H",
            ModifiedVulnerableSystemAvailability::Low => "L",
            ModifiedVulnerableSystemAvailability::Negligible => "N",
        }
    }

    fn from_str(value: &str) -> (r: Result<ModifiedVulnerableSystemAvailability, ParseError>) {
        if str_eq(value, "X") {
            Ok(ModifiedVulnerableSystemAvailability::NotDefined)
        } else if str_eq(value, "H") {
            Ok(ModifiedVulnerableSystemAvailability::High)
        } else if str_eq(value, "L") {
            Ok(ModifiedVulnerableSystemAvailability::Low)
        } else if str_eq(value, "N") {
            Ok(ModifiedVulnerableSystemAvailability::Negligible)
        } else {
            Err(ParseError::IncorrectValue)
        }
    }
}

impl Optional for ModifiedVulnerableSystemAvailability {
    open spec fn spec_undefined() -> ModifiedVulnerableSystemAvailability {
        ModifiedVulnerableSystemAvailability::NotDefined
    }

    fn undefined() -> (r: ModifiedVulnerableSystemAvailability) {
        ModifiedVulnerableSystemAvailability::NotDefined
    }

    fn is_undefined(&self) -> (r: bool) {
        matches!(*self, ModifiedVulnerableSystemAvailability::NotDefined)
    }
}

impl V4Metric for ModifiedVulnerableSystemAvailability {
    open spec fn spec_level(self) -> int {
        match self {
            ModifiedVulnerableSystemAvailability::NotDefined => 0,
            ModifiedVulnerableSystemAvailability::High => 0,
            ModifiedVulnerableSystemAvailability::Low => 1,
            ModifiedVulnerableSystemAvailability::Negligible => 2,
        }
    }

    fn level(&self) -> (r: u8) {
        match self {
            ModifiedVulnerableSystemAvailability::NotDefined => 0,
            ModifiedVulnerableSystemAvailability::High => 0,
            ModifiedVulnerableSystemAvailability::Low => 1,
            ModifiedVulnerableSystemAvailability::Negligible => 2,
        }
    }
}

/// Modified Subsequent System Confidentiality Impact (`MSC`).
#[derive(Clone, Copy, Debug, PartialEq, Eq, Hash, Structural)]
pub enum ModifiedSubsequentSystemConfidentiality {
    NotDefined,
    High,
    Low,
    Negligible,
}

impl CvssMetric for ModifiedSubsequentSystemConfidentiality {
    open spec fn spec_abbrev() -> Seq<char> {
        "MSC"@
    }

    open spec fn spec_token(self) -> Seq<char> {
        match self {
            ModifiedSubsequentSystemConfidentiality::NotDefined => "X"@,
            ModifiedSubsequentSystemConfidentiality::High => "H"@,
            ModifiedSubsequentSystemConfidentiality::Low => "L"@,
            ModifiedSubsequentSystemConfidentiality::Negligible => "N"@,
        }
    }

    open spec fn spec_from_str(s: Seq<char>) -> Result<ModifiedSubsequentSystemConfidentiality, ParseError> {
        if s == "X"@ {
            Ok(ModifiedSubsequentSystemConfidentiality::NotDefined)
        } else if s == "H"@ {
            Ok(ModifiedSubsequentSystemConfidentiality::High)
        } else if s == "L"@ {
            Ok(ModifiedSubsequentSystemConfidentiality::Low)
        } else if s == "N"@ {
            Ok(ModifiedSubsequentSystemConfidentiality::Negligible)
        } else {
            Err(ParseError::IncorrectValue)
        }
    }

    fn abbreviated_form() -> (r: &'static str) {
        "MSC"
    }

    fn as_str(&self) -> (r: &'static str) {
        match self {
            ModifiedSubsequentSystemConfidentiality::NotDefined => "X",
            ModifiedSubsequentSystemConfidentiality::High => "H",
            ModifiedSubsequentSystemConfidentiality::Low => "L",
            ModifiedSubsequentSystemConfidentiality::Negligible => "N",
        }
    }

    fn from_str(value: &str) -> (r: Result<ModifiedSubsequentSystemConfidentiality, ParseError>) {
        if str_eq(value, "X") {
            Ok(ModifiedSubsequentSystemConfidentiality::NotDefined)
        } else if str_eq(value, "H") {
            Ok(ModifiedSubsequentSystemConfidentiality::High)
        } else if str_eq(value, "L") {
            Ok(ModifiedSubsequentSystemConfidentiality::Low)
        } else if str_eq(value, "N") {
            Ok(ModifiedSubsequentSystemConfidentiality::Negligible)
        } else {
            Err(ParseError::IncorrectValue)
        }
    }
}

impl Optional for ModifiedSubsequentSystemConfidentiality {
    open spec fn spec_undefined() -> ModifiedSubsequentSystemConfidentiality {
        ModifiedSubsequentSystemConfidentiality::NotDefined
    }

    fn undefined() -> (r: ModifiedSubsequentSystemConfidentiality) {
        ModifiedSubsequentSystemConfidentiality::NotDefined
    }

    fn is_undefined(&self) -> (r: bool) {
        matches!(*self, ModifiedSubsequentSystemConfidentiality::NotDefined)
    }
}

impl V4Metric for ModifiedSubsequentSystemConfidentiality {
    open spec fn spec_level(self) -> int {
        match self {
            ModifiedSubsequentSystemConfidentiality::NotDefined => 1,
            ModifiedSubsequentSystemConfidentiality::High => 1,
            ModifiedSubsequentSystemConfidentiality::Low => 2,
            ModifiedSubsequentSystemConfidentiality::Negligible => 3,
        }
    }

    fn level(&self) -> (r: u8) {
        match self {
            ModifiedSubsequentSystemConfidentiality::NotDefined => 1,
            ModifiedSubsequentSystemConfidentiality::High => 1,
            ModifiedSubsequentSystemConfidentiality::Low => 2,
            ModifiedSubsequentSystemConfidentiality::Negligible => 3,
        }
    }
}

/// Modified Subsequent System Integrity Impact (`MSI`).
#[derive(Clone, Copy, Debug, PartialEq, Eq, Hash, Structural)]
pub enum ModifiedSubsequentSystemIntegrity {
    NotDefined,
    Safety,
    High,
    Low,
    Negligible,
}

impl CvssMetric for ModifiedSubsequentSystemIntegrity {
    open spec fn spec_abbrev() -> Seq<char> {
        "MSI"@
    }

    open spec fn spec_token(self) -> Seq<char> {
        match self {
            ModifiedSubsequentSystemIntegrity::NotDefined => "X"@,
            ModifiedSubsequentSystemIntegrity::Safety => "S"@,
            ModifiedSubsequentSystemIntegrity::High => "H"@,
            ModifiedSubsequentSystemIntegrity::Low => "L"@,
            ModifiedSubsequentSystemIntegrity::Negligible => "N"@,
        }
    }

    open spec fn spec_from_str(s: Seq<char>) -> Result<ModifiedSubsequentSystemIntegrity, ParseError> {
        if s == "X"@ {
            Ok(ModifiedSubsequentSystemIntegrity::NotDefined)
        } else if s == "S"@ {
            Ok(ModifiedSubsequentSystemIntegrity::Safety)
        } else if s == "H"@ {
            Ok(ModifiedSubsequentSystemIntegrity::High)
        } else if s == "L"@ {
            Ok(ModifiedSubsequentSystemIntegrity::Low)
        } else if s == "N"@ {
            Ok(ModifiedSubsequentSystemIntegrity::Negligible)
        } else {
            Err(ParseError::IncorrectValue)
        }
    }

    fn abbreviated_form() -> (r: &'static str) {
        "MSI"
    }

    fn as_str(&self) -> (r: &'static str) {
        match self {
            ModifiedSubsequentSystemIntegrity::NotDefined => "X",
            ModifiedSubsequentSystemIntegrity::Safety => "S",
            ModifiedSubsequentSystemIntegrity::High => "H",
            ModifiedSubsequentSystemIntegrity::Low => "L",
            ModifiedSubsequentSystemIntegrity::Negligible => "N",
        }
    }

    fn from_str(value: &str) -> (r: Result<ModifiedSubsequentSystemIntegrity, ParseError>) {
        if str_eq(value, "X") {
            Ok(ModifiedSubsequentSystemIntegrity::NotDefined)
        } else if str_eq(value, "S") {
            Ok(ModifiedSubsequentSystemIntegrity::Safety)
        } else if str_eq(value, "H") {
            Ok(ModifiedSubsequentSystemIntegrity::High)
        } else if str_eq(value, "L") {
            Ok(ModifiedSubsequentSystemIntegrity::Low)
        } else if str_eq(value, "N") {
            Ok(ModifiedSubsequentSystemIntegrity::Negligible)
        } else {
            Err(ParseError::IncorrectValue)
        }
    }
}

impl Optional for ModifiedSubsequentSystemIntegrity {
    open spec fn spec_undefined() -> ModifiedSubsequentSystemIntegrity {
        ModifiedSubsequentSystemIntegrity::NotDefined
    }

    fn undefined() -> (r: ModifiedSubsequentSystemIntegrity) {
        ModifiedSubsequentSystemIntegrity::NotDefined
    }

    fn is_undefined(&self) -> (r: bool) {
        matches!(*self, ModifiedSubsequentSystemIntegrity::NotDefined)
    }
}

impl V4Metric for ModifiedSubsequentSystemIntegrity {
    open spec fn spec_level(self) -> int {
        match self {
            ModifiedSubsequentSystemIntegrity::NotDefined => 1,
            ModifiedSubsequentSystemIntegrity::Safety => 0,
            ModifiedSubsequentSystemIntegrity::High => 1,
            ModifiedSubsequentSystemIntegrity::Low => 2,
            ModifiedSubsequentSystemIntegrity::Negligible => 3,
        }
    }

    fn level(&self) -> (r: u8) {
        match self {
            ModifiedSubsequentSystemIntegrity::NotDefined => 1,
            ModifiedSubsequentSystemIntegrity::Safety => 0,
            ModifiedSubsequentSystemIntegrity::High => 1,
            ModifiedSubsequentSystemIntegrity::Low => 2,
            ModifiedSubsequentSystemIntegrity::Negligible => 3,
        }
    }
}

/// Modified Subsequent System Availability Impact (`MSA`).
#[derive(Clone, Copy, Debug, PartialEq, Eq, Hash, Structural)]
pub enum ModifiedSubsequentSystemAvailability {
    NotDefined,
    Safety,
    High,
    Low,
    Negligible,
}

impl CvssMetric for ModifiedSubsequentSystemAvailability {
    open spec fn spec_abbrev() -> Seq<char> {
        "MSA"@
    }

    open spec fn spec_token(self) -> Seq<char> {
        match self {
            ModifiedSubsequentSystemAvailability::NotDefined => "X"@,
            ModifiedSubsequentSystemAvailability::Safety => "S"@,
            ModifiedSubsequentSystemAvailability::High => "H"@,
            ModifiedSubsequentSystemAvailability::Low => "L"@,
            ModifiedSubsequentSystemAvailability::Negligible => "N"@,
        }
    }

    open spec fn spec_from_str(s: Seq<char>) -> Result<ModifiedSubsequentSystemAvailability, ParseError> {
        if s == "X"@ {
            Ok(ModifiedSubsequentSystemAvailability::NotDefined)
        } else if s == "S"@ {
            Ok(ModifiedSubsequentSystemAvailability::Safety)
        } else if s == "H"@ {
            Ok(ModifiedSubsequentSystemAvailability::High)
        } else if s == "L"@ {
            Ok(ModifiedSubsequentSystemAvailability::Low)
        } else if s == "N"@ {
            Ok(ModifiedSubsequentSystemAvailability::Negligible)
        } else {
            Err(ParseError::IncorrectValue)
        }
    }

    fn abbreviated_form() -> (r: &'static str) {
        "MSA"
    }

    fn as_str(&self) -> (r: &'static str) {
        match self {
            ModifiedSubsequentSystemAvailability::NotDefined => "X",
            ModifiedSubsequentSystemAvailability::Safety => "S",
            ModifiedSubsequentSystemAvailability::High => "H",
            ModifiedSubsequentSystemAvailability::Low => "L",
            ModifiedSubsequentSystemAvailability::Negligible => "N",
        }
    }

    fn from_str(value: &str) -> (r: Result<ModifiedSubsequentSystemAvailability, ParseError>) {
        if str_eq(value, "X") {
            Ok(ModifiedSubsequentSystemAvailability::NotDefined)
        } else if str_eq(value, "S") {
            Ok(ModifiedSubsequentSystemAvailability::Safety)
        } else if str_eq(value, "H") {
            Ok(ModifiedSubsequentSystemAvailability::High)
        } else if str_eq(value, "L") {
            Ok(ModifiedSubsequentSystemAvailability::Low)
        } else if str_eq(value, "N") {
            Ok(ModifiedSubsequentSystemAvailability::Negligible)
        } else {
            Err(ParseError::IncorrectValue)
        }
    }
}

impl Optional for ModifiedSubsequentSystemAvailability {
    open spec fn spec_undefined() -> ModifiedSubsequentSystemAvailability {
        ModifiedSubsequentSystemAvailability::NotDefined
    }

    fn undefined() -> (r: ModifiedSubsequentSystemAvailability) {
        ModifiedSubsequentSystemAvailability::NotDefined
    }

    fn is_undefined(&self) -> (r: bool) {
        matches!(*self, ModifiedSubsequentSystemAvailability::NotDefined)
    }
}

impl V4Metric for ModifiedSubsequentSystemAvailability {
    open spec fn spec_level(self) -> int {
        match self {
            ModifiedSubsequentSystemAvailability::NotDefined => 1,
            ModifiedSubsequentSystemAvailability::Safety => 0,
            ModifiedSubsequentSystemAvailability::High => 1,
            ModifiedSubsequentSystemAvailability::Low => 2,
            ModifiedSubsequentSystemAvailability::Negligible => 3,
        }
    }

    fn level(&self) -> (r: u8) {
        match self {
            ModifiedSubsequentSystemAvailability::NotDefined => 1,
            ModifiedSubsequentSystemAvailability::Safety => 0,
            ModifiedSubsequentSystemAvailability::High => 1,
            ModifiedSubsequentSystemAvailability::Low => 2,
            ModifiedSubsequentSystemAvailability::Negligible => 3,
        }
    }
}
/// Parsing a value's own wire token yields the value back.
pub proof fn lemma_modified_user_interaction_round_trip(m: ModifiedUserInteraction)
    ensures
        ModifiedUserInteraction::spec_from_str(m.spec_token()) == Ok::<ModifiedUserInteraction, ParseError>(m),
{
    reveal_strlit("X");
    reveal_strlit("N");
    reveal_strlit("P");
    reveal_strlit("A");
    assert("X"@.len() == 1 && "X"@[0] == 'X');
    assert("N"@.len() == 1 && "N"@[0] == 'N');
    assert("P"@.len() == 1 && "P"@[0] == 'P');
    assert("A"@.len() == 1 && "A"@[0] == 'A');
    match m {
        ModifiedUserInteraction::NotDefined => assert(ModifiedUserInteraction::spec_from_str("X"@) == Ok::<
            ModifiedUserInteraction,
            ParseError,
        >(m)),
        ModifiedUserInteraction::NoneRequired => assert(ModifiedUserInteraction::spec_from_str("N"@) == Ok::<
            ModifiedUserInteraction,
            ParseError,
        >(m)),
        ModifiedUserInteraction::Passive => assert(ModifiedUserInteraction::spec_from_str("P"@) == Ok::<
            ModifiedUserInteraction,
            ParseError,
        >(m)),
        ModifiedUserInteraction::Active => assert(ModifiedUserInteraction::spec_from_str("A"@) == Ok::<
            ModifiedUserInteraction,
            ParseError,
        >(m)),
    }
}

/// Parsing a value's own wire token yields the value back.
pub proof fn lemma_modified_vulnerable_system_confidentiality_round_trip(m: ModifiedVulnerableSystemConfidentiality)
    ensures
        ModifiedVulnerableSystemConfidentiality::spec_from_str(m.spec_token()) == Ok::<ModifiedVulnerableSystemConfidentiality, ParseError>(m),
{
    reveal_strlit("X");
    reveal_strlit("H");
    reveal_strlit("L");
    reveal_strlit("N");
    assert("X"@.len() == 1 && "X"@[0] == 'X');
    assert("H"@.len() == 1 && "H"@[0] == 'H');
    assert("L"@.len() == 1 && "L"@[0] == 'L');
    assert("N"@.len() == 1 && "N"@[0] == 'N');
    match m {
        ModifiedVulnerableSystemConfidentiality::NotDefined => assert(ModifiedVulnerableSystemConfidentiality::spec_from_str("X"@) == Ok::<
            ModifiedVulnerableSystemConfidentiality,
            ParseError,
        >(m)),
        ModifiedVulnerableSystemConfidentiality::High => assert(ModifiedVulnerableSystemConfidentiality::spec_from_str("H"@) == Ok::<
            ModifiedVulnerableSystemConfidentiality,
            ParseError,
        >(m)),
        ModifiedVulnerableSystemConfidentiality::Low => assert(ModifiedVulnerableSystemConfidentiality::spec_from_str("L"@) == Ok::<
            ModifiedVulnerableSystemConfidentiality,
            ParseError,
        >(m)),
        ModifiedVulnerableSystemConfidentiality::Negligible => assert(ModifiedVulnerableSystemConfidentiality::spec_from_str("N"@) == Ok::<
            ModifiedVulnerableSystemConfidentiality,
            ParseError,
        >(m)),
    }
}

/// Parsing a value's own wire token yields the value back.
pub proof fn lemma_modified_vulnerable_system_integrity_round_trip(m: ModifiedVulnerableSystemIntegrity)
    ensures
        ModifiedVulnerableSystemIntegrity::spec_from_str(m.spec_token()) == Ok::<ModifiedVulnerableSystemIntegrity, ParseError>(m),
{
    reveal_strlit("X");
    reveal_strlit("H");
    reveal_strlit("L");
    reveal_strlit("N");
    assert("X"@.len() == 1 && "X"@[0] == 'X');
    assert("H"@.len() == 1 && "H"@[0] == 'H');
    assert("L"@.len() == 1 && "L"@[0] == 'L');
    assert("N"@.len() == 1 && "N"@[0] == 'N');
    match m {
        ModifiedVulnerableSystemIntegrity::NotDefined => assert(ModifiedVulnerableSystemIntegrity::spec_from_str("X"@) == Ok::<
            ModifiedVulnerableSystemIntegrity,
            ParseError,
        >(m)),
        ModifiedVulnerableSystemIntegrity::High => assert(ModifiedVulnerableSystemIntegrity::spec_from_str("H"@) == Ok::<
            ModifiedVulnerableSystemIntegrity,
            ParseError,
        >(m)),
        ModifiedVulnerableSystemIntegrity::Low => assert(ModifiedVulnerableSystemIntegrity::spec_from_str("L"@) == Ok::<
            ModifiedVulnerableSystemIntegrity,
            ParseError,
        >(m)),
        ModifiedVulnerableSystemIntegrity::Negligible => assert(ModifiedVulnerableSystemIntegrity::spec_from_str("N"@) == Ok::<
            ModifiedVulnerableSystemIntegrity,
            ParseError,
        >(m)),
    }
}

/// Parsing a value's own wire token yields the value back.
pub proof fn lemma_modified_vulnerable_system_availability_round_trip(m: ModifiedVulnerableSystemAvailability)
    ensures
        ModifiedVulnerableSystemAvailability::spec_from_str(m.spec_token()) == Ok::<ModifiedVulnerableSystemAvailability, ParseError>(m),
{
    reveal_strlit("X");
    reveal_strlit("H");
    reveal_strlit("L");
    reveal_strlit("N");
    assert("X"@.len() == 1 && "X"@[0] == 'X');
    assert("H"@.len() == 1 && "H"@[0] == 'H');
    assert("L"@.len() == 1 && "L"@[0] == 'L');
    assert("N"@.len() == 1 && "N"@[0] == 'N');
    match m {
        ModifiedVulnerableSystemAvailability::NotDefined => assert(ModifiedVulnerableSystemAvailability::spec_from_str("X"@) == Ok::<
            ModifiedVulnerableSystemAvailability,
            ParseError,
        >(m)),
        ModifiedVulnerableSystemAvailability::High => assert(ModifiedVulnerableSystemAvailability::spec_from_str("H"@) == Ok::<
            ModifiedVulnerableSystemAvailability,
            ParseError,
        >(m)),
        ModifiedVulnerableSystemAvailability::Low => assert(ModifiedVulnerableSystemAvailability::spec_from_str("L"@) == Ok::<
            ModifiedVulnerableSystemAvailability,
            ParseError,
        >(m)),
        ModifiedVulnerableSystemAvailability::Negligible => assert(ModifiedVulnerableSystemAvailability::spec_from_str("N"@) == Ok::<
            ModifiedVulnerableSystemAvailability,
            ParseError,
        >(m)),
    }
}

/// Parsing a value's own wire token yields the value back.
pub proof fn lemma_modified_subsequent_system_confidentiality_round_trip(m: ModifiedSubsequentSystemConfidentiality)
    ensures
        ModifiedSubsequentSystemConfidentiality::spec_from_str(m.spec_token()) == Ok::<ModifiedSubsequentSystemConfidentiality, ParseError>(m),
{
    reveal_strlit("X");
    reveal_strlit("H");
    reveal_strlit("L");
    reveal_strlit("N");
    assert("X"@.len() == 1 && "X"@[0] == 'X');
    assert("H"@.len() == 1 && "H"@[0] == 'H');
    assert("L"@.len() == 1 && "L"@[0] == 'L');
    assert("N"@.len() == 1 && "N"@[0] == 'N');
    match m {
        ModifiedSubsequentSystemConfidentiality::NotDefined => assert(ModifiedSubsequentSystemConfidentiality::spec_from_str("X"@) == Ok::<
            ModifiedSubsequentSystemConfidentiality,
            ParseError,
        >(m)),
        ModifiedSubsequentSystemConfidentiality::High => assert(ModifiedSubsequentSystemConfidentiality::spec_from_str("H"@) == Ok::<
            ModifiedSubsequentSystemConfidentiality,
            ParseError,
        >(m)),
        ModifiedSubsequentSystemConfidentiality::Low => assert(ModifiedSubsequentSystemConfidentiality::spec_from_str("L"@) == Ok::<
            ModifiedSubsequentSystemConfidentiality,
            ParseError,
        >(m)),
        ModifiedSubsequentSystemConfidentiality::Negligible => assert(ModifiedSubsequentSystemConfidentiality::spec_from_str("N"@) == Ok::<
            ModifiedSubsequentSystemConfidentiality,
            ParseError,
        >(m)),
    }
}

/// Parsing a value's own wire token yields the value back.
pub proof fn lemma_modified_subsequent_system_integrity_round_trip(m: ModifiedSubsequentSystemIntegrity)
    ensures
        ModifiedSubsequentSystemIntegrity::spec_from_str(m.spec_token()) == Ok::<ModifiedSubsequentSystemIntegrity, ParseError>(m),
{
    reveal_strlit("X");
    reveal_strlit("S");
    reveal_strlit("H");
    reveal_strlit("L");
    reveal_strlit("N");
    assert("X"@.len() == 1 && "X"@[0] == 'X');
    assert("S"@.len() == 1 && "S"@[0] == 'S');
    assert("H"@.len() == 1 && "H"@[0] == 'H');
    assert("L"@.len() == 1 && "L"@[0] == 'L');
    assert("N"@.len() == 1 && "N"@[0] == 'N');
    match m {
        ModifiedSubsequentSystemIntegrity::NotDefined => assert(ModifiedSubsequentSystemIntegrity::spec_from_str("X"@) == Ok::<
            ModifiedSubsequentSystemIntegrity,
            ParseError,
        >(m)),
        ModifiedSubsequentSystemIntegrity::Safety => assert(ModifiedSubsequentSystemIntegrity::spec_from_str("S"@) == Ok::<
            ModifiedSubsequentSystemIntegrity,
            ParseError,
        >(m)),
        ModifiedSubsequentSystemIntegrity::High => assert(ModifiedSubsequentSystemIntegrity::spec_from_str("H"@) == Ok::<
            ModifiedSubsequentSystemIntegrity,
            ParseError,
        >(m)),
        ModifiedSubsequentSystemIntegrity::Low => assert(ModifiedSubsequentSystemIntegrity::spec_from_str("L"@) == Ok::<
            ModifiedSubsequentSystemIntegrity,
            ParseError,
        >(m)),
        ModifiedSubsequentSystemIntegrity::Negligible => assert(ModifiedSubsequentSystemIntegrity::spec_from_str("N"@) == Ok::<
            ModifiedSubsequentSystemIntegrity,
            ParseError,
        >(m)),
    }
}

/// Parsing a value's own wire token yields the value back.
pub proof fn lemma_modified_subsequent_system_availability_round_trip(m: ModifiedSubsequentSystemAvailability)
    ensures
        ModifiedSubsequentSystemAvailability::spec_from_str(m.spec_token()) == Ok::<ModifiedSubsequentSystemAvailability, ParseError>(m),
{
    reveal_strlit("X");
    reveal_strlit("S");
    reveal_strlit("H");
    reveal_strlit("L");
    reveal_strlit("N");
    assert("X"@.len() == 1 && "X"@[0] == 'X');
    assert("S"@.len() == 1 && "S"@[0] == 'S');
    assert("H"@.len() == 1 && "H"@[0] == 'H');
    assert("L"@.len() == 1 && "L"@[0] == 'L');
    assert("N"@.len() == 1 && "N"@[0] == 'N');
    match m {
        ModifiedSubsequentSystemAvailability::NotDefined => assert(ModifiedSubsequentSystemAvailability::spec_from_str("X"@) == Ok::<
            ModifiedSubsequentSystemAvailability,
            ParseError,
        >(m)),
        ModifiedSubsequentSystemAvailability::Safety => assert(ModifiedSubsequentSystemAvailability::spec_from_str("S"@) == Ok::<
            ModifiedSubsequentSystemAvailability,
            ParseError,
        >(m)),
        ModifiedSubsequentSystemAvailability::High => assert(ModifiedSubsequentSystemAvailability::spec_from_str("H"@) == Ok::<
            ModifiedSubsequentSystemAvailability,
            ParseError,
        >(m)),
        ModifiedSubsequentSystemAvailability::Low => assert(ModifiedSubsequentSystemAvailability::spec_from_str("L"@) == Ok::<
            ModifiedSubsequentSystemAvailability,
            ParseError,
        >(m)),
        ModifiedSubsequentSystemAvailability::Negligible => assert(ModifiedSubsequentSystemAvailability::spec_from_str("N"@) == Ok::<
            ModifiedSubsequentSystemAvailability,
            ParseError,
        >(m)),
    }
}

/// The metric name and every wire token are free of the vector and
/// metric delimiters.
pub proof fn lemma_modified_user_interaction_token_chars(m: ModifiedUserInteraction)
    ensures
        ModifiedUserInteraction::spec_abbrev().len() > 0,
        forall|j: int|
            0 <= j < ModifiedUserInteraction::spec_abbrev().len() ==> ModifiedUserInteraction::spec_abbrev()[j] != '/'
                && ModifiedUserInteraction::spec_abbrev()[j] != ':',
        forall|j: int|
            0 <= j < m.spec_token().len() ==> m.spec_token()[j] != '/' && m.spec_token()[j]
                != ':',
{
    reveal_strlit("MUI");
    reveal_strlit("X");
    reveal_strlit("N");
    reveal_strlit("P");
    reveal_strlit("A");
    assert("MUI"@.len() == 3 && "MUI"@[0] == 'M' && "MUI"@[1] == 'U' && "MUI"@[2] == 'I');
    assert("X"@.len() == 1 && "X"@[0] == 'X');
    assert("N"@.len() == 1 && "N"@[0] == 'N');
    assert("P"@.len() == 1 && "P"@[0] == 'P');
    assert("A"@.len() == 1 && "A"@[0] == 'A');
}

/// The metric name and every wire token are free of the vector and
/// metric delimiters.
pub proof fn lemma_modified_vulnerable_system_confidentiality_token_chars(m: ModifiedVulnerableSystemConfidentiality)
    ensures
        ModifiedVulnerableSystemConfidentiality::spec_abbrev().len() > 0,
        forall|j: int|
            0 <= j < ModifiedVulnerableSystemConfidentiality::spec_abbrev().len() ==> ModifiedVulnerableSystemConfidentiality::spec_abbrev()[j] != '/'
                && ModifiedVulnerableSystemConfidentiality::spec_abbrev()[j] != ':',
        forall|j: int|
            0 <= j < m.spec_token().len() ==> m.spec_token()[j] != '/' && m.spec_token()[j]
                != ':',
{
    reveal_strlit("MVC");
    reveal_strlit("X");
    reveal_strlit("H");
    reveal_strlit("L");
    reveal_strlit("N");
    assert("MVC"@.len() == 3 && "MVC"@[0] == 'M' && "MVC"@[1] == 'V' && "MVC"@[2] == 'C');
    assert("X"@.len() == 1 && "X"@[0] == 'X');
    assert("H"@.len() == 1 && "H"@[0] == 'H');
    assert("L"@.len() == 1 && "L"@[0] == 'L');
    assert("N"@.len() == 1 && "N"@[0] == 'N');
}

/// The metric name and every wire token are free of the vector and
/// metric delimiters.
pub proof fn lemma_modified_vulnerable_system_integrity_token_chars(m: ModifiedVulnerableSystemIntegrity)
    ensures
        ModifiedVulnerableSystemIntegrity::spec_abbrev().len() > 0,
        forall|j: int|
            0 <= j < ModifiedVulnerableSystemIntegrity::spec_abbrev().len() ==> ModifiedVulnerableSystemIntegrity::spec_abbrev()[j] != '/'
                && ModifiedVulnerableSystemIntegrity::spec_abbrev()[j] != ':',
        forall|j: int|
            0 <= j < m.spec_token().len() ==> m.spec_token()[j] != '/' && m.spec_token()[j]
                != ':',
{
    reveal_strlit("MVI");
    reveal_strlit("X");
    reveal_strlit("H");
    reveal_strlit("L");
    reveal_strlit("N");
    assert("MVI"@.len() == 3 && "MVI"@[0] == 'M' && "MVI"@[1] == 'V' && "MVI"@[2] == 'I');
    assert("X"@.len() == 1 && "X"@[0] == 'X');
    assert("H"@.len() == 1 && "H"@[0] == 'H');
    assert("L"@.len() == 1 && "L"@[0] == 'L');
    assert("N"@.len() == 1 && "N"@[0] == 'N');
}

/// The metric name and every wire token are free of the vector and
/// metric delimiters.
pub proof fn lemma_modified_vulnerable_system_availability_token_chars(m: ModifiedVulnerableSystemAvailability)
    ensures
        ModifiedVulnerableSystemAvailability::spec_abbrev().len() > 0,
        forall|j: int|
            0 <= j < ModifiedVulnerableSystemAvailability::spec_abbrev().len() ==> ModifiedVulnerableSystemAvailability::spec_abbrev()[j] != '/'
                && ModifiedVulnerableSystemAvailability::spec_abbrev()[j] != ':',
        forall|j: int|
            0 <= j < m.spec_token().len() ==> m.spec_token()[j] != '/' && m.spec_token()[j]
                != ':',
{
    reveal_strlit("MVA");
    reveal_strlit("X");
    reveal_strlit("H");
    reveal_strlit("L");
    reveal_strlit("N");
    assert("MVA"@.len() == 3 && "MVA"@[0] == 'M' && "MVA"@[1] == 'V' && "MVA"@[2] == 'A');
    assert("X"@.len() == 1 && "X"@[0] == 'X');
    assert("H"@.len() == 1 && "H"@[0] == 'H');
    assert("L"@.len() == 1 && "L"@[0] == 'L');
    assert("N"@.len() == 1 && "N"@[0] == 'N');
}

/// The metric name and every wire token are free of the vector and
/// metric delimiters.
pub proof fn lemma_modified_subsequent_system_confidentiality_token_chars(m: ModifiedSubsequentSystemConfidentiality)
    ensures
        ModifiedSubsequentSystemConfidentiality::spec_abbrev().len() > 0,
        forall|j: int|
            0 <= j < ModifiedSubsequentSystemConfidentiality::spec_abbrev().len() ==> ModifiedSubsequentSystemConfidentiality::spec_abbrev()[j] != '/'
                && ModifiedSubsequentSystemConfidentiality::spec_abbrev()[j] != ':',
        forall|j: int|
            0 <= j < m.spec_token().len() ==> m.spec_token()[j] != '/' && m.spec_token()[j]
                != ':',
{
    reveal_strlit("MSC");
    reveal_strlit("X");
    reveal_strlit("H");
    reveal_strlit("L");
    reveal_strlit("N");
    assert("MSC"@.len() == 3 && "MSC"@[0] == 'M' && "MSC"@[1] == 'S' && "MSC"@[2] == 'C');
    assert("X"@.len() == 1 && "X"@[0] == 'X');
    assert("H"@.len() == 1 && "H"@[0] == 'H');
    assert("L"@.len() == 1 && "L"@[0] == 'L');
    assert("N"@.len() == 1 && "N"@[0] == 'N');
}

/// The metric name and every wire token are free of the vector and
/// metric delimiters.
pub proof fn lemma_modified_subsequent_system_integrity_token_chars(m: ModifiedSubsequentSystemIntegrity)
    ensures
        ModifiedSubsequentSystemIntegrity::spec_abbrev().len() > 0,
        forall|j: int|
            0 <= j < ModifiedSubsequentSystemIntegrity::spec_abbrev().len() ==> ModifiedSubsequentSystemIntegrity::spec_abbrev()[j] != '/'
                && ModifiedSubsequentSystemIntegrity::spec_abbrev()[j] != ':',
        forall|j: int|
            0 <= j < m.spec_token().len() ==> m.spec_token()[j] != '/' && m.spec_token()[j]
                != ':',
{
    reveal_strlit("MSI");
    reveal_strlit("X");
    reveal_strlit("S");
    reveal_strlit("H");
    reveal_strlit("L");
    reveal_strlit("N");
    assert("MSI"@.len() == 3 && "MSI"@[0] == 'M' && "MSI"@[1] == 'S' && "MSI"@[2] == 'I');
    assert("X"@.len() == 1 && "X"@[0] == 'X');
    assert("S"@.len() == 1 && "S"@[0] == 'S');
    assert("H"@.len() == 1 && "H"@[0] == 'H');
    assert("L"@.len() == 1 && "L"@[0] == 'L');
    assert("N"@.len() == 1 && "N"@[0] == 'N');
}

/// The metric name and every wire token are free of the vector and
/// metric delimiters.
pub proof fn lemma_modified_subsequent_system_availability_token_chars(m: ModifiedSubsequentSystemAvailability)
    ensures
        ModifiedSubsequentSystemAvailability::spec_abbrev().len() > 0,
        forall|j: int|
            0 <= j < ModifiedSubsequentSystemAvailability::spec_abbrev().len() ==> ModifiedSubsequentSystemAvailability::spec_abbrev()[j] != '/'
                && ModifiedSubsequentSystemAvailability::spec_abbrev()[j] != ':',
        forall|j: int|
            0 <= j < m.spec_token().len() ==> m.spec_token()[j] != '/' && m.spec_token()[j]
                != ':',
{
    reveal_strlit("MSA");
    reveal_strlit("X");
    reveal_strlit("S");
    reveal_strlit("H");
    reveal_strlit("L");
    reveal_strlit("N");
    assert("MSA"@.len() == 3 && "MSA"@[0] == 'M' && "MSA"@[1] == 'S' && "MSA"@[2] == 'A');
    assert("X"@.len() == 1 && "X"@[0] == 'X');
    assert("S"@.len() == 1 && "S"@[0] == 'S');
    assert("H"@.len() == 1 && "H"@[0] == 'H');
    assert("L"@.len() == 1 && "L"@[0] == 'L');
    assert("N"@.len() == 1 && "N"@[0] == 'N');
}

} // verus!
