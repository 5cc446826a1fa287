//! CVSS v3 environmental metrics.

use vstd::prelude::*;

use crate::common::str_eq;
use crate::common::CvssMetric;
use crate::common::Optional;
use crate::common::ParseError;
use crate::v4::V4Metric;

verus! {

/// Confidentiality Requirement (`CR`).
#[derive(Clone, Copy, Debug, PartialEq, Eq, Hash, Structural)]
pub enum ConfidentialityRequirement {
    NotDefined,
    High,
    Medium,
    Low,
}

impl CvssMetric for ConfidentialityRequirement {
    open spec fn spec_abbrev() -> Seq<char> {
        "CR"@
    }

    open spec fn spec_token(self) -> Seq<char> {
        match self {
            ConfidentialityRequirement::NotDefined => "X"@,
            ConfidentialityRequirement::High => "H"@,
            ConfidentialityRequirement::Medium => "M"@,
            ConfidentialityRequirement::Low => "L"@,
        }
    }

    open spec fn spec_from_str(s: Seq<char>) -> Result<ConfidentialityRequirement, ParseError> {
        if s == "X"@ {
            Ok(ConfidentialityRequirement::NotDefined)
        } else if s == "H"@ {
            Ok(ConfidentialityRequirement::High)
        } else if s == "M"@ {
            Ok(ConfidentialityRequirement::Medium)
        } else if s == "L"@ {
            Ok(ConfidentialityRequirement::Low)
        } else {
            Err(ParseError::IncorrectValue)
        }
    }

    fn abbreviated_form() -> (r: &'static str) {
        "CR"
    }

    fn as_str(&self) -> (r: &'static str) {
        match self {
            ConfidentialityRequirement::NotDefined => "X",
            ConfidentialityRequirement::High => "H",
            ConfidentialityRequirement::Medium => "M",
            ConfidentialityRequirement::Low => "L",
        }
    }

    fn from_str(value: &str) -> (r: Result<ConfidentialityRequirement, ParseError>) {
        if str_eq(value, "X") {
            Ok(ConfidentialityRequirement::NotDefined)
        } else if str_eq(value, "H") {
            Ok(ConfidentialityRequirement::High)
        } else if str_eq(value, "M") {
            Ok(ConfidentialityRequirement::Medium)
        } else if str_eq(value, "L") {
            Ok(ConfidentialityRequirement::Low)
        } else {
            Err(ParseError::IncorrectValue)
        }
    }
}

impl Optional for ConfidentialityRequirement {
    open spec fn spec_undefined() -> ConfidentialityRequirement {
        ConfidentialityRequirement::NotDefined
    }

    fn undefined() -> (r: ConfidentialityRequirement) {
        ConfidentialityRequirement::NotDefined
    }

    fn is_undefined(&self) -> (r: bool) {
        matches!(*self, ConfidentialityRequirement::NotDefined)
    }
}

impl V4Metric for ConfidentialityRequirement {
    open spec fn spec_level(self) -> int {
        match self {
            ConfidentialityRequirement::NotDefined => 0,
            ConfidentialityRequirement::High => 0,
            ConfidentialityRequirement::Medium => 1,
            ConfidentialityRequirement::Low => 2,
        }
    }

    fn level(&self) -> (r: u8) {
        match self {
            ConfidentialityRequirement::NotDefined => 0,
            ConfidentialityRequirement::High => 0,
            ConfidentialityRequirement::Medium => 1,
            ConfidentialityRequirement::Low => 2,
        }
    }
}

/// Integrity Requirement (`IR`).
#[derive(Clone, Copy, Debug, PartialEq, Eq, Hash, Structural)]
pub enum IntegrityRequirement {
    NotDefined,
    High,
    Medium,
    Low,
}

impl CvssMetric for IntegrityRequirement {
    open spec fn spec_abbrev() -> Seq<char> {
        "IR"@
    }

    open spec fn spec_token(self) -> Seq<char> {
        match self {
            IntegrityRequirement::NotDefined => "X"@,
            IntegrityRequirement::High => "H"@,
            IntegrityRequirement::Medium => "M"@,
            IntegrityRequirement::Low => "L"@,
        }
    }

    open spec fn spec_from_str(s: Seq<char>) -> Result<IntegrityRequirement, ParseError> {
        if s == "X"@ {
            Ok(IntegrityRequirement::NotDefined)
        } else if s == "H"@ {
            Ok(IntegrityRequirement::High)
        } else if s == "M"@ {
            Ok(IntegrityRequirement::Medium)
        } else if s == "L"@ {
            Ok(IntegrityRequirement::Low)
        } else {
            Err(ParseError::IncorrectValue)
        }
    }

    fn abbreviated_form() -> (r: &'static str) {
        "IR"
    }

    fn as_str(&self) -> (r: &'static str) {
        match self {
            IntegrityRequirement::NotDefined => "X",
            IntegrityRequirement::High => "H",
            IntegrityRequirement::Medium => "M",
            IntegrityRequirement::Low => "L",
        }
    }

    fn from_str(value: &str) -> (r: Result<IntegrityRequirement, ParseError>) {
        if str_eq(value, "X") {
            Ok(IntegrityRequirement::NotDefined)
        } else if str_eq(value, "H") {
            Ok(IntegrityRequirement::High)
        } else if str_eq(value, "M") {
            Ok(IntegrityRequirement::Medium)
        } else if str_eq(value, "L") {
            Ok(IntegrityRequirement::Low)
        } else {
            Err(ParseError::IncorrectValue)
        }
    }
}

impl Optional for IntegrityRequirement {
    open spec fn spec_undefined() -> IntegrityRequirement {
        IntegrityRequirement::NotDefined
    }

    fn undefined() -> (r: IntegrityRequirement) {
        IntegrityRequirement::NotDefined
    }

    fn is_undefined(&self) -> (r: bool) {
        matches!(*self, IntegrityRequirement::NotDefined)
    }
}

impl V4Metric for IntegrityRequirement {
    open spec fn spec_level(self) -> int {
        match self {
            IntegrityRequirement::NotDefined => 0,
            IntegrityRequirement::High => 0,
            IntegrityRequirement::Medium => 1,
            IntegrityRequirement::Low => 2,
        }
    }

    fn level(&self) -> (r: u8) {
        match self {
            IntegrityRequirement::NotDefined => 0,
            IntegrityRequirement::High => 0,
            IntegrityRequirement::Medium => 1,
            IntegrityRequirement::Low => 2,
        }
    }
}

/// Availability Requirement (`AR`).
#[derive(Clone, Copy, Debug, PartialEq, Eq, Hash, Structural)]
pub enum AvailabilityRequirement {
    NotDefined,
    High,
    Medium,
    Low,
}

impl CvssMetric for AvailabilityRequirement {
    open spec fn spec_abbrev() -> Seq<char> {
        "AR"@
    }

    open spec fn spec_token(self) -> Seq<char> {
        match self {
            AvailabilityRequirement::NotDefined => "X"@,
            AvailabilityRequirement::High => "H"@,
            AvailabilityRequirement::Medium => "M"@,
            AvailabilityRequirement::Low => "L"@,
        }
    }

    open spec fn spec_from_str(s: Seq<char>) -> Result<AvailabilityRequirement, ParseError> {
        if s == "X"@ {
            Ok(AvailabilityRequirement::NotDefined)
        } else if s == "H"@ {
            Ok(AvailabilityRequirement::High)
        } else if s == "M"@ {
            Ok(AvailabilityRequirement::Medium)
        } else if s == "L"@ {
            Ok(AvailabilityRequirement::Low)
        } else {
            Err(ParseError::IncorrectValue)
        }
    }

    fn abbreviated_form() -> (r: &'static str) {
        "AR"
    }

    fn as_str(&self) -> (r: &'static str) {
        match self {
            AvailabilityRequirement::NotDefined => "X",
            AvailabilityRequirement::High => "H",
            AvailabilityRequirement::Medium => "M",
            AvailabilityRequirement::Low => "L",
        }
    }

    fn from_str(value: &str) -> (r: Result<AvailabilityRequirement, ParseError>) {
        if str_eq(value, "X") {
            Ok(AvailabilityRequirement::NotDefined)
        } else if str_eq(value, "H") {
            Ok(AvailabilityRequirement::High)
        } else if str_eq(value, "M") {
            Ok(AvailabilityRequirement::Medium)
        } else if str_eq(value, "L") {
            Ok(AvailabilityRequirement::Low)
        } else {
            Err(ParseError::IncorrectValue)
        }
    }
}

impl Optional for AvailabilityRequirement {
    open spec fn spec_undefined() -> AvailabilityRequirement {
        AvailabilityRequirement::NotDefined
    }

    fn undefined() -> (r: AvailabilityRequirement) {
        AvailabilityRequirement::NotDefined
    }

    fn is_undefined(&self) -> (r: bool) {
        matches!(*self, AvailabilityRequirement::NotDefined)
    }
}

impl V4Metric for AvailabilityRequirement {
    open spec fn spec_level(self) -> int {
        match self {
            AvailabilityRequirement::NotDefined => 0,
            AvailabilityRequirement::High => 0,
            AvailabilityRequirement::Medium => 1,
            AvailabilityRequirement::Low => 2,
        }
    }

    fn level(&self) -> (r: u8) {
        match self {
            AvailabilityRequirement::NotDefined => 0,
            AvailabilityRequirement::High => 0,
            AvailabilityRequirement::Medium => 1,
            AvailabilityRequirement::Low => 2,
        }
    }
}

/// Modified Attack Vector (`MAV`).
#[derive(Clone, Copy, Debug, PartialEq, Eq, Hash, Structural)]
pub enum ModifiedAttackVector {
    NotDefined,
    Network,
    Adjacent,
    Local,
    Physical,
}

impl CvssMetric for ModifiedAttackVector {
    open spec fn spec_abbrev() -> Seq<char> {
        "MAV"@
    }

    open spec fn spec_token(self) -> Seq<char> {
        match self {
            ModifiedAttackVector::NotDefined => "X"@,
            ModifiedAttackVector::Network => "N"@,
            ModifiedAttackVector::Adjacent => "A"@,
            ModifiedAttackVector::Local => "L"@,
            ModifiedAttackVector::Physical => "P"@,
        }
    }

    open spec fn spec_from_str(s: Seq<char>) -> Result<ModifiedAttackVector, ParseError> {
        if s == "X"@ {
            Ok(ModifiedAttackVector::NotDefined)
        } else if s == "N"@ {
            Ok(ModifiedAttackVector::Network)
        } else if s == "A"@ {
            Ok(ModifiedAttackVector::Adjacent)
        } else if s == "L"@ {
            Ok(ModifiedAttackVector::Local)
        } else if s == "P"@ {
            Ok(ModifiedAttackVector::Physical)
        } else {
            Err(ParseError::IncorrectValue)
        }
    }

    fn abbreviated_form() -> (r: &'static str) {
        "MAV"
    }

    fn as_str(&self) -> (r: &'static str) {
        match self {
            ModifiedAttackVector::NotDefined => "X",
            ModifiedAttackVector::Network => "N",
            ModifiedAttackVector::Adjacent => "A",
            ModifiedAttackVector::Local => "L",
            ModifiedAttackVector::Physical => "P",
        }
    }

    fn from_str(value: &str) -> (r: Result<ModifiedAttackVector, ParseError>) {
        if str_eq(value, "X") {
            Ok(ModifiedAttackVector::NotDefined)
        } else if str_eq(value, "N") {
            Ok(ModifiedAttackVector::Network)
        } else if str_eq(value, "A") {
            Ok(ModifiedAttackVector::Adjacent)
        } else if str_eq(value, "L") {
            Ok(ModifiedAttackVector::Local)
        } else if str_eq(value, "P") {
            Ok(ModifiedAttackVector::Physical)
        } else {
            Err(ParseError::IncorrectValue)
        }
    }
}

impl Optional for ModifiedAttackVector {
    open spec fn spec_undefined() -> ModifiedAttackVector {
        ModifiedAttackVector::NotDefined
    }

    fn undefined() -> (r: ModifiedAttackVector) {
        ModifiedAttackVector::NotDefined
    }

    fn is_undefined(&self) -> (r: bool) {
        matches!(*self, ModifiedAttackVector::NotDefined)
    }
}

impl V4Metric for ModifiedAttackVector {
    open spec fn spec_level(self) -> int {
        match self {
            ModifiedAttackVector::NotDefined => 0,
            ModifiedAttackVector::Network => 0,
            ModifiedAttackVector::Adjacent => 1,
            ModifiedAttackVector::Local => 2,
            ModifiedAttackVector::Physical => 3,
        }
    }

    fn level(&self) -> (r: u8) {
        match self {
            ModifiedAttackVector::NotDefined => 0,
            ModifiedAttackVector::Network => 0,
            ModifiedAttackVector::Adjacent => 1,
            ModifiedAttackVector::Local => 2,
            ModifiedAttackVector::Physical => 3,
        }
    }
}

/// Modified Attack Complexity (`MAC`).
#[derive(Clone, Copy, Debug, PartialEq, Eq, Hash, Structural)]
pub enum ModifiedAttackComplexity {
    NotDefined,
    Low,
    High,
}

impl CvssMetric for ModifiedAttackComplexity {
    open spec fn spec_abbrev() -> Seq<char> {
        "MAC"@
    }

    open spec fn spec_token(self) -> Seq<char> {
        match self {
            ModifiedAttackComplexity::NotDefined => "X"@,
            ModifiedAttackComplexity::Low => "L"@,
            ModifiedAttackComplexity::High => "H"@,
        }
    }

    open spec fn spec_from_str(s: Seq<char>) -> Result<ModifiedAttackComplexity, ParseError> {
        if s == "X"@ {
            Ok(ModifiedAttackComplexity::NotDefined)
        } else if s == "L"@ {
            Ok(ModifiedAttackComplexity::Low)
        } else if s == "H"@ {
            Ok(ModifiedAttackComplexity::High)
        } else {
            Err(ParseError::IncorrectValue)
        }
    }

    fn abbreviated_form() -> (r: &'static str) {
        "MAC"
    }

    fn as_str(&self) -> (r: &'static str) {
        match self {
            ModifiedAttackComplexity::NotDefined => "X",
            ModifiedAttackComplexity::Low => "L",
            ModifiedAttackComplexity::High => "H",
        }
    }

    fn from_str(value: &str) -> (r: Result<ModifiedAttackComplexity, ParseError>) {
        if str_eq(value, "X") {
            Ok(ModifiedAttackComplexity::NotDefined)
        } else if str_eq(value, "L") {
            Ok(ModifiedAttackComplexity::Low)
        } else if str_eq(value, "H") {
            Ok(ModifiedAttackComplexity::High)
        } else {
            Err(ParseError::IncorrectValue)
        }
    }
}

impl Optional for ModifiedAttackComplexity {
    open spec fn spec_undefined() -> ModifiedAttackComplexity {
        ModifiedAttackComplexity::NotDefined
    }

    fn undefined() -> (r: ModifiedAttackComplexity) {
        ModifiedAttackComplexity::NotDefined
    }

    fn is_undefined(&self) -> (r: bool) {
        matches!(*self, ModifiedAttackComplexity::NotDefined)
    }
}

impl V4Metric for ModifiedAttackComplexity {
    open spec fn spec_level(self) -> int {
        match self {
            ModifiedAttackComplexity::NotDefined => 0,
            ModifiedAttackComplexity::Low => 0,
            ModifiedAttackComplexity::High => 1,
        }
    }

    fn level(&self) -> (r: u8) {
        match self {
            ModifiedAttackComplexity::NotDefined => 0,
            ModifiedAttackComplexity::Low => 0,
            ModifiedAttackComplexity::High => 1,
        }
    }
}

/// Modified Privileges Required (`MPR`).
#[derive(Clone, Copy, Debug, PartialEq, Eq, Hash, Structural)]
pub enum ModifiedPrivilegesRequired {
    NotDefined,
    NoneRequired,
    Low,
    High,
}

impl CvssMetric for ModifiedPrivilegesRequired {
    open spec fn spec_abbrev() -> Seq<char> {
        "MPR"@
    }

    open spec fn spec_token(self) -> Seq<char> {
        match self {
            ModifiedPrivilegesRequired::NotDefined => "X"@,
            ModifiedPrivilegesRequired::NoneRequired => "N"@,
            ModifiedPrivilegesRequired::Low => "L"@,
            ModifiedPrivilegesRequired::High => "H"@,
        }
    }

    open spec fn spec_from_str(s: Seq<char>) -> Result<ModifiedPrivilegesRequired, ParseError> {
        if s == "X"@ {
            Ok(ModifiedPrivilegesRequired::NotDefined)
        } else if s == "N"@ {
            Ok(ModifiedPrivilegesRequired::NoneRequired)
        } else if s == "L"@ {
            Ok(ModifiedPrivilegesRequired::Low)
        } else if s == "H"@ {
            Ok(ModifiedPrivilegesRequired::High)
        } else {
            Err(ParseError::IncorrectValue)
        }
    }

    fn abbreviated_form() -> (r: &'static str) {
        "MPR"
    }

    fn as_str(&self) -> (r: &'static str) {
        match self {
            ModifiedPrivilegesRequired::NotDefined => "X",
            ModifiedPrivilegesRequired::NoneRequired => "N",
            ModifiedPrivilegesRequired::Low => "L",
            ModifiedPrivilegesRequired::High => "H",
        }
    }

    fn from_str(value: &str) -> (r: Result<ModifiedPrivilegesRequired, ParseError>) {
        if str_eq(value, "X") {
            Ok(ModifiedPrivilegesRequired::NotDefined)
        } else if str_eq(value, "N") {
            Ok(ModifiedPrivilegesRequired::NoneRequired)
        } else if str_eq(value, "L") {
            Ok(ModifiedPrivilegesRequired::Low)
        } else if str_eq(value, "H") {
            Ok(ModifiedPrivilegesRequired::High)
        } else {
            Err(ParseError::IncorrectValue)
        }
    }
}

impl Optional for ModifiedPrivilegesRequired {
    open spec fn spec_undefined() -> ModifiedPrivilegesRequired {
        ModifiedPrivilegesRequired::NotDefined
    }

    fn undefined() -> (r: ModifiedPrivilegesRequired) {
        ModifiedPrivilegesRequired::NotDefined
    }

    fn is_undefined(&self) -> (r: bool) {
        matches!(*self, ModifiedPrivilegesRequired::NotDefined)
    }
}

impl V4Metric for ModifiedPrivilegesRequired {
    open spec fn spec_level(self) -> int {
        match self {
            ModifiedPrivilegesRequired::NotDefined => 0,
            ModifiedPrivilegesRequired::NoneRequired => 0,
            ModifiedPrivilegesRequired::Low => 1,
            ModifiedPrivilegesRequired::High => 2,
        }
    }

    fn level(&self) -> (r: u8) {
        match self {
            ModifiedPrivilegesRequired::NotDefined => 0,
            ModifiedPrivilegesRequired::NoneRequired => 0,
            ModifiedPrivilegesRequired::Low => 1,
            ModifiedPrivilegesRequired::High => 2,
        }
    }
}

/// Modified User Interaction (`MUI`).
#[derive(Clone, Copy, Debug, PartialEq, Eq, Hash, Structural)]
pub enum ModifiedUserInteraction {
    NotDefined,
    NoneRequired,
    Required,
}

impl CvssMetric for ModifiedUserInteraction {
    open spec fn spec_abbrev() -> Seq<char> {
        "MUI"@
    }

    open spec fn spec_token(self) -> Seq<char> {
        match self {
            ModifiedUserInteraction::NotDefined => "X"@,
            ModifiedUserInteraction::NoneRequired => "N"@,
            ModifiedUserInteraction::Required => "R"@,
        }
    }

    open spec fn spec_from_str(s: Seq<char>) -> Result<ModifiedUserInteraction, ParseError> {
        if s == "X"@ {
            Ok(ModifiedUserInteraction::NotDefined)
        } else if s == "N"@ {
            Ok(ModifiedUserInteraction::NoneRequired)
        } else if s == "R"@ {
            Ok(ModifiedUserInteraction::Required)
        } else {
            Err(ParseError::IncorrectValue)
        }
    }

    fn abbreviated_form() -> (r: &'static str) {
        "MUI"
    }

    fn as_str(&self) -> (r: &'static str) {
        match self {
            ModifiedUserInteraction::NotDefined => "X",
            ModifiedUserInteraction::NoneRequired => "N",
            ModifiedUserInteraction::Required => "R",
        }
    }

    fn from_str(value: &str) -> (r: Result<ModifiedUserInteraction, ParseError>) {
        if str_eq(value, "X") {
            Ok(ModifiedUserInteraction::NotDefined)
        } else if str_eq(value, "N") {
            Ok(ModifiedUserInteraction::NoneRequired)
        } else if str_eq(value, "R") {
            Ok(ModifiedUserInteraction::Required)
        } else {
            Err(ParseError::IncorrectValue)
        }
    }
}

impl Optional for ModifiedUserInteraction {
    open spec fn spec_undefined() -> ModifiedUserInteraction {
        ModifiedUserInteraction::NotDefined
    }

    fn undefined() -> (r: ModifiedUserInteraction) {
        ModifiedUserInteraction::NotDefined
    }

    fn is_undefined(&self) -> (r: bool) {
        matches!(*self, ModifiedUserInteraction::NotDefined)
    }
}

/// Modified Scope (`MS`).
#[derive(Clone, Copy, Debug, PartialEq, Eq, Hash, Structural)]
pub enum ModifiedScope {
    NotDefined,
    Unchanged,
    Changed,
}

impl CvssMetric for ModifiedScope {
    open spec fn spec_abbrev() -> Seq<char> {
        "MS"@
    }

    open spec fn spec_token(self) -> Seq<char> {
        match self {
            ModifiedScope::NotDefined => "X"@,
            ModifiedScope::Unchanged => "U"@,
            ModifiedScope::Changed => "C"@,
        }
    }

    open spec fn spec_from_str(s: Seq<char>) -> Result<ModifiedScope, ParseError> {
        if s == "X"@ {
            Ok(ModifiedScope::NotDefined)
        } else if s == "U"@ {
            Ok(ModifiedScope::Unchanged)
        } else if s == "C"@ {
            Ok(ModifiedScope::Changed)
        } else {
            Err(ParseError::IncorrectValue)
        }
    }

    fn abbreviated_form() -> (r: &'static str) {
        "MS"
    }

    fn as_str(&self) -> (r: &'static str) {
        match self {
            ModifiedScope::NotDefined => "X",
            ModifiedScope::Unchanged => "U",
            ModifiedScope::Changed => "C",
        }
    }

    fn from_str(value: &str) -> (r: Result<ModifiedScope, ParseError>) {
        if str_eq(value, "X") {
            Ok(ModifiedScope::NotDefined)
        } else if str_eq(value, "U") {
            Ok(ModifiedScope::Unchanged)
        } else if str_eq(value, "C") {
            Ok(ModifiedScope::Changed)
        } else {
            Err(ParseError::IncorrectValue)
        }
    }
}

impl Optional for ModifiedScope {
    open spec fn spec_undefined() -> ModifiedScope {
        ModifiedScope::NotDefined
    }

    fn undefined() -> (r: ModifiedScope) {
        ModifiedScope::NotDefined
    }

    fn is_undefined(&self) -> (r: bool) {
        matches!(*self, ModifiedScope::NotDefined)
    }
}

/// Modified Confidentiality Impact (`MC`).
#[derive(Clone, Copy, Debug, PartialEq, Eq, Hash, Structural)]
pub enum ModifiedConfidentiality {
    NotDefined,
    Negligible,
    Low,
    High,
}

impl CvssMetric for ModifiedConfidentiality {
    open spec fn spec_abbrev() -> Seq<char> {
        "MC"@
    }

    open spec fn spec_token(self) -> Seq<char> {
        match self {
            ModifiedConfidentiality::NotDefined => "X"@,
            ModifiedConfidentiality::Negligible => "N"@,
            ModifiedConfidentiality::Low => "L"@,
            ModifiedConfidentiality::High => "H"@,
        }
    }

    open spec fn spec_from_str(s: Seq<char>) -> Result<ModifiedConfidentiality, ParseError> {
        if s == "X"@ {
            Ok(ModifiedConfidentiality::NotDefined)
        } else if s == "N"@ {
            Ok(ModifiedConfidentiality::Negligible)
        } else if s == "L"@ {
            Ok(ModifiedConfidentiality::Low)
        } else if s == "H"@ {
            Ok(ModifiedConfidentiality::High)
        } else {
            Err(ParseError::IncorrectValue)
        }
    }

    fn abbreviated_form() -> (r: &'static str) {
        "MC"
    }

    fn as_str(&self) -> (r: &'static str) {
        match self {
            ModifiedConfidentiality::NotDefined => "X",
            ModifiedConfidentiality::Negligible => "N",
            ModifiedConfidentiality::Low => "L",
            ModifiedConfidentiality::High => "H",
        }
    }

    fn from_str(value: &str) -> (r: Result<ModifiedConfidentiality, ParseError>) {
        if str_eq(value, "X") {
            Ok(ModifiedConfidentiality::NotDefined)
        } else if str_eq(value, "N") {
            Ok(ModifiedConfidentiality::Negligible)
        } else if str_eq(value, "L") {
            Ok(ModifiedConfidentiality::Low)
        } else if str_eq(value, "H") {
            Ok(ModifiedConfidentiality::High)
        } else {
            Err(ParseError::IncorrectValue)
        }
    }
}

impl Optional for ModifiedConfidentiality {
    open spec fn spec_undefined() -> ModifiedConfidentiality {
        ModifiedConfidentiality::NotDefined
    }

    fn undefined() -> (r: ModifiedConfidentiality) {
        ModifiedConfidentiality::NotDefined
    }

    fn is_undefined(&self) -> (r: bool) {
        matches!(*self, ModifiedConfidentiality::NotDefined)
    }
}

/// Modified Integrity Impact (`MI`).
#[derive(Clone, Copy, Debug, PartialEq, Eq, Hash, Structural)]
pub enum ModifiedIntegrity {
    NotDefined,
    Negligible,
    Low,
    High,
}

impl CvssMetric for ModifiedIntegrity {
    open spec fn spec_abbrev() -> Seq<char> {
        "MI"@
    }

    open spec fn spec_token(self) -> Seq<char> {
        match self {
            ModifiedIntegrity::NotDefined => "X"@,
            ModifiedIntegrity::Negligible => "N"@,
            ModifiedIntegrity::Low => "L"@,
            ModifiedIntegrity::High => "H"@,
        }
    }

    open spec fn spec_from_str(s: Seq<char>) -> Result<ModifiedIntegrity, ParseError> {
        if s == "X"@ {
            Ok(ModifiedIntegrity::NotDefined)
        } else if s == "N"@ {
            Ok(ModifiedIntegrity::Negligible)
        } else if s == "L"@ {
            Ok(ModifiedIntegrity::Low)
        } else if s == "H"@ {
            Ok(ModifiedIntegrity::High)
        } else {
            Err(ParseError::IncorrectValue)
        }
    }

    fn abbreviated_form() -> (r: &'static str) {
        "MI"
    }

    fn as_str(&self) -> (r: &'static str) {
        match self {
            ModifiedIntegrity::NotDefined => "X",
            ModifiedIntegrity::Negligible => "N",
            ModifiedIntegrity::Low => "L",
            ModifiedIntegrity::High => "H",
        }
    }

    fn from_str(value: &str) -> (r: Result<ModifiedIntegrity, ParseError>) {
        if str_eq(value, "X") {
            Ok(ModifiedIntegrity::NotDefined)
        } else if str_eq(value, "N") {
            Ok(ModifiedIntegrity::Negligible)
        } else if str_eq(value, "L") {
            Ok(ModifiedIntegrity::Low)
        } else if str_eq(value, "H") {
            Ok(ModifiedIntegrity::High)
        } else {
            Err(ParseError::IncorrectValue)
        }
    }
}

impl Optional for ModifiedIntegrity {
    open spec fn spec_undefined() -> ModifiedIntegrity {
        ModifiedIntegrity::NotDefined
    }

    fn undefined() -> (r: ModifiedIntegrity) {
        ModifiedIntegrity::NotDefined
    }

    fn is_undefined(&self) -> (r: bool) {
        matches!(*self, ModifiedIntegrity::NotDefined)
    }
}

/// Modified Availability Impact (`MA`).
#[derive(Clone, Copy, Debug, PartialEq, Eq, Hash, Structural)]
pub enum ModifiedAvailability {
    NotDefined,
    Negligible,
    Low,
    High,
}

impl CvssMetric for ModifiedAvailability {
    open spec fn spec_abbrev() -> Seq<char> {
        "MA"@
    }

    open spec fn spec_token(self) -> Seq<char> {
        match self {
            ModifiedAvailability::NotDefined => "X"@,
            ModifiedAvailability::Negligible => "N"@,
            ModifiedAvailability::Low => "L"@,
            ModifiedAvailability::High => "H"@,
        }
    }

    open spec fn spec_from_str(s: Seq<char>) -> Result<ModifiedAvailability, ParseError> {
        if s == "X"@ {
            Ok(ModifiedAvailability::NotDefined)
        } else if s == "N"@ {
            Ok(ModifiedAvailability::Negligible)
        } else if s == "L"@ {
            Ok(ModifiedAvailability::Low)
        } else if s == "H"@ {
            Ok(ModifiedAvailability::High)
        } else {
            Err(ParseError::IncorrectValue)
        }
    }

    fn abbreviated_form() -> (r: &'static str) {
        "MA"
    }

    fn as_str(&self) -> (r: &'static str) {
        match self {
            ModifiedAvailability::NotDefined => "X",
            ModifiedAvailability::Negligible => "N",
            ModifiedAvailability::Low => "L",
            ModifiedAvailability::High => "H",
        }
    }

    fn from_str(value: &str) -> (r: Result<ModifiedAvailability, ParseError>) {
        if str_eq(value, "X") {
            Ok(ModifiedAvailability::NotDefined)
        } else if str_eq(value, "N") {
            Ok(ModifiedAvailability::Negligible)
        } else if str_eq(value, "L") {
            Ok(ModifiedAvailability::Low)
        } else if str_eq(value, "H") {
            Ok(ModifiedAvailability::High)
        } else {
            Err(ParseError::IncorrectValue)
        }
    }
}

impl Optional for ModifiedAvailability {
    open spec fn spec_undefined() -> ModifiedAvailability {
        ModifiedAvailability::NotDefined
    }

    fn undefined() -> (r: ModifiedAvailability) {
        ModifiedAvailability::NotDefined
    }

    fn is_undefined(&self) -> (r: bool) {
        matches!(*self, ModifiedAvailability::NotDefined)
    }
}
/// Parsing a value's own wire token yields the value back.
pub proof fn lemma_confidentiality_requirement_round_trip(m: ConfidentialityRequirement)
    ensures
        ConfidentialityRequirement::spec_from_str(m.spec_token()) == Ok::<ConfidentialityRequirement, ParseError>(m),
{
    reveal_strlit("X");
    reveal_strlit("H");
    reveal_strlit("M");
    reveal_strlit("L");
    assert("X"@.len() == 1 && "X"@[0] == 'X');
    assert("H"@.len() == 1 && "H"@[0] == 'H');
    assert("M"@.len() == 1 && "M"@[0] == 'M');
    assert("L"@.len() == 1 && "L"@[0] == 'L');
    match m {
        ConfidentialityRequirement::NotDefined => assert(ConfidentialityRequirement::spec_from_str("X"@) == Ok::<
            ConfidentialityRequirement,
            ParseError,
        >(m)),
        ConfidentialityRequirement::High => assert(ConfidentialityRequirement::spec_from_str("H"@) == Ok::<
            ConfidentialityRequirement,
            ParseError,
        >(m)),
        ConfidentialityRequirement::Medium => assert(ConfidentialityRequirement::spec_from_str("M"@) == Ok::<
            ConfidentialityRequirement,
            ParseError,
        >(m)),
        ConfidentialityRequirement::Low => assert(ConfidentialityRequirement::spec_from_str("L"@) == Ok::<
            ConfidentialityRequirement,
            ParseError,
        >(m)),
    }
}

/// Parsing a value's own wire token yields the value back.
pub proof fn lemma_integrity_requirement_round_trip(m: IntegrityRequirement)
    ensures
        IntegrityRequirement::spec_from_str(m.spec_token()) == Ok::<IntegrityRequirement, ParseError>(m),
{
    reveal_strlit("X");
    reveal_strlit("H");
    reveal_strlit("M");
    reveal_strlit("L");
    assert("X"@.len() == 1 && "X"@[0] == 'X');
    assert("H"@.len() == 1 && "H"@[0] == 'H');
    assert("M"@.len() == 1 && "M"@[0] == 'M');
    assert("L"@.len() == 1 && "L"@[0] == 'L');
    match m {
        IntegrityRequirement::NotDefined => assert(IntegrityRequirement::spec_from_str("X"@) == Ok::<
            IntegrityRequirement,
            ParseError,
        >(m)),
        IntegrityRequirement::High => assert(IntegrityRequirement::spec_from_str("H"@) == Ok::<
            IntegrityRequirement,
            ParseError,
        >(m)),
        IntegrityRequirement::Medium => assert(IntegrityRequirement::spec_from_str("M"@) == Ok::<
            IntegrityRequirement,
            ParseError,
        >(m)),
        IntegrityRequirement::Low => assert(IntegrityRequirement::spec_from_str("L"@) == Ok::<
            IntegrityRequirement,
            ParseError,
        >(m)),
    }
}

/// Parsing a value's own wire token yields the value back.
pub proof fn lemma_availability_requirement_round_trip(m: AvailabilityRequirement)
    ensures
        AvailabilityRequirement::spec_from_str(m.spec_token()) == Ok::<AvailabilityRequirement, ParseError>(m),
{
    reveal_strlit("X");
    reveal_strlit("H");
    reveal_strlit("M");
    reveal_strlit("L");
    assert("X"@.len() == 1 && "X"@[0] == 'X');
    assert("H"@.len() == 1 && "H"@[0] == 'H');
    assert("M"@.len() == 1 && "M"@[0] == 'M');
    assert("L"@.len() == 1 && "L"@[0] == 'L');
    match m {
        AvailabilityRequirement::NotDefined => assert(AvailabilityRequirement::spec_from_str("X"@) == Ok::<
            AvailabilityRequirement,
            ParseError,
        >(m)),
        AvailabilityRequirement::High => assert(AvailabilityRequirement::spec_from_str("H"@) == Ok::<
            AvailabilityRequirement,
            ParseError,
        >(m)),
        AvailabilityRequirement::Medium => assert(AvailabilityRequirement::spec_from_str("M"@) == Ok::<
            AvailabilityRequirement,
            ParseError,
        >(m)),
        AvailabilityRequirement::Low => assert(AvailabilityRequirement::spec_from_str("L"@) == Ok::<
            AvailabilityRequirement,
            ParseError,
        >(m)),
    }
}

/// Parsing a value's own wire token yields the value back.
pub proof fn lemma_modified_attack_vector_round_trip(m: ModifiedAttackVector)
    ensures
        ModifiedAttackVector::spec_from_str(m.spec_token()) == Ok::<ModifiedAttackVector, ParseError>(m),
{
    reveal_strlit("X");
    reveal_strlit("N");
    reveal_strlit("A");
    reveal_strlit("L");
    reveal_strlit("P");
    assert("X"@.len() == 1 && "X"@[0] == 'X');
    assert("N"@.len() == 1 && "N"@[0] == 'N');
    assert("A"@.len() == 1 && "A"@[0] == 'A');
    assert("L"@.len() == 1 && "L"@[0] == 'L');
    assert("P"@.len() == 1 && "P"@[0] == 'P');
    match m {
        ModifiedAttackVector::NotDefined => assert(ModifiedAttackVector::spec_from_str("X"@) == Ok::<
            ModifiedAttackVector,
            ParseError,
        >(m)),
        ModifiedAttackVector::Network => assert(ModifiedAttackVector::spec_from_str("N"@) == Ok::<
            ModifiedAttackVector,
            ParseError,
        >(m)),
        ModifiedAttackVector::Adjacent => assert(ModifiedAttackVector::spec_from_str("A"@) == Ok::<
            ModifiedAttackVector,
            ParseError,
        >(m)),
        ModifiedAttackVector::Local => assert(ModifiedAttackVector::spec_from_str("L"@) == Ok::<
            ModifiedAttackVector,
            ParseError,
        >(m)),
        ModifiedAttackVector::Physical => assert(ModifiedAttackVector::spec_from_str("P"@) == Ok::<
            ModifiedAttackVector,
            ParseError,
        >(m)),
    }
}

/// Parsing a value's own wire token yields the value back.
pub proof fn lemma_modified_attack_complexity_round_trip(m: ModifiedAttackComplexity)
    ensures
        ModifiedAttackComplexity::spec_from_str(m.spec_token()) == Ok::<ModifiedAttackComplexity, ParseError>(m),
{
    reveal_strlit("X");
    reveal_strlit("L");
    reveal_strlit("H");
    assert("X"@.len() == 1 && "X"@[0] == 'X');
    assert("L"@.len() == 1 && "L"@[0] == 'L');
    assert("H"@.len() == 1 && "H"@[0] == 'H');
    match m {
        ModifiedAttackComplexity::NotDefined => assert(ModifiedAttackComplexity::spec_from_str("X"@) == Ok::<
            ModifiedAttackComplexity,
            ParseError,
        >(m)),
        ModifiedAttackComplexity::Low => assert(ModifiedAttackComplexity::spec_from_str("L"@) == Ok::<
            ModifiedAttackComplexity,
            ParseError,
        >(m)),
        ModifiedAttackComplexity::High => assert(ModifiedAttackComplexity::spec_from_str("H"@) == Ok::<
            ModifiedAttackComplexity,
            ParseError,
        >(m)),
    }
}

/// Parsing a value's own wire token yields the value back.
pub proof fn lemma_modified_privileges_required_round_trip(m: ModifiedPrivilegesRequired)
    ensures
        ModifiedPrivilegesRequired::spec_from_str(m.spec_token()) == Ok::<ModifiedPrivilegesRequired, ParseError>(m),
{
    reveal_strlit("X");
    reveal_strlit("N");
    reveal_strlit("L");
    reveal_strlit("H");
    assert("X"@.len() == 1 && "X"@[0] == 'X');
    assert("N"@.len() == 1 && "N"@[0] == 'N');
    assert("L"@.len() == 1 && "L"@[0] == 'L');
    assert("H"@.len() == 1 && "H"@[0] == 'H');
    match m {
        ModifiedPrivilegesRequired::NotDefined => assert(ModifiedPrivilegesRequired::spec_from_str("X"@) == Ok::<
            ModifiedPrivilegesRequired,
            ParseError,
        >(m)),
        ModifiedPrivilegesRequired::NoneRequired => assert(ModifiedPrivilegesRequired::spec_from_str("N"@) == Ok::<
            ModifiedPrivilegesRequired,
            ParseError,
        >(m)),
        ModifiedPrivilegesRequired::Low => assert(ModifiedPrivilegesRequired::spec_from_str("L"@) == Ok::<
            ModifiedPrivilegesRequired,
            ParseError,
        >(m)),
        ModifiedPrivilegesRequired::High => assert(ModifiedPrivilegesRequired::spec_from_str("H"@) == Ok::<
            ModifiedPrivilegesRequired,
            ParseError,
        >(m)),
    }
}

/// Parsing a value's own wire token yields the value back.
pub proof fn lemma_modified_user_interaction_round_trip(m: ModifiedUserInteraction)
    ensures
        ModifiedUserInteraction::spec_from_str(m.spec_token()) == Ok::<ModifiedUserInteraction, ParseError>(m),
{
    reveal_strlit("X");
    reveal_strlit("N");
    reveal_strlit("R");
    assert("X"@.len() == 1 && "X"@[0] == 'X');
    assert("N"@.len() == 1 && "N"@[0] == 'N');
    assert("R"@.len() == 1 && "R"@[0] == 'R');
    match m {
        ModifiedUserInteraction::NotDefined => assert(ModifiedUserInteraction::spec_from_str("X"@) == Ok::<
            ModifiedUserInteraction,
            ParseError,
        >(m)),
        ModifiedUserInteraction::NoneRequired => assert(ModifiedUserInteraction::spec_from_str("N"@) == Ok::<
            ModifiedUserInteraction,
            ParseError,
        >(m)),
        ModifiedUserInteraction::Required => assert(ModifiedUserInteraction::spec_from_str("R"@) == Ok::<
            ModifiedUserInteraction,
            ParseError,
        >(m)),
    }
}

/// Parsing a value's own wire token yields the value back.
pub proof fn lemma_modified_scope_round_trip(m: ModifiedScope)
    ensures
        ModifiedScope::spec_from_str(m.spec_token()) == Ok::<ModifiedScope, ParseError>(m),
{
    reveal_strlit("X");
    reveal_strlit("U");
    reveal_strlit("C");
    assert("X"@.len() == 1 && "X"@[0] == 'X');
    assert("U"@.len() == 1 && "U"@[0] == 'U');
    assert("C"@.len() == 1 && "C"@[0] == 'C');
    match m {
        ModifiedScope::NotDefined => assert(ModifiedScope::spec_from_str("X"@) == Ok::<
            ModifiedScope,
            ParseError,
        >(m)),
        ModifiedScope::Unchanged => assert(ModifiedScope::spec_from_str("U"@) == Ok::<
            ModifiedScope,
            ParseError,
        >(m)),
        ModifiedScope::Changed => assert(ModifiedScope::spec_from_str("C"@) == Ok::<
            ModifiedScope,
            ParseError,
        >(m)),
    }
}

/// Parsing a value's own wire token yields the value back.
pub proof fn lemma_modified_confidentiality_round_trip(m: ModifiedConfidentiality)
    ensures
        ModifiedConfidentiality::spec_from_str(m.spec_token()) == Ok::<ModifiedConfidentiality, ParseError>(m),
{
    reveal_strlit("X");
    reveal_strlit("N");
    reveal_strlit("L");
    reveal_strlit("H");
    assert("X"@.len() == 1 && "X"@[0] == 'X');
    assert("N"@.len() == 1 && "N"@[0] == 'N');
    assert("L"@.len() == 1 && "L"@[0] == 'L');
    assert("H"@.len() == 1 && "H"@[0] == 'H');
    match m {
        ModifiedConfidentiality::NotDefined => assert(ModifiedConfidentiality::spec_from_str("X"@) == Ok::<
            ModifiedConfidentiality,
            ParseError,
        >(m)),
        ModifiedConfidentiality::Negligible => assert(ModifiedConfidentiality::spec_from_str("N"@) == Ok::<
            ModifiedConfidentiality,
            ParseError,
        >(m)),
        ModifiedConfidentiality::Low => assert(ModifiedConfidentiality::spec_from_str("L"@) == Ok::<
            ModifiedConfidentiality,
            ParseError,
        >(m)),
        ModifiedConfidentiality::High => assert(ModifiedConfidentiality::spec_from_str("H"@) == Ok::<
            ModifiedConfidentiality,
            ParseError,
        >(m)),
    }
}

/// Parsing a value's own wire token yields the value back.
pub proof fn lemma_modified_integrity_round_trip(m: ModifiedIntegrity)
    ensures
        ModifiedIntegrity::spec_from_str(m.spec_token()) == Ok::<ModifiedIntegrity, ParseError>(m),
{
    reveal_strlit("X");
    reveal_strlit("N");
    reveal_strlit("L");
    reveal_strlit("H");
    assert("X"@.len() == 1 && "X"@[0] == 'X');
    assert("N"@.len() == 1 && "N"@[0] == 'N');
    assert("L"@.len() == 1 && "L"@[0] == 'L');
    assert("H"@.len() == 1 && "H"@[0] == 'H');
    match m {
        ModifiedIntegrity::NotDefined => assert(ModifiedIntegrity::spec_from_str("X"@) == Ok::<
            ModifiedIntegrity,
            ParseError,
        >(m)),
        ModifiedIntegrity::Negligible => assert(ModifiedIntegrity::spec_from_str("N"@) == Ok::<
            ModifiedIntegrity,
            ParseError,
        >(m)),
        ModifiedIntegrity::Low => assert(ModifiedIntegrity::spec_from_str("L"@) == Ok::<
            ModifiedIntegrity,
            ParseError,
        >(m)),
        ModifiedIntegrity::High => assert(ModifiedIntegrity::spec_from_str("H"@) == Ok::<
            ModifiedIntegrity,
            ParseError,
        >(m)),
    }
}

/// Parsing a value's own wire token yields the value back.
pub proof fn lemma_modified_availability_round_trip(m: ModifiedAvailability)
    ensures
        ModifiedAvailability::spec_from_str(m.spec_token()) == Ok::<ModifiedAvailability, ParseError>(m),
{
    reveal_strlit("X");
    reveal_strlit("N");
    reveal_strlit("L");
    reveal_strlit("H");
    assert("X"@.len() == 1 && "X"@[0] == 'X');
    assert("N"@.len() == 1 && "N"@[0] == 'N');
    assert("L"@.len() == 1 && "L"@[0] == 'L');
    assert("H"@.len() == 1 && "H"@[0] == 'H');
    match m {
        ModifiedAvailability::NotDefined => assert(ModifiedAvailability::spec_from_str("X"@) == Ok::<
            ModifiedAvailability,
            ParseError,
        >(m)),
        ModifiedAvailability::Negligible => assert(ModifiedAvailability::spec_from_str("N"@) == Ok::<
            ModifiedAvailability,
            ParseError,
        >(m)),
        ModifiedAvailability::Low => assert(ModifiedAvailability::spec_from_str("L"@) == Ok::<
            ModifiedAvailability,
            ParseError,
        >(m)),
        ModifiedAvailability::High => assert(ModifiedAvailability::spec_from_str("H"@) == Ok::<
            ModifiedAvailability,
            ParseError,
        >(m)),
    }
}

/// The metric name and every wire token are free of the vector and
/// metric delimiters.
pub proof fn lemma_confidentiality_requirement_token_chars(m: ConfidentialityRequirement)
    ensures
        ConfidentialityRequirement::spec_abbrev().len() > 0,
        forall|j: int|
            0 <= j < ConfidentialityRequirement::spec_abbrev().len() ==> ConfidentialityRequirement::spec_abbrev()[j] != '/'
                && ConfidentialityRequirement::spec_abbrev()[j] != ':',
        forall|j: int|
            0 <= j < m.spec_token().len() ==> m.spec_token()[j] != '/' && m.spec_token()[j]
                != ':',
{
    reveal_strlit("CR");
    reveal_strlit("X");
    reveal_strlit("H");
    reveal_strlit("M");
    reveal_strlit("L");
    assert("CR"@.len() == 2 && "CR"@[0] == 'C' && "CR"@[1] == 'R');
    assert("X"@.len() == 1 && "X"@[0] == 'X');
    assert("H"@.len() == 1 && "H"@[0] == 'H');
    assert("M"@.len() == 1 && "M"@[0] == 'M');
    assert("L"@.len() == 1 && "L"@[0] == 'L');
}

/// The metric name and every wire token are free of the vector and
/// metric delimiters.
pub proof fn lemma_integrity_requirement_token_chars(m: IntegrityRequirement)
    ensures
        IntegrityRequirement::spec_abbrev().len() > 0,
        forall|j: int|
            0 <= j < IntegrityRequirement::spec_abbrev().len() ==> IntegrityRequirement::spec_abbrev()[j] != '/'
                && IntegrityRequirement::spec_abbrev()[j] != ':',
        forall|j: int|
            0 <= j < m.spec_token().len() ==> m.spec_token()[j] != '/' && m.spec_token()[j]
                != ':',
{
    reveal_strlit("IR");
    reveal_strlit("X");
    reveal_strlit("H");
    reveal_strlit("M");
    reveal_strlit("L");
    assert("IR"@.len() == 2 && "IR"@[0] == 'I' && "IR"@[1] == 'R');
    assert("X"@.len() == 1 && "X"@[0] == 'X');
    assert("H"@.len() == 1 && "H"@[0] == 'H');
    assert("M"@.len() == 1 && "M"@[0] == 'M');
    assert("L"@.len() == 1 && "L"@[0] == 'L');
}

/// The metric name and every wire token are free of the vector and
/// metric delimiters.
pub proof fn lemma_availability_requirement_token_chars(m: AvailabilityRequirement)
    ensures
        AvailabilityRequirement::spec_abbrev().len() > 0,
        forall|j: int|
            0 <= j < AvailabilityRequirement::spec_abbrev().len() ==> AvailabilityRequirement::spec_abbrev()[j] != '/'
                && AvailabilityRequirement::spec_abbrev()[j] != ':',
        forall|j: int|
            0 <= j < m.spec_token().len() ==> m.spec_token()[j] != '/' && m.spec_token()[j]
                != ':',
{
    reveal_strlit("AR");
    reveal_strlit("X");
    reveal_strlit("H");
    reveal_strlit("M");
    reveal_strlit("L");
    assert("AR"@.len() == 2 && "AR"@[0] == 'A' && "AR"@[1] == 'R');
    assert("X"@.len() == 1 && "X"@[0] == 'X');
    assert("H"@.len() == 1 && "H"@[0] == 'H');
    assert("M"@.len() == 1 && "M"@[0] == 'M');
    assert("L"@.len() == 1 && "L"@[0] == 'L');
}

/// The metric name and every wire token are free of the vector and
/// metric delimiters.
pub proof fn lemma_modified_attack_vector_token_chars(m: ModifiedAttackVector)
    ensures
        ModifiedAttackVector::spec_abbrev().len() > 0,
        forall|j: int|
            0 <= j < ModifiedAttackVector::spec_abbrev().len() ==> ModifiedAttackVector::spec_abbrev()[j] != '/'
                && ModifiedAttackVector::spec_abbrev()[j] != ':',
        forall|j: int|
            0 <= j < m.spec_token().len() ==> m.spec_token()[j] != '/' && m.spec_token()[j]
                != ':',
{
    reveal_strlit("MAV");
    reveal_strlit("X");
    reveal_strlit("N");
    reveal_strlit("A");
    reveal_strlit("L");
    reveal_strlit("P");
    assert("MAV"@.len() == 3 && "MAV"@[0] == 'M' && "MAV"@[1] == 'A' && "MAV"@[2] == 'V');
    assert("X"@.len() == 1 && "X"@[0] == 'X');
    assert("N"@.len() == 1 && "N"@[0] == 'N');
    assert("A"@.len() == 1 && "A"@[0] == 'A');
    assert("L"@.len() == 1 && "L"@[0] == 'L');
    assert("P"@.len() == 1 && "P"@[0] == 'P');
}

/// The metric name and every wire token are free of the vector and
/// metric delimiters.
pub proof fn lemma_modified_attack_complexity_token_chars(m: ModifiedAttackComplexity)
    ensures
        ModifiedAttackComplexity::spec_abbrev().len() > 0,
        forall|j: int|
            0 <= j < ModifiedAttackComplexity::spec_abbrev().len() ==> ModifiedAttackComplexity::spec_abbrev()[j] != '/'
                && ModifiedAttackComplexity::spec_abbrev()[j] != ':',
        forall|j: int|
            0 <= j < m.spec_token().len() ==> m.spec_token()[j] != '/' && m.spec_token()[j]
                != ':',
{
    reveal_strlit("MAC");
    reveal_strlit("X");
    reveal_strlit("L");
    reveal_strlit("H");
    assert("MAC"@.len() == 3 && "MAC"@[0] == 'M' && "MAC"@[1] == 'A' && "MAC"@[2] == 'C');
    assert("X"@.len() == 1 && "X"@[0] == 'X');
    assert("L"@.len() == 1 && "L"@[0] == 'L');
    assert("H"@.len() == 1 && "H"@[0] == 'H');
}

/// The metric name and every wire token are free of the vector and
/// metric delimiters.
pub proof fn lemma_modified_privileges_required_token_chars(m: ModifiedPrivilegesRequired)
    ensures
        ModifiedPrivilegesRequired::spec_abbrev().len() > 0,
        forall|j: int|
            0 <= j < ModifiedPrivilegesRequired::spec_abbrev().len() ==> ModifiedPrivilegesRequired::spec_abbrev()[j] != '/'
                && ModifiedPrivilegesRequired::spec_abbrev()[j] != ':',
        forall|j: int|
            0 <= j < m.spec_token().len() ==> m.spec_token()[j] != '/' && m.spec_token()[j]
                != ':',
{
    reveal_strlit("MPR");
    reveal_strlit("X");
    reveal_strlit("N");
    reveal_strlit("L");
    reveal_strlit("H");
    assert("MPR"@.len() == 3 && "MPR"@[0] == 'M' && "MPR"@[1] == 'P' && "MPR"@[2] == 'R');
    assert("X"@.len() == 1 && "X"@[0] == 'X');
    assert("N"@.len() == 1 && "N"@[0] == 'N');
    assert("L"@.len() == 1 && "L"@[0] == 'L');
    assert("H"@.len() == 1 && "H"@[0] == 'H');
}

} // verus!
