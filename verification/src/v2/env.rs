//! CVSS v2 environmental metrics.

use vstd::prelude::*;

use crate::common::str_eq;
use crate::common::CvssMetric;
use crate::common::Optional;
use crate::common::ParseError;

verus! {

/// Collateral Damage Potential (`CDP`).
#[derive(Clone, Copy, Debug, PartialEq, Eq, Hash, Structural)]
pub enum CollateralDamagePotential {
    Negligible,
    Low,
    LowMedium,
    MediumHigh,
    High,
    NotDefined,
}

impl CvssMetric for CollateralDamagePotential {
    open spec fn spec_abbrev() -> Seq<char> {
        "CDP"@
    }

    open spec fn spec_token(self) -> Seq<char> {
        match self {
            CollateralDamagePotential::Negligible => "N"@,
            CollateralDamagePotential::Low => "L"@,
            CollateralDamagePotential::LowMedium => "LM"@,
            CollateralDamagePotential::MediumHigh => "MH"@,
            CollateralDamagePotential::High => "H"@,
            CollateralDamagePotential::NotDefined => "ND"@,
        }
    }

    open spec fn spec_from_str(s: Seq<char>) -> Result<CollateralDamagePotential, ParseError> {
        if s == "N"@ {
            Ok(CollateralDamagePotential::Negligible)
        } else if s == "L"@ {
            Ok(CollateralDamagePotential::Low)
        } else if s == "LM"@ {
            Ok(CollateralDamagePotential::LowMedium)
        } else if s == "MH"@ {
            Ok(CollateralDamagePotential::MediumHigh)
        } else if s == "H"@ {
            Ok(CollateralDamagePotential::High)
        } else if s == "ND"@ {
            Ok(CollateralDamagePotential::NotDefined)
        } else {
            Err(ParseError::IncorrectValue)
        }
    }

    fn abbreviated_form() -> (r: &'static str) {
        "CDP"
    }

    fn as_str(&self) -> (r: &'static str) {
        match self {
            CollateralDamagePotential::Negligible => "N",
            CollateralDamagePotential::Low => "L",
            CollateralDamagePotential::LowMedium => "LM",
            CollateralDamagePotential::MediumHigh => "MH",
            CollateralDamagePotential::High => "H",
            CollateralDamagePotential::NotDefined => "ND",
        }
    }

    fn from_str(value: &str) -> (r: Result<CollateralDamagePotential, ParseError>) {
        if str_eq(value, "N") {
            Ok(CollateralDamagePotential::Negligible)
        } else if str_eq(value, "L") {
            Ok(CollateralDamagePotential::Low)
        } else if str_eq(value, "LM") {
            Ok(CollateralDamagePotential::LowMedium)
        } else if str_eq(value, "MH") {
            Ok(CollateralDamagePotential::MediumHigh)
        } else if str_eq(value, "H") {
            Ok(CollateralDamagePotential::High)
        } else if str_eq(value, "ND") {
            Ok(CollateralDamagePotential::NotDefined)
        } else {
            Err(ParseError::IncorrectValue)
        }
    }
}

impl Optional for CollateralDamagePotential {
    open spec fn spec_undefined() -> CollateralDamagePotential {
        CollateralDamagePotential::NotDefined
    }

    fn undefined() -> (r: CollateralDamagePotential) {
        CollateralDamagePotential::NotDefined
    }

    fn is_undefined(&self) -> (r: bool) {
        matches!(*self, CollateralDamagePotential::NotDefined)
    }
}

/// Target Distribution (`TD`).
#[derive(Clone, Copy, Debug, PartialEq, Eq, Hash, Structural)]
pub enum TargetDistribution {
    Negligible,
    Low,
    Medium,
    High,
    NotDefined,
}

impl CvssMetric for TargetDistribution {
    open spec fn spec_abbrev() -> Seq<char> {
        "TD"@
    }

    open spec fn spec_token(self) -> Seq<char> {
        match self {
            TargetDistribution::Negligible => "N"@,
            TargetDistribution::Low => "L"@,
            TargetDistribution::Medium => "M"@,
            TargetDistribution::High => "H"@,
            TargetDistribution::NotDefined => "ND"@,
        }
    }

    open spec fn spec_from_str(s: Seq<char>) -> Result<TargetDistribution, ParseError> {
        if s == "N"@ {
            Ok(TargetDistribution::Negligible)
        } else if s == "L"@ {
            Ok(TargetDistribution::Low)
        } else if s == "M"@ {
            Ok(TargetDistribution::Medium)
        } else if s == "H"@ {
            Ok(TargetDistribution::High)
        } else if s == "ND"@ {
            Ok(TargetDistribution::NotDefined)
        } else {
            Err(ParseError::IncorrectValue)
        }
    }

    fn abbreviated_form() -> (r: &'static str) {
        "TD"
    }

    fn as_str(&self) -> (r: &'static str) {
        match self {
            TargetDistribution::Negligible => "N",
            TargetDistribution::Low => "L",
            TargetDistribution::Medium => "M",
            TargetDistribution::High => "H",
            TargetDistribution::NotDefined => "ND",
        }
    }

    fn from_str(value: &str) -> (r: Result<TargetDistribution, ParseError>) {
        if str_eq(value, "N") {
            Ok(TargetDistribution::Negligible)
        } else if str_eq(value, "L") {
            Ok(TargetDistribution::Low)
        } else if str_eq(value, "M") {
            Ok(TargetDistribution::Medium)
        } else if str_eq(value, "H") {
            Ok(TargetDistribution::High)
        } else if str_eq(value, "ND") {
            Ok(TargetDistribution::NotDefined)
        } else {
            Err(ParseError::IncorrectValue)
        }
    }
}

impl Optional for TargetDistribution {
    open spec fn spec_undefined() -> TargetDistribution {
        TargetDistribution::NotDefined
    }

    fn undefined() -> (r: TargetDistribution) {
        TargetDistribution::NotDefined
    }

    fn is_undefined(&self) -> (r: bool) {
        matches!(*self, TargetDistribution::NotDefined)
    }
}

/// Confidentiality Requirement (`CR`).
#[derive(Clone, Copy, Debug, PartialEq, Eq, Hash, Structural)]
pub enum ConfidentialityRequirement {
    NotDefined,
    High,
    Medium,
    Low,
}

impl CvssMetric for ConfidentialityRequirement {
    open spec fn spec_abbrev() -> Seq<char> {
        "CR"@
    }

    open spec fn spec_token(self) -> Seq<char> {
        match self {
            ConfidentialityRequirement::NotDefined => "ND"@,
            ConfidentialityRequirement::High => "H"@,
            ConfidentialityRequirement::Medium => "M"@,
            ConfidentialityRequirement::Low => "L"@,
        }
    }

    open spec fn spec_from_str(s: Seq<char>) -> Result<ConfidentialityRequirement, ParseError> {
        if s == "ND"@ {
            Ok(ConfidentialityRequirement::NotDefined)
        } else if s == "H"@ {
            Ok(ConfidentialityRequirement::High)
        } else if s == "M"@ {
            Ok(ConfidentialityRequirement::Medium)
        } else if s == "L"@ {
            Ok(ConfidentialityRequirement::Low)
        } else {
            Err(ParseError::IncorrectValue)
        }
    }

    fn abbreviated_form() -> (r: &'static str) {
        "CR"
    }

    fn as_str(&self) -> (r: &'static str) {
        match self {
            ConfidentialityRequirement::NotDefined => "ND",
            ConfidentialityRequirement::High => "H",
            ConfidentialityRequirement::Medium => "M",
            ConfidentialityRequirement::Low => "L",
        }
    }

    fn from_str(value: &str) -> (r: Result<ConfidentialityRequirement, ParseError>) {
        if str_eq(value, "ND") {
            Ok(ConfidentialityRequirement::NotDefined)
        } else if str_eq(value, "H") {
            Ok(ConfidentialityRequirement::High)
        } else if str_eq(value, "M") {
            Ok(ConfidentialityRequirement::Medium)
        } else if str_eq(value, "L") {
            Ok(ConfidentialityRequirement::Low)
        } else {
            Err(ParseError::IncorrectValue)
        }
    }
}

impl Optional for ConfidentialityRequirement {
    open spec fn spec_undefined() -> ConfidentialityRequirement {
        ConfidentialityRequirement::NotDefined
    }

    fn undefined() -> (r: ConfidentialityRequirement) {
        ConfidentialityRequirement::NotDefined
    }

    fn is_undefined(&self) -> (r: bool) {
        matches!(*self, ConfidentialityRequirement::NotDefined)
    }
}

/// Integrity Requirement (`IR`).
#[derive(Clone, Copy, Debug, PartialEq, Eq, Hash, Structural)]
pub enum IntegrityRequirement {
    NotDefined,
    High,
    Medium,
    Low,
}

impl CvssMetric for IntegrityRequirement {
    open spec fn spec_abbrev() -> Seq<char> {
        "IR"@
    }

    open spec fn spec_token(self) -> Seq<char> {
        match self {
            IntegrityRequirement::NotDefined => "ND"@,
            IntegrityRequirement::High => "H"@,
            IntegrityRequirement::Medium => "M"@,
            IntegrityRequirement::Low => "L"@,
        }
    }

    open spec fn spec_from_str(s: Seq<char>) -> Result<IntegrityRequirement, ParseError> {
        if s == "ND"@ {
            Ok(IntegrityRequirement::NotDefined)
        } else if s == "H"@ {
            Ok(IntegrityRequirement::High)
        } else if s == "M"@ {
            Ok(IntegrityRequirement::Medium)
        } else if s == "L"@ {
            Ok(IntegrityRequirement::Low)
        } else {
            Err(ParseError::IncorrectValue)
        }
    }

    fn abbreviated_form() -> (r: &'static str) {
        "IR"
    }

    fn as_str(&self) -> (r: &'static str) {
        match self {
            IntegrityRequirement::NotDefined => "ND",
            IntegrityRequirement::High => "H",
            IntegrityRequirement::Medium => "M",
            IntegrityRequirement::Low => "L",
        }
    }

    fn from_str(value: &str) -> (r: Result<IntegrityRequirement, ParseError>) {
        if str_eq(value, "ND") {
            Ok(IntegrityRequirement::NotDefined)
        } else if str_eq(value, "H") {
            Ok(IntegrityRequirement::High)
        } else if str_eq(value, "M") {
            Ok(IntegrityRequirement::Medium)
        } else if str_eq(value, "L") {
            Ok(IntegrityRequirement::Low)
        } else {
            Err(ParseError::IncorrectValue)
        }
    }
}

impl Optional for IntegrityRequirement {
    open spec fn spec_undefined() -> IntegrityRequirement {
        IntegrityRequirement::NotDefined
    }

    fn undefined() -> (r: IntegrityRequirement) {
        IntegrityRequirement::NotDefined
    }

    fn is_undefined(&self) -> (r: bool) {
        matches!(*self, IntegrityRequirement::NotDefined)
    }
}

/// Availability Requirement (`AR`).
#[derive(Clone, Copy, Debug, PartialEq, Eq, Hash, Structural)]
pub enum AvailabilityRequirement {
    NotDefined,
    High,
    Medium,
    Low,
}

impl CvssMetric for AvailabilityRequirement {
    open spec fn spec_abbrev() -> Seq<char> {
        "AR"@
    }

    open spec fn spec_token(self) -> Seq<char> {
        match self {
            AvailabilityRequirement::NotDefined => "ND"@,
            AvailabilityRequirement::High => "H"@,
            AvailabilityRequirement::Medium => "M"@,
            AvailabilityRequirement::Low => "L"@,
        }
    }

    open spec fn spec_from_str(s: Seq<char>) -> Result<AvailabilityRequirement, ParseError> {
        if s == "ND"@ {
            Ok(AvailabilityRequirement::NotDefined)
        } else if s == "H"@ {
            Ok(AvailabilityRequirement::High)
        } else if s == "M"@ {
            Ok(AvailabilityRequirement::Medium)
        } else if s == "L"@ {
            Ok(AvailabilityRequirement::Low)
        } else {
            Err(ParseError::IncorrectValue)
        }
    }

    fn abbreviated_form() -> (r: &'static str) {
        "AR"
    }

    fn as_str(&self) -> (r: &'static str) {
        match self {
            AvailabilityRequirement::NotDefined => "ND",
            AvailabilityRequirement::High => "H",
            AvailabilityRequirement::Medium => "M",
            AvailabilityRequirement::Low => "L",
        }
    }

    fn from_str(value: &str) -> (r: Result<AvailabilityRequirement, ParseError>) {
        if str_eq(value, "ND") {
            Ok(AvailabilityRequirement::NotDefined)
        } else if str_eq(value, "H") {
            Ok(AvailabilityRequirement::High)
        } else if str_eq(value, "M") {
            Ok(AvailabilityRequirement::Medium)
        } else if str_eq(value, "L") {
            Ok(AvailabilityRequirement::Low)
        } else {
            Err(ParseError::IncorrectValue)
        }
    }
}

impl Optional for AvailabilityRequirement {
    open spec fn spec_undefined() -> AvailabilityRequirement {
        AvailabilityRequirement::NotDefined
    }

    fn undefined() -> (r: AvailabilityRequirement) {
        AvailabilityRequirement::NotDefined
    }

    fn is_undefined(&self) -> (r: bool) {
        matches!(*self, AvailabilityRequirement::NotDefined)
    }
}
/// Parsing a value's own wire token yields the value back.
pub proof fn lemma_collateral_damage_potential_round_trip(m: CollateralDamagePotential)
    ensures
        CollateralDamagePotential::spec_from_str(m.spec_token()) == Ok::<CollateralDamagePotential, ParseError>(m),
{
    reveal_strlit("N");
    reveal_strlit("L");
    reveal_strlit("LM");
    reveal_strlit("MH");
    reveal_strlit("H");
    reveal_strlit("ND");
    assert("N"@.len() == 1 && "N"@[0] == 'N');
    assert("L"@.len() == 1 && "L"@[0] == 'L');
    assert("LM"@.len() == 2 && "LM"@[0] == 'L' && "LM"@[1] == 'M');
    assert("MH"@.len() == 2 && "MH"@[0] == 'M' && "MH"@[1] == 'H');
    assert("H"@.len() == 1 && "H"@[0] == 'H');
    assert("ND"@.len() == 2 && "ND"@[0] == 'N' && "ND"@[1] == 'D');
    match m {
        CollateralDamagePotential::Negligible => assert(CollateralDamagePotential::spec_from_str("N"@) == Ok::<
            CollateralDamagePotential,
            ParseError,
        >(m)),
        CollateralDamagePotential::Low => assert(CollateralDamagePotential::spec_from_str("L"@) == Ok::<
            CollateralDamagePotential,
            ParseError,
        >(m)),
        CollateralDamagePotential::LowMedium => assert(CollateralDamagePotential::spec_from_str("LM"@) == Ok::<
            CollateralDamagePotential,
            ParseError,
        >(m)),
        CollateralDamagePotential::MediumHigh => assert(CollateralDamagePotential::spec_from_str("MH"@) == Ok::<
            CollateralDamagePotential,
            ParseError,
        >(m)),
        CollateralDamagePotential::High => assert(CollateralDamagePotential::spec_from_str("H"@) == Ok::<
            CollateralDamagePotential,
            ParseError,
        >(m)),
        CollateralDamagePotential::NotDefined => assert(CollateralDamagePotential::spec_from_str("ND"@) == Ok::<
            CollateralDamagePotential,
            ParseError,
        >(m)),
    }
}

/// Parsing a value's own wire token yields the value back.
pub proof fn lemma_target_distribution_round_trip(m: TargetDistribution)
    ensures
        TargetDistribution::spec_from_str(m.spec_token()) == Ok::<TargetDistribution, ParseError>(m),
{
    reveal_strlit("N");
    reveal_strlit("L");
    reveal_strlit("M");
    reveal_strlit("H");
    reveal_strlit("ND");
    assert("N"@.len() == 1 && "N"@[0] == 'N');
    assert("L"@.len() == 1 && "L"@[0] == 'L');
    assert("M"@.len() == 1 && "M"@[0] == 'M');
    assert("H"@.len() == 1 && "H"@[0] == 'H');
    assert("ND"@.len() == 2 && "ND"@[0] == 'N' && "ND"@[1] == 'D');
    match m {
        TargetDistribution::Negligible => assert(TargetDistribution::spec_from_str("N"@) == Ok::<
            TargetDistribution,
            ParseError,
        >(m)),
        TargetDistribution::Low => assert(TargetDistribution::spec_from_str("L"@) == Ok::<
            TargetDistribution,
            ParseError,
        >(m)),
        TargetDistribution::Medium => assert(TargetDistribution::spec_from_str("M"@) == Ok::<
            TargetDistribution,
            ParseError,
        >(m)),
        TargetDistribution::High => assert(TargetDistribution::spec_from_str("H"@) == Ok::<
            TargetDistribution,
            ParseError,
        >(m)),
        TargetDistribution::NotDefined => assert(TargetDistribution::spec_from_str("ND"@) == Ok::<
            TargetDistribution,
            ParseError,
        >(m)),
    }
}

/// Parsing a value's own wire token yields the value back.
pub proof fn lemma_confidentiality_requirement_round_trip(m: ConfidentialityRequirement)
    ensures
        ConfidentialityRequirement::spec_from_str(m.spec_token()) == Ok::<ConfidentialityRequirement, ParseError>(m),
{
    reveal_strlit("ND");
    reveal_strlit("H");
    reveal_strlit("M");
    reveal_strlit("L");
    assert("ND"@.len() == 2 && "ND"@[0] == 'N' && "ND"@[1] == 'D');
    assert("H"@.len() == 1 && "H"@[0] == 'H');
    assert("M"@.len() == 1 && "M"@[0] == 'M');
    assert("L"@.len() == 1 && "L"@[0] == 'L');
    match m {
        ConfidentialityRequirement::NotDefined => assert(ConfidentialityRequirement::spec_from_str("ND"@) == Ok::<
            ConfidentialityRequirement,
            ParseError,
        >(m)),
        ConfidentialityRequirement::High => assert(ConfidentialityRequirement::spec_from_str("H"@) == Ok::<
            ConfidentialityRequirement,
            ParseError,
        >(m)),
        ConfidentialityRequirement::Medium => assert(ConfidentialityRequirement::spec_from_str("M"@) == Ok::<
            ConfidentialityRequirement,
            ParseError,
        >(m)),
        ConfidentialityRequirement::Low => assert(ConfidentialityRequirement::spec_from_str("L"@) == Ok::<
            ConfidentialityRequirement,
            ParseError,
        >(m)),
    }
}

/// Parsing a value's own wire token yields the value back.
pub proof fn lemma_integrity_requirement_round_trip(m: IntegrityRequirement)
    ensures
        IntegrityRequirement::spec_from_str(m.spec_token()) == Ok::<IntegrityRequirement, ParseError>(m),
{
    reveal_strlit("ND");
    reveal_strlit("H");
    reveal_strlit("M");
    reveal_strlit("L");
    assert("ND"@.len() == 2 && "ND"@[0] == 'N' && "ND"@[1] == 'D');
    assert("H"@.len() == 1 && "H"@[0] == 'H');
    assert("M"@.len() == 1 && "M"@[0] == 'M');
    assert("L"@.len() == 1 && "L"@[0] == 'L');
    match m {
        IntegrityRequirement::NotDefined => assert(IntegrityRequirement::spec_from_str("ND"@) == Ok::<
            IntegrityRequirement,
            ParseError,
        >(m)),
        IntegrityRequirement::High => assert(IntegrityRequirement::spec_from_str("H"@) == Ok::<
            IntegrityRequirement,
            ParseError,
        >(m)),
        IntegrityRequirement::Medium => assert(IntegrityRequirement::spec_from_str("M"@) == Ok::<
            IntegrityRequirement,
            ParseError,
        >(m)),
        IntegrityRequirement::Low => assert(IntegrityRequirement::spec_from_str("L"@) == Ok::<
            IntegrityRequirement,
            ParseError,
        >(m)),
    }
}

/// Parsing a value's own wire token yields the value back.
pub proof fn lemma_availability_requirement_round_trip(m: AvailabilityRequirement)
    ensures
        AvailabilityRequirement::spec_from_str(m.spec_token()) == Ok::<AvailabilityRequirement, ParseError>(m),
{
    reveal_strlit("ND");
    reveal_strlit("H");
    reveal_strlit("M");
    reveal_strlit("L");
    assert("ND"@.len() == 2 && "ND"@[0] == 'N' && "ND"@[1] == 'D');
    assert("H"@.len() == 1 && "H"@[0] == 'H');
    assert("M"@.len() == 1 && "M"@[0] == 'M');
    assert("L"@.len() == 1 && "L"@[0] == 'L');
    match m {
        AvailabilityRequirement::NotDefined => assert(AvailabilityRequirement::spec_from_str("ND"@) == Ok::<
            AvailabilityRequirement,
            ParseError,
        >(m)),
        AvailabilityRequirement::High => assert(AvailabilityRequirement::spec_from_str("H"@) == Ok::<
            AvailabilityRequirement,
            ParseError,
        >(m)),
        AvailabilityRequirement::Medium => assert(AvailabilityRequirement::spec_from_str("M"@) == Ok::<
            AvailabilityRequirement,
            ParseError,
        >(m)),
        AvailabilityRequirement::Low => assert(AvailabilityRequirement::spec_from_str("L"@) == Ok::<
            AvailabilityRequirement,
            ParseError,
        >(m)),
    }
}

} // verus!
