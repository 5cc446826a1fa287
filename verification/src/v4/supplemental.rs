//! CVSS v4 supplemental metrics.

use vstd::prelude::*;

use crate::common::str_eq;
use crate::common::CvssMetric;
use crate::common::Optional;
use crate::common::ParseError;

verus! {

/// Safety (`S`).
#[derive(Clone, Copy, Debug, PartialEq, Eq, Hash, Structural)]
pub enum Safety {
    NotDefined,
    Present,
    Negligible,
}

impl CvssMetric for Safety {
    open spec fn spec_abbrev() -> Seq<char> {
        "S"@
    }

    open spec fn spec_token(self) -> Seq<char> {
        match self {
            Safety::NotDefined => "X"@,
            Safety::Present => "P"@,
            Safety::Negligible => "N"@,
        }
    }

    open spec fn spec_from_str(s: Seq<char>) -> Result<Safety, ParseError> {
        if s == "X"@ {
            Ok(Safety::NotDefined)
        } else if s == "P"@ {
            Ok(Safety::Present)
        } else if s == "N"@ {
            Ok(Safety::Negligible)
        } else {
            Err(ParseError::IncorrectValue)
        }
    }

    fn abbreviated_form() -> (r: &'static str) {
        "S"
    }

    fn as_str(&self) -> (r: &'static str) {
        match self {
            Safety::NotDefined => "X",
            Safety::Present => "P",
            Safety::Negligible => "N",
        }
    }

    fn from_str(value: &str) -> (r: Result<Safety, ParseError>) {
        if str_eq(value, "X") {
            Ok(Safety::NotDefined)
        } else if str_eq(value, "P") {
            Ok(Safety::Present)
        } else if str_eq(value, "N") {
            Ok(Safety::Negligible)
        } else {
            Err(ParseError::IncorrectValue)
        }
    }
}

impl Optional for Safety {
    open spec fn spec_undefined() -> Safety {
        Safety::NotDefined
    }

    fn undefined() -> (r: Safety) {
        Safety::NotDefined
    }

    fn is_undefined(&self) -> (r: bool) {
        matches!(*self, Safety::NotDefined)
    }
}

/// Automatable (`AU`).
#[derive(Clone, Copy, Debug, PartialEq, Eq, Hash, Structural)]
pub enum Automatable {
    NotDefined,
    No,
    Yes,
}

impl CvssMetric for Automatable {
    open spec fn spec_abbrev() -> Seq<char> {
        "AU"@
    }

    open spec fn spec_token(self) -> Seq<char> {
        match self {
            Automatable::NotDefined => "X"@,
            Automatable::No => "N"@,
            Automatable::Yes => "Y"@,
        }
    }

    open spec fn spec_from_str(s: Seq<char>) -> Result<Automatable, ParseError> {
        if s == "X"@ {
            Ok(Automatable::NotDefined)
        } else if s == "N"@ {
            Ok(Automatable::No)
        } else if s == "Y"@ {
            Ok(Automatable::Yes)
        } else {
            Err(ParseError::IncorrectValue)
        }
    }

    fn abbreviated_form() -> (r: &'static str) {
        "AU"
    }

    fn as_str(&self) -> (r: &'static str) {
        match self {
            Automatable::NotDefined => "X",
            Automatable::No => "N",
            Automatable::Yes => "Y",
        }
    }

    fn from_str(value: &str) -> (r: Result<Automatable, ParseError>) {
        if str_eq(value, "X") {
            Ok(Automatable::NotDefined)
        } else if str_eq(value, "N") {
            Ok(Automatable::No)
        } else if str_eq(value, "Y") {
            Ok(Automatable::Yes)
        } else {
            Err(ParseError::IncorrectValue)
        }
    }
}

impl Optional for Automatable {
    open spec fn spec_undefined() -> Automatable {
        Automatable::NotDefined
    }

    fn undefined() -> (r: Automatable) {
        Automatable::NotDefined
    }

    fn is_undefined(&self) -> (r: bool) {
        matches!(*self, Automatable::NotDefined)
    }
}

/// Provider Urgency (`U`).
#[derive(Clone, Copy, Debug, PartialEq, Eq, Hash, Structural)]
pub enum ProviderUrgency {
    NotDefined,
    Red,
    Amber,
    Green,
    Clear,
}

impl CvssMetric for ProviderUrgency {
    open spec fn spec_abbrev() -> Seq<char> {
        "U"@
    }

    open spec fn spec_token(self) -> Seq<char> {
        match self {
            ProviderUrgency::NotDefined => "X"@,
            ProviderUrgency::Red => "Red"@,
            ProviderUrgency::Amber => "Amber"@,
            ProviderUrgency::Green => "Green"@,
            ProviderUrgency::Clear => "Clear"@,
        }
    }

    open spec fn spec_from_str(s: Seq<char>) -> Result<ProviderUrgency, ParseError> {
        if s == "X"@ {
            Ok(ProviderUrgency::NotDefined)
        } else if s == "Red"@ {
            Ok(ProviderUrgency::Red)
        } else if s == "Amber"@ {
            Ok(ProviderUrgency::Amber)
        } else if s == "Green"@ {
            Ok(ProviderUrgency::Green)
        } else if s == "Clear"@ {
            Ok(ProviderUrgency::Clear)
        } else {
            Err(ParseError::IncorrectValue)
        }
    }

    fn abbreviated_form() -> (r: &'static str) {
        "U"
    }

    fn as_str(&self) -> (r: &'static str) {
        match self {
            ProviderUrgency::NotDefined => "X",
            ProviderUrgency::Red => "Red",
            ProviderUrgency::Amber => "Amber",
            ProviderUrgency::Green => "Green",
            ProviderUrgency::Clear => "Clear",
        }
    }

    fn from_str(value: &str) -> (r: Result<ProviderUrgency, ParseError>) {
        if str_eq(value, "X") {
            Ok(ProviderUrgency::NotDefined)
        } else if str_eq(value, "Red") {
            Ok(ProviderUrgency::Red)
        } else if str_eq(value, "Amber") {
            Ok(ProviderUrgency::Amber)
        } else if str_eq(value, "Green") {
            Ok(ProviderUrgency::Green)
        } else if str_eq(value, "Clear") {
            Ok(ProviderUrgency::Clear)
        } else {
            Err(ParseError::IncorrectValue)
        }
    }
}

impl Optional for ProviderUrgency {
    open spec fn spec_undefined() -> ProviderUrgency {
        ProviderUrgency::NotDefined
    }

    fn undefined() -> (r: ProviderUrgency) {
        ProviderUrgency::NotDefined
    }

    fn is_undefined(&self) -> (r: bool) {
        matches!(*self, ProviderUrgency::NotDefined)
    }
}

/// Recovery (`R`).
#[derive(Clone, Copy, Debug, PartialEq, Eq, Hash, Structural)]
pub enum Recovery {
    NotDefined,
    Automatic,
    User,
    Irrecoverable,
}

impl CvssMetric for Recovery {
    open spec fn spec_abbrev() -> Seq<char> {
        "R"@
    }

    open spec fn spec_token(self) -> Seq<char> {
        match self {
            Recovery::NotDefined => "X"@,
            Recovery::Automatic => "A"@,
            Recovery::User => "U"@,
            Recovery::Irrecoverable => "I"@,
        }
    }

    open spec fn spec_from_str(s: Seq<char>) -> Result<Recovery, ParseError> {
        if s == "X"@ {
            Ok(Recovery::NotDefined)
        } else if s == "A"@ {
            Ok(Recovery::Automatic)
        } else if s == "U"@ {
            Ok(Recovery::User)
        } else if s == "I"@ {
            Ok(Recovery::Irrecoverable)
        } else {
            Err(ParseError::IncorrectValue)
        }
    }

    fn abbreviated_form() -> (r: &'static str) {
        "R"
    }

    fn as_str(&self) -> (r: &'static str) {
        match self {
            Recovery::NotDefined => "X",
            Recovery::Automatic => "A",
            Recovery::User => "U",
            Recovery::Irrecoverable => "I",
        }
    }

    fn from_str(value: &str) -> (r: Result<Recovery, ParseError>) {
        if str_eq(value, "X") {
            Ok(Recovery::NotDefined)
        } else if str_eq(value, "A") {
            Ok(Recovery::Automatic)
        } else if str_eq(value, "U") {
            Ok(Recovery::User)
        } else if str_eq(value, "I") {
            Ok(Recovery::Irrecoverable)
        } else {
            Err(ParseError::IncorrectValue)
        }
    }
}

impl Optional for Recovery {
    open spec fn spec_undefined() -> Recovery {
        Recovery::NotDefined
    }

    fn undefined() -> (r: Recovery) {
        Recovery::NotDefined
    }

    fn is_undefined(&self) -> (r: bool) {
        matches!(*self, Recovery::NotDefined)
    }
}

/// Value Density (`V`).
#[derive(Clone, Copy, Debug, PartialEq, Eq, Hash, Structural)]
pub enum ValueDensity {
    NotDefined,
    Diffuse,
    Concentrated,
}

impl CvssMetric for ValueDensity {
    open spec fn spec_abbrev() -> Seq<char> {
        "V"@
    }

    open spec fn spec_token(self) -> Seq<char> {
        match self {
            ValueDensity::NotDefined => "X"@,
            ValueDensity::Diffuse => "D"@,
            ValueDensity::Concentrated => "C"@,
        }
    }

    open spec fn spec_from_str(s: Seq<char>) -> Result<ValueDensity, ParseError> {
        if s == "X"@ {
            Ok(ValueDensity::NotDefined)
        } else if s == "D"@ {
            Ok(ValueDensity::Diffuse)
        } else if s == "C"@ {
            Ok(ValueDensity::Concentrated)
        } else {
            Err(ParseError::IncorrectValue)
        }
    }

    fn abbreviated_form() -> (r: &'static str) {
        "V"
    }

    fn as_str(&self) -> (r: &'static str) {
        match self {
            ValueDensity::NotDefined => "X",
            ValueDensity::Diffuse => "D",
            ValueDensity::Concentrated => "C",
        }
    }

    fn from_str(value: &str) -> (r: Result<ValueDensity, ParseError>) {
        if str_eq(value, "X") {
            Ok(ValueDensity::NotDefined)
        } else if str_eq(value, "D") {
            Ok(ValueDensity::Diffuse)
        } else if str_eq(value, "C") {
            Ok(ValueDensity::Concentrated)
        } else {
            Err(ParseError::IncorrectValue)
        }
    }
}

impl Optional for ValueDensity {
    open spec fn spec_undefined() -> ValueDensity {
        ValueDensity::NotDefined
    }

    fn undefined() -> (r: ValueDensity) {
        ValueDensity::NotDefined
    }

    fn is_undefined(&self) -> (r: bool) {
        matches!(*self, ValueDensity::NotDefined)
    }
}

/// Vulnerability Response Effort (`RE`).
#[derive(Clone, Copy, Debug, PartialEq, Eq, Hash, Structural)]
pub enum VulnerabilityResponseEffort {
    NotDefined,
    Low,
    Moderate,
    High,
}

impl CvssMetric for VulnerabilityResponseEffort {
    open spec fn spec_abbrev() -> Seq<char> {
        "RE"@
    }

    open spec fn spec_token(self) -> Seq<char> {
        match self {
            VulnerabilityResponseEffort::NotDefined => "X"@,
            VulnerabilityResponseEffort::Low => "L"@,
            VulnerabilityResponseEffort::Moderate => "M"@,
            VulnerabilityResponseEffort::High => "H"@,
        }
    }

    open spec fn spec_from_str(s: Seq<char>) -> Result<VulnerabilityResponseEffort, ParseError> {
        if s == "X"@ {
            Ok(VulnerabilityResponseEffort::NotDefined)
        } else if s == "L"@ {
            Ok(VulnerabilityResponseEffort::Low)
        } else if s == "M"@ {
            Ok(VulnerabilityResponseEffort::Moderate)
        } else if s == "H"@ {
            Ok(VulnerabilityResponseEffort::High)
        } else {
            Err(ParseError::IncorrectValue)
        }
    }

    fn abbreviated_form() -> (r: &'static str) {
        "RE"
    }

    fn as_str(&self) -> (r: &'static str) {
        match self {
            VulnerabilityResponseEffort::NotDefined => "X",
            VulnerabilityResponseEffort::Low => "L",
            VulnerabilityResponseEffort::Moderate => "M",
            VulnerabilityResponseEffort::High => "H",
        }
    }

    fn from_str(value: &str) -> (r: Result<VulnerabilityResponseEffort, ParseError>) {
        if str_eq(value, "X") {
            Ok(VulnerabilityResponseEffort::NotDefined)
        } else if str_eq(value, "L") {
            Ok(VulnerabilityResponseEffort::Low)
        } else if str_eq(value, "M") {
            Ok(VulnerabilityResponseEffort::Moderate)
        } else if str_eq(value, "H") {
            Ok(VulnerabilityResponseEffort::High)
        } else {
            Err(ParseError::IncorrectValue)
        }
    }
}

impl Optional for VulnerabilityResponseEffort {
    open spec fn spec_undefined() -> VulnerabilityResponseEffort {
        VulnerabilityResponseEffort::NotDefined
    }

    fn undefined() -> (r: VulnerabilityResponseEffort) {
        VulnerabilityResponseEffort::NotDefined
    }

    fn is_undefined(&self) -> (r: bool) {
        matches!(*self, VulnerabilityResponseEffort::NotDefined)
    }
}
/// Parsing a value's own wire token yields the value back.
pub proof fn lemma_safety_round_trip(m: Safety)
    ensures
        Safety::spec_from_str(m.spec_token()) == Ok::<Safety, ParseError>(m),
{
    reveal_strlit("X");
    reveal_strlit("P");
    reveal_strlit("N");
    assert("X"@.len() == 1 && "X"@[0] == 'X');
    assert("P"@.len() == 1 && "P"@[0] == 'P');
    assert("N"@.len() == 1 && "N"@[0] == 'N');
    match m {
        Safety::NotDefined => assert(Safety::spec_from_str("X"@) == Ok::<
            Safety,
            ParseError,
        >(m)),
        Safety::Present => assert(Safety::spec_from_str("P"@) == Ok::<
            Safety,
            ParseError,
        >(m)),
        Safety::Negligible => assert(Safety::spec_from_str("N"@) == Ok::<
            Safety,
            ParseError,
        >(m)),
    }
}

/// Parsing a value's own wire token yields the value back.
pub proof fn lemma_automatable_round_trip(m: Automatable)
    ensures
        Automatable::spec_from_str(m.spec_token()) == Ok::<Automatable, ParseError>(m),
{
    reveal_strlit("X");
    reveal_strlit("N");
    reveal_strlit("Y");
    assert("X"@.len() == 1 && "X"@[0] == 'X');
    assert("N"@.len() == 1 && "N"@[0] == 'N');
    assert("Y"@.len() == 1 && "Y"@[0] == 'Y');
    match m {
        Automatable::NotDefined => assert(Automatable::spec_from_str("X"@) == Ok::<
            Automatable,
            ParseError,
        >(m)),
        Automatable::No => assert(Automatable::spec_from_str("N"@) == Ok::<
            Automatable,
            ParseError,
        >(m)),
        Automatable::Yes => assert(Automatable::spec_from_str("Y"@) == Ok::<
            Automatable,
            ParseError,
        >(m)),
    }
}

/// Parsing a value's own wire token yields the value back.
pub proof fn lemma_provider_urgency_round_trip(m: ProviderUrgency)
    ensures
        ProviderUrgency::spec_from_str(m.spec_token()) == Ok::<ProviderUrgency, ParseError>(m),
{
    reveal_strlit("X");
    reveal_strlit("Red");
    reveal_strlit("Amber");
    reveal_strlit("Green");
    reveal_strlit("Clear");
    assert("X"@.len() == 1 && "X"@[0] == 'X');
    assert("Red"@.len() == 3 && "Red"@[0] == 'R' && "Red"@[1] == 'e' && "Red"@[2] == 'd');
    assert("Amber"@.len() == 5 && "Amber"@[0] == 'A' && "Amber"@[1] == 'm' && "Amber"@[2] == 'b' && "Amber"@[3] == 'e' && "Amber"@[4] == 'r');
    assert("Green"@.len() == 5 && "Green"@[0] == 'G' && "Green"@[1] == 'r' && "Green"@[2] == 'e' && "Green"@[3] == 'e' && "Green"@[4] == 'n');
    assert("Clear"@.len() == 5 && "Clear"@[0] == 'C' && "Clear"@[1] == 'l' && "Clear"@[2] == 'e' && "Clear"@[3] == 'a' && "Clear"@[4] == 'r');
    match m {
        ProviderUrgency::NotDefined => assert(ProviderUrgency::spec_from_str("X"@) == Ok::<
            ProviderUrgency,
            ParseError,
        >(m)),
        ProviderUrgency::Red => assert(ProviderUrgency::spec_from_str("Red"@) == Ok::<
            ProviderUrgency,
            ParseError,
        >(m)),
        ProviderUrgency::Amber => assert(ProviderUrgency::spec_from_str("Amber"@) == Ok::<
            ProviderUrgency,
            ParseError,
        >(m)),
        ProviderUrgency::Green => assert(ProviderUrgency::spec_from_str("Green"@) == Ok::<
            ProviderUrgency,
            ParseError,
        >(m)),
        ProviderUrgency::Clear => assert(ProviderUrgency::spec_from_str("Clear"@) == Ok::<
            ProviderUrgency,
            ParseError,
        >(m)),
    }
}

/// Parsing a value's own wire token yields the value back.
pub proof fn lemma_recovery_round_trip(m: Recovery)
    ensures
        Recovery::spec_from_str(m.spec_token()) == Ok::<Recovery, ParseError>(m),
{
    reveal_strlit("X");
    reveal_strlit("A");
    reveal_strlit("U");
    reveal_strlit("I");
    assert("X"@.len() == 1 && "X"@[0] == 'X');
    assert("A"@.len() == 1 && "A"@[0] == 'A');
    assert("U"@.len() == 1 && "U"@[0] == 'U');
    assert("I"@.len() == 1 && "I"@[0] == 'I');
    match m {
        Recovery::NotDefined => assert(Recovery::spec_from_str("X"@) == Ok::<
            Recovery,
            ParseError,
        >(m)),
        Recovery::Automatic => assert(Recovery::spec_from_str("A"@) == Ok::<
            Recovery,
            ParseError,
        >(m)),
        Recovery::User => assert(Recovery::spec_from_str("U"@) == Ok::<
            Recovery,
            ParseError,
        >(m)),
        Recovery::Irrecoverable => assert(Recovery::spec_from_str("I"@) == Ok::<
            Recovery,
            ParseError,
        >(m)),
    }
}

/// Parsing a value's own wire token yields the value back.
pub proof fn lemma_value_density_round_trip(m: ValueDensity)
    ensures
        ValueDensity::spec_from_str(m.spec_token()) == Ok::<ValueDensity, ParseError>(m),
{
    reveal_strlit("X");
    reveal_strlit("D");
    reveal_strlit("C");
    assert("X"@.len() == 1 && "X"@[0] == 'X');
    assert("D"@.len() == 1 && "D"@[0] == 'D');
    assert("C"@.len() == 1 && "C"@[0] == 'C');
    match m {
        ValueDensity::NotDefined => assert(ValueDensity::spec_from_str("X"@) == Ok::<
            ValueDensity,
            ParseError,
        >(m)),
        ValueDensity::Diffuse => assert(ValueDensity::spec_from_str("D"@) == Ok::<
            ValueDensity,
            ParseError,
        >(m)),
        ValueDensity::Concentrated => assert(ValueDensity::spec_from_str("C"@) == Ok::<
            ValueDensity,
            ParseError,
        >(m)),
    }
}

/// Parsing a value's own wire token yields the value back.
pub proof fn lemma_vulnerability_response_effort_round_trip(m: VulnerabilityResponseEffort)
    ensures
        VulnerabilityResponseEffort::spec_from_str(m.spec_token()) == Ok::<VulnerabilityResponseEffort, ParseError>(m),
{
    reveal_strlit("X");
    reveal_strlit("L");
    reveal_strlit("M");
    reveal_strlit("H");
    assert("X"@.len() == 1 && "X"@[0] == 'X');
    assert("L"@.len() == 1 && "L"@[0] == 'L');
    assert("M"@.len() == 1 && "M"@[0] == 'M');
    assert("H"@.len() == 1 && "H"@[0] == 'H');
    match m {
        VulnerabilityResponseEffort::NotDefined => assert(VulnerabilityResponseEffort::spec_from_str("X"@) == Ok::<
            VulnerabilityResponseEffort,
            ParseError,
        >(m)),
        VulnerabilityResponseEffort::Low => assert(VulnerabilityResponseEffort::spec_from_str("L"@) == Ok::<
            VulnerabilityResponseEffort,
            ParseError,
        >(m)),
        VulnerabilityResponseEffort::Moderate => assert(VulnerabilityResponseEffort::spec_from_str("M"@) == Ok::<
            VulnerabilityResponseEffort,
            ParseError,
        >(m)),
        VulnerabilityResponseEffort::High => assert(VulnerabilityResponseEffort::spec_from_str("H"@) == Ok::<
            VulnerabilityResponseEffort,
            ParseError,
        >(m)),
    }
}

/// The metric name and every wire token are free of the vector and
/// metric delimiters.
pub proof fn lemma_safety_token_chars(m: Safety)
    ensures
        Safety::spec_abbrev().len() > 0,
        forall|j: int|
            0 <= j < Safety::spec_abbrev().len() ==> Safety::spec_abbrev()[j] != '/'
                && Safety::spec_abbrev()[j] != ':',
        forall|j: int|
            0 <= j < m.spec_token().len() ==> m.spec_token()[j] != '/' && m.spec_token()[j]
                != ':',
{
    reveal_strlit("S");
    reveal_strlit("X");
    reveal_strlit("P");
    reveal_strlit("N");
    assert("S"@.len() == 1 && "S"@[0] == 'S');
    assert("X"@.len() == 1 && "X"@[0] == 'X');
    assert("P"@.len() == 1 && "P"@[0] == 'P');
    assert("N"@.len() == 1 && "N"@[0] == 'N');
}

/// The metric name and every wire token are free of the vector and
/// metric delimiters.
pub proof fn lemma_automatable_token_chars(m: Automatable)
    ensures
        Automatable::spec_abbrev().len() > 0,
        forall|j: int|
            0 <= j < Automatable::spec_abbrev().len() ==> Automatable::spec_abbrev()[j] != '/'
                && Automatable::spec_abbrev()[j] != ':',
        forall|j: int|
            0 <= j < m.spec_token().len() ==> m.spec_token()[j] != '/' && m.spec_token()[j]
                != ':',
{
    reveal_strlit("AU");
    reveal_strlit("X");
    reveal_strlit("N");
    reveal_strlit("Y");
    assert("AU"@.len() == 2 && "AU"@[0] == 'A' && "AU"@[1] == 'U');
    assert("X"@.len() == 1 && "X"@[0] == 'X');
    assert("N"@.len() == 1 && "N"@[0] == 'N');
    assert("Y"@.len() == 1 && "Y"@[0] == 'Y');
}

/// The metric name and every wire token are free of the vector and
/// metric delimiters.
pub proof fn lemma_provider_urgency_token_chars(m: ProviderUrgency)
    ensures
        ProviderUrgency::spec_abbrev().len() > 0,
        forall|j: int|
            0 <= j < ProviderUrgency::spec_abbrev().len() ==> ProviderUrgency::spec_abbrev()[j] != '/'
                && ProviderUrgency::spec_abbrev()[j] != ':',
        forall|j: int|
            0 <= j < m.spec_token().len() ==> m.spec_token()[j] != '/' && m.spec_token()[j]
                != ':',
{
    reveal_strlit("U");
    reveal_strlit("X");
    reveal_strlit("Red");
    reveal_strlit("Amber");
    reveal_strlit("Green");
    reveal_strlit("Clear");
    assert("U"@.len() == 1 && "U"@[0] == 'U');
    assert("X"@.len() == 1 && "X"@[0] == 'X');
    assert("Red"@.len() == 3 && "Red"@[0] == 'R' && "Red"@[1] == 'e' && "Red"@[2] == 'd');
    assert("Amber"@.len() == 5 && "Amber"@[0] == 'A' && "Amber"@[1] == 'm' && "Amber"@[2] == 'b' && "Amber"@[3] == 'e' && "Amber"@[4] == 'r');
    assert("Green"@.len() == 5 && "Green"@[0] == 'G' && "Green"@[1] == 'r' && "Green"@[2] == 'e' && "Green"@[3] == 'e' && "Green"@[4] == 'n');
    assert("Clear"@.len() == 5 && "Clear"@[0] == 'C' && "Clear"@[1] == 'l' && "Clear"@[2] == 'e' && "Clear"@[3] == 'a' && "Clear"@[4] == 'r');
}

/// The metric name and every wire token are free of the vector and
/// metric delimiters.
pub proof fn lemma_recovery_token_chars(m: Recovery)
    ensures
        Recovery::spec_abbrev().len() > 0,
        forall|j: int|
            0 <= j < Recovery::spec_abbrev().len() ==> Recovery::spec_abbrev()[j] != '/'
                && Recovery::spec_abbrev()[j] != ':',
        forall|j: int|
            0 <= j < m.spec_token().len() ==> m.spec_token()[j] != '/' && m.spec_token()[j]
                != ':',
{
    reveal_strlit("R");
    reveal_strlit("X");
    reveal_strlit("A");
    reveal_strlit("U");
    reveal_strlit("I");
    assert("R"@.len() == 1 && "R"@[0] == 'R');
    assert("X"@.len() == 1 && "X"@[0] == 'X');
    assert("A"@.len() == 1 && "A"@[0] == 'A');
    assert("U"@.len() == 1 && "U"@[0] == 'U');
    assert("I"@.len() == 1 && "I"@[0] == 'I');
}

/// The metric name and every wire token are free of the vector and
/// metric delimiters.
pub proof fn lemma_value_density_token_chars(m: ValueDensity)
    ensures
        ValueDensity::spec_abbrev().len() > 0,
        forall|j: int|
            0 <= j < ValueDensity::spec_abbrev().len() ==> ValueDensity::spec_abbrev()[j] != '/'
                && ValueDensity::spec_abbrev()[j] != ':',
        forall|j: int|
            0 <= j < m.spec_token().len() ==> m.spec_token()[j] != '/' && m.spec_token()[j]
                != ':',
{
    reveal_strlit("V");
    reveal_strlit("X");
    reveal_strlit("D");
    reveal_strlit("C");
    assert("V"@.len() == 1 && "V"@[0] == 'V');
    assert("X"@.len() == 1 && "X"@[0] == 'X');
    assert("D"@.len() == 1 && "D"@[0] == 'D');
    assert("C"@.len() == 1 && "C"@[0] == 'C');
}

/// The metric name and every wire token are free of the vector and
/// metric delimiters.
pub proof fn lemma_vulnerability_response_effort_token_chars(m: VulnerabilityResponseEffort)
    ensures
        VulnerabilityResponseEffort::spec_abbrev().len() > 0,
        forall|j: int|
            0 <= j < VulnerabilityResponseEffort::spec_abbrev().len() ==> VulnerabilityResponseEffort::spec_abbrev()[j] != '/'
                && VulnerabilityResponseEffort::spec_abbrev()[j] != ':',
        forall|j: int|
            0 <= j < m.spec_token().len() ==> m.spec_token()[j] != '/' && m.spec_token()[j]
                != ':',
{
    reveal_strlit("RE");
    reveal_strlit("X");
    reveal_strlit("L");
    reveal_strlit("M");
    reveal_strlit("H");
    assert("RE"@.len() == 2 && "RE"@[0] == 'R' && "RE"@[1] == 'E');
    assert("X"@.len() == 1 && "X"@[0] == 'X');
    assert("L"@.len() == 1 && "L"@[0] == 'L');
    assert("M"@.len() == 1 && "M"@[0] == 'M');
    assert("H"@.len() == 1 && "H"@[0] == 'H');
}

} // verus!
