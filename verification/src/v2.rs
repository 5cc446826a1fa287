//! CVSS v2 vectors.

use vstd::prelude::*;

pub mod base;
pub mod env;
pub mod temporal;

use crate::common::append_metric;
use crate::common::append_metric_optional;
use crate::common::lookup_metric;
use crate::common::parse_metrics;
use crate::common::spec_append_metric;
use crate::common::spec_append_metric_optional;
use crate::common::spec_lookup;
use crate::common::spec_metric_map;
use crate::common::CvssMetric;
use crate::common::ParseError;

verus! {

/// CVSS vector version 2: the full typed metric set of one assessment.
/// Optional metrics hold their explicit "Not Defined" variant when absent.
#[derive(Clone, Copy, Debug, PartialEq, Eq, Hash, Structural)]
pub struct V2Vector {
    pub access_vector: base::AccessVector,
    pub access_complexity: base::AccessComplexity,
    pub authentication: base::Authentication,
    pub confidentiality_impact: base::ConfidentialityImpact,
    pub integrity_impact: base::IntegrityImpact,
    pub availability_impact: base::AvailabilityImpact,
    pub exploitability: temporal::Exploitability,
    pub remediation_level: temporal::RemediationLevel,
    pub report_confidence: temporal::ReportConfidence,
    pub collateral_damage_potential: env::CollateralDamagePotential,
    pub target_distribution: env::TargetDistribution,
    pub confidentiality_requirement: env::ConfidentialityRequirement,
    pub integrity_requirement: env::IntegrityRequirement,
    pub availability_requirement: env::AvailabilityRequirement,
}

/// A required metric read from a parsed metric map: absent means `Missing`,
/// and its value token must belong to the metric.
pub open spec fn spec_req_from_map<M: CvssMetric>(
    m: Seq<(Seq<char>, Seq<char>)>,
    key: Seq<char>,
) -> Result<M, ParseError> {
    match spec_lookup(m, key) {
        Option::None => Err(ParseError::Missing),
        Option::Some(val) => M::spec_from_str(val),
    }
}

/// An optional metric read from a parsed metric map: absent reads as the
/// `ND` token.
pub open spec fn spec_opt_from_map<M: CvssMetric>(
    m: Seq<(Seq<char>, Seq<char>)>,
    key: Seq<char>,
) -> Result<M, ParseError> {
    match spec_lookup(m, key) {
        Option::None => M::spec_from_str("ND"@),
        Option::Some(val) => M::spec_from_str(val),
    }
}

/// Read the required metric `M` from a parsed metric map.
fn req_from_map<M: CvssMetric>(m: &Vec<(String, String)>, key: &str) -> (r: Result<
    M,
    ParseError,
>)
    ensures
        r == spec_req_from_map::<M>(m.deep_view(), key@),
{
    match lookup_metric(m, key) {
        Option::None => Err(ParseError::Missing),
        Option::Some(v) => M::from_str(v.as_str()),
    }
}

/// Read the optional metric `M` from a parsed metric map.
fn opt_from_map<M: CvssMetric>(m: &Vec<(String, String)>, key: &str) -> (r: Result<
    M,
    ParseError,
>)
    ensures
        r == spec_opt_from_map::<M>(m.deep_view(), key@),
{
    match lookup_metric(m, key) {
        Option::None => M::from_str("ND"),
        Option::Some(v) => M::from_str(v.as_str()),
    }
}

/// The vector a parsed metric map stands for: the six required base
/// metrics, then the temporal and environmental metrics with absent ones
/// reading as `ND`.
pub open spec fn spec_parse_v2_map(m: Seq<(Seq<char>, Seq<char>)>) -> Result<
    V2Vector,
    ParseError,
> {
    match spec_req_from_map::<base::AccessVector>(m, "AV"@) {
        Err(e) => Err(e),
        Ok(access_vector) =>
        match spec_req_from_map::<base::AccessComplexity>(m, "AC"@) {
            Err(e) => Err(e),
            Ok(access_complexity) =>
            match spec_req_from_map::<base::Authentication>(m, "Au"@) {
                Err(e) => Err(e),
                Ok(authentication) =>
                match spec_req_from_map::<base::ConfidentialityImpact>(m, "C"@) {
                    Err(e) => Err(e),
                    Ok(confidentiality_impact) =>
                    match spec_req_from_map::<base::IntegrityImpact>(m, "I"@) {
                        Err(e) => Err(e),
                        Ok(integrity_impact) =>
                        match spec_req_from_map::<base::AvailabilityImpact>(m, "A"@) {
                            Err(e) => Err(e),
                            Ok(availability_impact) =>
                            match spec_opt_from_map::<temporal::Exploitability>(m, "E"@) {
                                Err(e) => Err(e),
                                Ok(exploitability) =>
                                match spec_opt_from_map::<temporal::RemediationLevel>(m, "RL"@) {
                                    Err(e) => Err(e),
                                    Ok(remediation_level) =>
                                    match spec_opt_from_map::<temporal::ReportConfidence>(m, "RC"@) {
                                        Err(e) => Err(e),
                                        Ok(report_confidence) =>
                                        match spec_opt_from_map::<env::CollateralDamagePotential>(m, "CDP"@) {
                                            Err(e) => Err(e),
                                            Ok(collateral_damage_potential) =>
                                            match spec_opt_from_map::<env::TargetDistribution>(m, "TD"@) {
                                                Err(e) => Err(e),
                                                Ok(target_distribution) =>
                                                match spec_opt_from_map::<env::ConfidentialityRequirement>(m, "CR"@) {
                                                    Err(e) => Err(e),
                                                    Ok(confidentiality_requirement) =>
                                                    match spec_opt_from_map::<env::IntegrityRequirement>(m, "IR"@) {
                                                        Err(e) => Err(e),
                                                        Ok(integrity_requirement) =>
                                                        match spec_opt_from_map::<env::AvailabilityRequirement>(m, "AR"@) {
                                                            Err(e) => Err(e),
                                                            Ok(availability_requirement) =>
                                                            Ok((V2Vector {
                                                                access_vector,
                                                                access_complexity,
                                                                authentication,
                                                                confidentiality_impact,
                                                                integrity_impact,
                                                                availability_impact,
                                                                exploitability,
                                                                remediation_level,
                                                                report_confidence,
                                                                collateral_damage_potential,
                                                                target_distribution,
                                                                confidentiality_requirement,
                                                                integrity_requirement,
                                                                availability_requirement,
                                                            })),
                                                        }
                                                    }
                                                }
                                            }
                                        }
                                    }
                                }
                            }
                        }
                    }
                }
            }
        }
    }
}

/// The vector encoded by a v2 vector string.
pub open spec fn spec_parse_v2(s: Seq<char>) -> Result<V2Vector, ParseError> {
    match spec_metric_map(s) {
        Err(e) => Err(e),
        Ok(m) => spec_parse_v2_map(m),
    }
}

/// The canonical string of a v2 vector: the base metrics in order, then
/// each defined temporal and environmental metric.
pub open spec fn spec_v2_string(v: V2Vector) -> Seq<char> {
    let s: Seq<char> = spec_append_metric(Seq::empty(), "AV"@, v.access_vector.spec_token());
    let s: Seq<char> = spec_append_metric(s, "AC"@, v.access_complexity.spec_token());
    let s: Seq<char> = spec_append_metric(s, "Au"@, v.authentication.spec_token());
    let s: Seq<char> = spec_append_metric(s, "C"@, v.confidentiality_impact.spec_token());
    let s: Seq<char> = spec_append_metric(s, "I"@, v.integrity_impact.spec_token());
    let s: Seq<char> = spec_append_metric(s, "A"@, v.availability_impact.spec_token());
    let s: Seq<char> = spec_append_metric_optional(s, "E"@, v.exploitability);
    let s: Seq<char> = spec_append_metric_optional(s, "RL"@, v.remediation_level);
    let s: Seq<char> = spec_append_metric_optional(s, "RC"@, v.report_confidence);
    let s: Seq<char> = spec_append_metric_optional(s, "CDP"@, v.collateral_damage_potential);
    let s: Seq<char> = spec_append_metric_optional(s, "TD"@, v.target_distribution);
    let s: Seq<char> = spec_append_metric_optional(s, "CR"@, v.confidentiality_requirement);
    let s: Seq<char> = spec_append_metric_optional(s, "IR"@, v.integrity_requirement);
    let s: Seq<char> = spec_append_metric_optional(s, "AR"@, v.availability_requirement);
    s
}

impl V2Vector {
    /// Build a vector from the required base metrics; every optional metric
    /// starts at its "Not Defined" default.
    pub fn new(
        access_vector: base::AccessVector,
        access_complexity: base::AccessComplexity,
        authentication: base::Authentication,
        confidentiality_impact: base::ConfidentialityImpact,
        integrity_impact: base::IntegrityImpact,
        availability_impact: base::AvailabilityImpact,
    ) -> (r: V2Vector)
        ensures
            r == (V2Vector {
                access_vector,
                access_complexity,
                authentication,
                confidentiality_impact,
                integrity_impact,
                availability_impact,
                exploitability: temporal::Exploitability::NotDefined,
                remediation_level: temporal::RemediationLevel::NotDefined,
                report_confidence: temporal::ReportConfidence::NotDefined,
                collateral_damage_potential: env::CollateralDamagePotential::NotDefined,
                target_distribution: env::TargetDistribution::NotDefined,
                confidentiality_requirement: env::ConfidentialityRequirement::NotDefined,
                integrity_requirement: env::IntegrityRequirement::NotDefined,
                availability_requirement: env::AvailabilityRequirement::NotDefined,
            }),
    {
        V2Vector {
            access_vector,
            access_complexity,
            authentication,
            confidentiality_impact,
            integrity_impact,
            availability_impact,
            exploitability: temporal::Exploitability::NotDefined,
            remediation_level: temporal::RemediationLevel::NotDefined,
            report_confidence: temporal::ReportConfidence::NotDefined,
            collateral_damage_potential: env::CollateralDamagePotential::NotDefined,
            target_distribution: env::TargetDistribution::NotDefined,
            confidentiality_requirement: env::ConfidentialityRequirement::NotDefined,
            integrity_requirement: env::IntegrityRequirement::NotDefined,
            availability_requirement: env::AvailabilityRequirement::NotDefined,
        }
    }

    /// The vector string, with "Not Defined" optional metrics omitted.
    pub fn as_string(&self) -> (r: String)
        ensures
            r@ == spec_v2_string(*self),
    {
        let mut vector = String::new();
        append_metric(&mut vector, "AV", &self.access_vector);
        append_metric(&mut vector, "AC", &self.access_complexity);
        append_metric(&mut vector, "Au", &self.authentication);
        append_metric(&mut vector, "C", &self.confidentiality_impact);
        append_metric(&mut vector, "I", &self.integrity_impact);
        append_metric(&mut vector, "A", &self.availability_impact);
        append_metric_optional(&mut vector, "E", &self.exploitability);
        append_metric_optional(&mut vector, "RL", &self.remediation_level);
        append_metric_optional(&mut vector, "RC", &self.report_confidence);
        append_metric_optional(&mut vector, "CDP", &self.collateral_damage_potential);
        append_metric_optional(&mut vector, "TD", &self.target_distribution);
        append_metric_optional(&mut vector, "CR", &self.confidentiality_requirement);
        append_metric_optional(&mut vector, "IR", &self.integrity_requirement);
        append_metric_optional(&mut vector, "AR", &self.availability_requirement);
        vector
    }

    /// Parse a CVSS v2 string.
    pub fn parse(cvss_str: &str) -> (r: Result<V2Vector, ParseError>)
        ensures
            r == spec_parse_v2(cvss_str@),
    {
        let parsed = match parse_metrics(cvss_str) {
            Ok(m) => m,
            Err(e) => return Err(e),
        };
        let access_vector: base::AccessVector = match req_from_map(&parsed, "AV") {
            Ok(m) => m,
            Err(e) => return Err(e),
        };
        let access_complexity: base::AccessComplexity = match req_from_map(&parsed, "AC") {
            Ok(m) => m,
            Err(e) => return Err(e),
        };
        let authentication: base::Authentication = match req_from_map(&parsed, "Au") {
            Ok(m) => m,
            Err(e) => return Err(e),
        };
        let confidentiality_impact: base::ConfidentialityImpact = match req_from_map(&parsed, "C") {
            Ok(m) => m,
            Err(e) => return Err(e),
        };
        let integrity_impact: base::IntegrityImpact = match req_from_map(&parsed, "I") {
            Ok(m) => m,
            Err(e) => return Err(e),
        };
        let availability_impact: base::AvailabilityImpact = match req_from_map(&parsed, "A") {
            Ok(m) => m,
            Err(e) => return Err(e),
        };
        let exploitability: temporal::Exploitability = match opt_from_map(&parsed, "E") {
            Ok(m) => m,
            Err(e) => return Err(e),
        };
        let remediation_level: temporal::RemediationLevel = match opt_from_map(&parsed, "RL") {
            Ok(m) => m,
            Err(e) => return Err(e),
        };
        let report_confidence: temporal::ReportConfidence = match opt_from_map(&parsed, "RC") {
            Ok(m) => m,
            Err(e) => return Err(e),
        };
        let collateral_damage_potential: env::CollateralDamagePotential = match opt_from_map(&parsed, "CDP") {
            Ok(m) => m,
            Err(e) => return Err(e),
        };
        let target_distribution: env::TargetDistribution = match opt_from_map(&parsed, "TD") {
            Ok(m) => m,
            Err(e) => return Err(e),
        };
        let confidentiality_requirement: env::ConfidentialityRequirement = match opt_from_map(&parsed, "CR") {
            Ok(m) => m,
            Err(e) => return Err(e),
        };
        let integrity_requirement: env::IntegrityRequirement = match opt_from_map(&parsed, "IR") {
            Ok(m) => m,
            Err(e) => return Err(e),
        };
        let availability_requirement: env::AvailabilityRequirement = match opt_from_map(&parsed, "AR") {
            Ok(m) => m,
            Err(e) => return Err(e),
        };
        Ok(V2Vector {
            access_vector,
            access_complexity,
            authentication,
            confidentiality_impact,
            integrity_impact,
            availability_impact,
            exploitability,
            remediation_level,
            report_confidence,
            collateral_damage_potential,
            target_distribution,
            confidentiality_requirement,
            integrity_requirement,
            availability_requirement,
        })
    }
}

impl core::str::FromStr for V2Vector {
    type Err = ParseError;

    fn from_str(cvss_str: &str) -> Result<V2Vector, ParseError> {
        V2Vector::parse(cvss_str)
    }
}

} // verus!
