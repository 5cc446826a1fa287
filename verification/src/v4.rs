//! CVSS v4 vectors and the v4.0 scoring engine.

use vstd::prelude::*;

pub mod base;
pub mod env;
pub mod score;
pub mod supplemental;
pub mod tables;
pub mod threat;

use crate::common::append_metric;
use crate::common::append_metric_optional;
use crate::common::spec_append_metric;
use crate::common::spec_append_metric_optional;
use crate::common::spec_split;
use crate::common::lemma_append_metric_first;
use crate::common::lemma_append_metric_split;
use crate::common::lemma_split_append;
use crate::common::lemma_split_once_append;
use crate::common::lemma_split_single;
use crate::common::spec_split_once;
use crate::common::split_once_char;
use crate::common::split_on;
use crate::common::str_eq;
use crate::common::CvssMetric;
use crate::common::Optional;
use crate::common::ParseError;
use crate::common::Score;
use crate::v4::score::spec_score_resolved;
use crate::v4::score::score_from_resolved;
use crate::v4::score::spec_classify;
use crate::v4::score::MacroVector;
use crate::v4::score::ResolvedVector;

use base::AttackComplexity;
use base::AttackRequirements;
use base::AttackVector;
use base::PrivilegesRequired;
use base::SubsequentSystemAvailability;
use base::SubsequentSystemConfidentiality;
use base::SubsequentSystemIntegrity;
use base::UserInteraction;
use base::VulnerableSystemAvailability;
use base::VulnerableSystemConfidentiality;
use base::VulnerableSystemIntegrity;
use env::AvailabilityRequirement;
use env::ConfidentialityRequirement;
use env::IntegrityRequirement;
use env::ModifiedAttackComplexity;
use env::ModifiedAttackVector;
use env::ModifiedPrivilegesRequired;
use env::ModifiedSubsequentSystemAvailability;
use env::ModifiedSubsequentSystemConfidentiality;
use env::ModifiedSubsequentSystemIntegrity;
use env::ModifiedUserInteraction;
use env::ModifiedVulnerableSystemAvailability;
use env::ModifiedVulnerableSystemConfidentiality;
use env::ModifiedVulnerableSystemIntegrity;
use supplemental::Automatable;
use supplemental::ProviderUrgency;
use supplemental::Recovery;
use supplemental::Safety;
use supplemental::ValueDensity;
use supplemental::VulnerabilityResponseEffort;
use threat::ExploitMaturity;

verus! {

/// A metric that takes part in v4.0 severity distance arithmetic: each value
/// carries an ordinal level, the most severe value first at level 0.
pub trait V4Metric: Sized + Copy {
    /// The ordinal severity level of this value.
    spec fn spec_level(self) -> int;

    /// The ordinal severity level of this value.
    fn level(&self) -> (r: u8)
        ensures
            r as int == self.spec_level(),
            0 <= self.spec_level() <= 3,
    ;

    /// The ordinal distance of `self` from `other`, negative when `self` is
    /// the more severe value.
    fn distance(&self, other: &Self) -> (r: i8)
        ensures
            r as int == self.spec_level() - other.spec_level(),
    {
        self.level() as i8 - other.level() as i8
    }
}

/// CVSS vector version 4.0: the full typed metric set of one assessment.
/// Optional metrics hold their explicit "Not Defined" variant when absent.
#[derive(Clone, Copy, Debug, PartialEq, Eq, Hash, Structural)]
pub struct V4Vector {
    pub attack_vector: AttackVector,
    pub attack_complexity: AttackComplexity,
    pub attack_requirements: AttackRequirements,
    pub privileges_required: PrivilegesRequired,
    pub user_interaction: UserInteraction,
    pub vulnerable_confidentiality: VulnerableSystemConfidentiality,
    pub vulnerable_integrity: VulnerableSystemIntegrity,
    pub vulnerable_availability: VulnerableSystemAvailability,
    pub subsequent_confidentiality: SubsequentSystemConfidentiality,
    pub subsequent_integrity: SubsequentSystemIntegrity,
    pub subsequent_availability: SubsequentSystemAvailability,
    pub exploit_maturity: ExploitMaturity,
    pub confidentiality_requirement: ConfidentialityRequirement,
    pub integrity_requirement: IntegrityRequirement,
    pub availability_requirement: AvailabilityRequirement,
    pub modified_attack_vector: ModifiedAttackVector,
    pub modified_attack_complexity: ModifiedAttackComplexity,
    pub modified_privileges_required: ModifiedPrivilegesRequired,
    pub modified_user_interaction: ModifiedUserInteraction,
    pub modified_vulnerable_confidentiality: ModifiedVulnerableSystemConfidentiality,
    pub modified_vulnerable_integrity: ModifiedVulnerableSystemIntegrity,
    pub modified_vulnerable_availability: ModifiedVulnerableSystemAvailability,
    pub modified_subsequent_confidentiality: ModifiedSubsequentSystemConfidentiality,
    pub modified_subsequent_integrity: ModifiedSubsequentSystemIntegrity,
    pub modified_subsequent_availability: ModifiedSubsequentSystemAvailability,
    pub safety: Safety,
    pub automatable: Automatable,
    pub recovery: Recovery,
    pub value_density: ValueDensity,
    pub vulnerability_response_effort: VulnerabilityResponseEffort,
    pub provider_urgency: ProviderUrgency,
}

/// One required metric parsed from `parts[i]`: the part must exist, carry
/// this metric's name before the first delimiter, and a valid value token
/// after it.
pub open spec fn spec_parse_metric<M: CvssMetric>(parts: Seq<Seq<char>>, i: int) -> Result<
    (M, int),
    ParseError,
> {
    if i >= parts.len() {
        Err(ParseError::Missing)
    } else {
        match spec_split_once(parts[i], ':') {
            Option::None => Err(ParseError::MalformedVector),
            Option::Some(nv) => if nv.0 != M::spec_abbrev() {
                Err(ParseError::MalformedVector)
            } else {
                match M::spec_from_str(nv.1) {
                    Ok(m) => Ok((m, i + 1)),
                    Err(e) => Err(e),
                }
            },
        }
    }
}

/// One optional metric parsed from `parts[i]`: when the part is missing or
/// names another metric, the "Not Defined" default is taken and the cursor
/// stays.
pub open spec fn spec_parse_opt_metric<M: CvssMetric + Optional>(
    parts: Seq<Seq<char>>,
    i: int,
) -> Result<(M, int), ParseError> {
    if i >= parts.len() {
        Ok((M::spec_undefined(), i))
    } else {
        match spec_split_once(parts[i], ':') {
            Option::None => Err(ParseError::MalformedVector),
            Option::Some(nv) => if nv.0 != M::spec_abbrev() {
                Ok((M::spec_undefined(), i))
            } else {
                match M::spec_from_str(nv.1) {
                    Ok(m) => Ok((m, i + 1)),
                    Err(e) => Err(e),
                }
            },
        }
    }
}

/// Parse the required metric `M` from the part at the cursor and advance it.
fn parse_metric<M: CvssMetric>(parts: &Vec<String>, i: &mut usize) -> (r: Result<M, ParseError>)
    requires
        *old(i) <= parts.len(),
    ensures
        *final(i) <= parts.len(),
        match r {
            Ok(m) => spec_parse_metric::<M>(parts.deep_view(), *old(i) as int) == Ok::<
                (M, int),
                ParseError,
            >((m, *final(i) as int)),
            Err(e) => spec_parse_metric::<M>(parts.deep_view(), *old(i) as int) == Err::<
                (M, int),
                ParseError,
            >(e) && *final(i) == *old(i),
        },
{
    if *i >= parts.len() {
        return Err(ParseError::Missing);
    }
    proof {
        assert(parts.deep_view()[*i as int] == parts[*i as int]@);
    }
    match split_once_char(parts[*i].as_str(), ':') {
        Option::None => Err(ParseError::MalformedVector),
        Option::Some(nv) => {
            if !str_eq(nv.0.as_str(), M::abbreviated_form()) {
                return Err(ParseError::MalformedVector);
            }
            match M::from_str(nv.1.as_str()) {
                Ok(m) => {
                    *i = *i + 1;
                    Ok(m)
                },
                Err(e) => Err(e),
            }
        },
    }
}

/// Parse the optional metric `M` if the part at the cursor carries it, else
/// take the "Not Defined" default.
fn parse_opt_metric<M: CvssMetric + Optional>(parts: &Vec<String>, i: &mut usize) -> (r: Result<
    M,
    ParseError,
>)
    requires
        *old(i) <= parts.len(),
    ensures
        *final(i) <= parts.len(),
        match r {
            Ok(m) => spec_parse_opt_metric::<M>(parts.deep_view(), *old(i) as int) == Ok::<
                (M, int),
                ParseError,
            >((m, *final(i) as int)),
            Err(e) => spec_parse_opt_metric::<M>(parts.deep_view(), *old(i) as int) == Err::<
                (M, int),
                ParseError,
            >(e) && *final(i) == *old(i),
        },
{
    if *i >= parts.len() {
        return Ok(M::undefined());
    }
    proof {
        assert(parts.deep_view()[*i as int] == parts[*i as int]@);
    }
    match split_once_char(parts[*i].as_str(), ':') {
        Option::None => Err(ParseError::MalformedVector),
        Option::Some(nv) => {
            if !str_eq(nv.0.as_str(), M::abbreviated_form()) {
                return Ok(M::undefined());
            }
            match M::from_str(nv.1.as_str()) {
                Ok(m) => {
                    *i = *i + 1;
                    Ok(m)
                },
                Err(e) => Err(e),
            }
        },
    }
}

/// The eleven required base metrics parsed in their published order,
/// starting at part `0`; the result holds every optional metric at its
/// "Not Defined" default and the cursor past the last base metric.
pub open spec fn spec_parse_v4_base(parts: Seq<Seq<char>>) -> Result<
    (V4Vector, int),
    ParseError,
> {
    let i: int = 0;
    match spec_parse_metric::<AttackVector>(parts, i) {
        Err(e) => Err(e),
        Ok((attack_vector, i)) =>
        match spec_parse_metric::<AttackComplexity>(parts, i) {
            Err(e) => Err(e),
            Ok((attack_complexity, i)) =>
            match spec_parse_metric::<AttackRequirements>(parts, i) {
                Err(e) => Err(e),
                Ok((attack_requirements, i)) =>
                match spec_parse_metric::<PrivilegesRequired>(parts, i) {
                    Err(e) => Err(e),
                    Ok((privileges_required, i)) =>
                    match spec_parse_metric::<UserInteraction>(parts, i) {
                        Err(e) => Err(e),
                        Ok((user_interaction, i)) =>
                        match spec_parse_metric::<VulnerableSystemConfidentiality>(parts, i) {
                            Err(e) => Err(e),
                            Ok((vulnerable_confidentiality, i)) =>
                            match spec_parse_metric::<VulnerableSystemIntegrity>(parts, i) {
                                Err(e) => Err(e),
                                Ok((vulnerable_integrity, i)) =>
                                match spec_parse_metric::<VulnerableSystemAvailability>(parts, i) {
                                    Err(e) => Err(e),
                                    Ok((vulnerable_availability, i)) =>
                                    match spec_parse_metric::<SubsequentSystemConfidentiality>(parts, i) {
                                        Err(e) => Err(e),
                                        Ok((subsequent_confidentiality, i)) =>
                                        match spec_parse_metric::<SubsequentSystemIntegrity>(parts, i) {
                                            Err(e) => Err(e),
                                            Ok((subsequent_integrity, i)) =>
                                            match spec_parse_metric::<SubsequentSystemAvailability>(parts, i) {
                                                Err(e) => Err(e),
                                                Ok((subsequent_availability, i)) =>
                                                Ok((
                                                    V4Vector {
                                                        attack_vector,
                                                        attack_complexity,
                                                        attack_requirements,
                                                        privileges_required,
                                                        user_interaction,
                                                        vulnerable_confidentiality,
                                                        vulnerable_integrity,
                                                        vulnerable_availability,
                                                        subsequent_confidentiality,
                                                        subsequent_integrity,
                                                        subsequent_availability,
                                                        exploit_maturity: ExploitMaturity::NotDefined,
                                                        confidentiality_requirement: ConfidentialityRequirement::NotDefined,
                                                        integrity_requirement: IntegrityRequirement::NotDefined,
                                                        availability_requirement: AvailabilityRequirement::NotDefined,
                                                        modified_attack_vector: ModifiedAttackVector::NotDefined,
                                                        modified_attack_complexity: ModifiedAttackComplexity::NotDefined,
                                                        modified_privileges_required: ModifiedPrivilegesRequired::NotDefined,
                                                        modified_user_interaction: ModifiedUserInteraction::NotDefined,
                                                        modified_vulnerable_confidentiality: ModifiedVulnerableSystemConfidentiality::NotDefined,
                                                        modified_vulnerable_integrity: ModifiedVulnerableSystemIntegrity::NotDefined,
                                                        modified_vulnerable_availability: ModifiedVulnerableSystemAvailability::NotDefined,
                                                        modified_subsequent_confidentiality: ModifiedSubsequentSystemConfidentiality::NotDefined,
                                                        modified_subsequent_integrity: ModifiedSubsequentSystemIntegrity::NotDefined,
                                                        modified_subsequent_availability: ModifiedSubsequentSystemAvailability::NotDefined,
                                                        safety: Safety::NotDefined,
                                                        automatable: Automatable::NotDefined,
                                                        recovery: Recovery::NotDefined,
                                                        value_density: ValueDensity::NotDefined,
                                                        vulnerability_response_effort: VulnerabilityResponseEffort::NotDefined,
                                                        provider_urgency: ProviderUrgency::NotDefined,
                                                    },
                                                    i,
                                                )),
                                            }
                                        }
                                    }
                                }
                            }
                        }
                    }
                }
            }
        }
    }
}

/// The threat metric and the thirteen environmental metrics parsed in their
/// published order from the cursor on, each optional.
pub open spec fn spec_parse_v4_threat_env(v: V4Vector, parts: Seq<Seq<char>>, i: int) -> Result<
    (V4Vector, int),
    ParseError,
> {
    match spec_parse_opt_metric::<ExploitMaturity>(parts, i) {
        Err(e) => Err(e),
        Ok((exploit_maturity, i)) =>
        match spec_parse_opt_metric::<ConfidentialityRequirement>(parts, i) {
            Err(e) => Err(e),
            Ok((confidentiality_requirement, i)) =>
            match spec_parse_opt_metric::<IntegrityRequirement>(parts, i) {
                Err(e) => Err(e),
                Ok((integrity_requirement, i)) =>
                match spec_parse_opt_metric::<AvailabilityRequirement>(parts, i) {
                    Err(e) => Err(e),
                    Ok((availability_requirement, i)) =>
                    match spec_parse_opt_metric::<ModifiedAttackVector>(parts, i) {
                        Err(e) => Err(e),
                        Ok((modified_attack_vector, i)) =>
                        match spec_parse_opt_metric::<ModifiedAttackComplexity>(parts, i) {
                            Err(e) => Err(e),
                            Ok((modified_attack_complexity, i)) =>
                            match spec_parse_opt_metric::<ModifiedPrivilegesRequired>(parts, i) {
                                Err(e) => Err(e),
                                Ok((modified_privileges_required, i)) =>
                                match spec_parse_opt_metric::<ModifiedUserInteraction>(parts, i) {
                                    Err(e) => Err(e),
                                    Ok((modified_user_interaction, i)) =>
                                    match spec_parse_opt_metric::<ModifiedVulnerableSystemConfidentiality>(parts, i) {
                                        Err(e) => Err(e),
                                        Ok((modified_vulnerable_confidentiality, i)) =>
                                        match spec_parse_opt_metric::<ModifiedVulnerableSystemIntegrity>(parts, i) {
                                            Err(e) => Err(e),
                                            Ok((modified_vulnerable_integrity, i)) =>
                                            match spec_parse_opt_metric::<ModifiedVulnerableSystemAvailability>(parts, i) {
                                                Err(e) => Err(e),
                                                Ok((modified_vulnerable_availability, i)) =>
                                                match spec_parse_opt_metric::<ModifiedSubsequentSystemConfidentiality>(parts, i) {
                                                    Err(e) => Err(e),
                                                    Ok((modified_subsequent_confidentiality, i)) =>
                                                    match spec_parse_opt_metric::<ModifiedSubsequentSystemIntegrity>(parts, i) {
                                                        Err(e) => Err(e),
                                                        Ok((modified_subsequent_integrity, i)) =>
                                                        match spec_parse_opt_metric::<ModifiedSubsequentSystemAvailability>(parts, i) {
                                                            Err(e) => Err(e),
                                                            Ok((modified_subsequent_availability, i)) =>
                                                            Ok((
                                                                V4Vector {
                                                                    exploit_maturity,
                                                                    confidentiality_requirement,
                                                                    integrity_requirement,
                                                                    availability_requirement,
                                                                    modified_attack_vector,
                                                                    modified_attack_complexity,
                                                                    modified_privileges_required,
                                                                    modified_user_interaction,
                                                                    modified_vulnerable_confidentiality,
                                                                    modified_vulnerable_integrity,
                                                                    modified_vulnerable_availability,
                                                                    modified_subsequent_confidentiality,
                                                                    modified_subsequent_integrity,
                                                                    modified_subsequent_availability,
                                                                    ..v
                                                                },
                                                                i,
                                                            )),
                                                        }
                                                    }
                                                }
                                            }
                                        }
                                    }
                                }
                            }
                        }
                    }
                }
            }
        }
    }
}

/// The six supplemental metrics parsed in their published order from the
/// cursor on, each optional.  Parts left after them are ignored.
pub open spec fn spec_parse_v4_supplemental(v: V4Vector, parts: Seq<Seq<char>>, i: int) -> Result<
    (V4Vector, int),
    ParseError,
> {
    match spec_parse_opt_metric::<Safety>(parts, i) {
        Err(e) => Err(e),
        Ok((safety, i)) =>
        match spec_parse_opt_metric::<Automatable>(parts, i) {
            Err(e) => Err(e),
            Ok((automatable, i)) =>
            match spec_parse_opt_metric::<Recovery>(parts, i) {
                Err(e) => Err(e),
                Ok((recovery, i)) =>
                match spec_parse_opt_metric::<ValueDensity>(parts, i) {
                    Err(e) => Err(e),
                    Ok((value_density, i)) =>
                    match spec_parse_opt_metric::<VulnerabilityResponseEffort>(parts, i) {
                        Err(e) => Err(e),
                        Ok((vulnerability_response_effort, i)) =>
                        match spec_parse_opt_metric::<ProviderUrgency>(parts, i) {
                            Err(e) => Err(e),
                            Ok((provider_urgency, i)) =>
                            Ok((
                                V4Vector {
                                    safety,
                                    automatable,
                                    recovery,
                                    value_density,
                                    vulnerability_response_effort,
                                    provider_urgency,
                                    ..v
                                },
                                i,
                            )),
                        }
                    }
                }
            }
        }
    }
}

/// The vector encoded by the metric parts of a v4.0 vector string (after
/// the version prefix): the required base metrics in order, then the
/// optional threat, environmental and supplemental metrics in order.
pub open spec fn spec_parse_v4_metrics(parts: Seq<Seq<char>>) -> Result<V4Vector, ParseError> {
    match spec_parse_v4_base(parts) {
        Err(e) => Err(e),
        Ok((v, i)) => match spec_parse_v4_threat_env(v, parts, i) {
            Err(e) => Err(e),
            Ok((v, i)) => match spec_parse_v4_supplemental(v, parts, i) {
                Err(e) => Err(e),
                Ok((v, i)) => Ok(v),
            },
        },
    }
}

/// The vector encoded by a whole v4.0 vector string, which must begin with
/// the `CVSS:4.0/` version prefix.
pub open spec fn spec_parse_v4(s: Seq<char>) -> Result<V4Vector, ParseError> {
    if s.len() < 9 || s.take(9) != "CVSS:4.0/"@ {
        Err(ParseError::MalformedVector)
    } else {
        spec_parse_v4_metrics(spec_split(s.skip(9), '/'))
    }
}

// ---------------------------------------------------------------------------
// Resolution: from the typed metric set to ordinal levels.
// ---------------------------------------------------------------------------

/// The resolved metric set of a vector: each explicitly set Modified metric
/// overrides its base counterpart, a "Not Defined" Modified metric is
/// substituted by the base value, Exploit Maturity and the environmental
/// requirements fall back to their most severe reading (Attacked, High),
/// and every metric is reduced to its ordinal severity level.
/// The effective attack vector level of a vector.
pub open spec fn spec_effective_av(v: V4Vector) -> u8 {
    if v.modified_attack_vector == ModifiedAttackVector::NotDefined {
        v.attack_vector.spec_level() as u8
    } else {
        v.modified_attack_vector.spec_level() as u8
    }
}

/// The effective attack complexity level of a vector.
pub open spec fn spec_effective_ac(v: V4Vector) -> u8 {
    if v.modified_attack_complexity == ModifiedAttackComplexity::NotDefined {
        v.attack_complexity.spec_level() as u8
    } else {
        v.modified_attack_complexity.spec_level() as u8
    }
}

/// The effective attack requirements level of a vector.
pub open spec fn spec_effective_at(v: V4Vector) -> u8 {
    v.attack_requirements.spec_level() as u8
}

/// The effective privileges required level of a vector.
pub open spec fn spec_effective_pr(v: V4Vector) -> u8 {
    if v.modified_privileges_required == ModifiedPrivilegesRequired::NotDefined {
        v.privileges_required.spec_level() as u8
    } else {
        v.modified_privileges_required.spec_level() as u8
    }
}

/// The effective user interaction level of a vector.
pub open spec fn spec_effective_ui(v: V4Vector) -> u8 {
    if v.modified_user_interaction == ModifiedUserInteraction::NotDefined {
        v.user_interaction.spec_level() as u8
    } else {
        v.modified_user_interaction.spec_level() as u8
    }
}

/// The effective vulnerable system confidentiality level of a vector.
pub open spec fn spec_effective_vc(v: V4Vector) -> u8 {
    if v.modified_vulnerable_confidentiality == ModifiedVulnerableSystemConfidentiality::NotDefined {
        v.vulnerable_confidentiality.spec_level() as u8
    } else {
        v.modified_vulnerable_confidentiality.spec_level() as u8
    }
}

/// The effective vulnerable system integrity level of a vector.
pub open spec fn spec_effective_vi(v: V4Vector) -> u8 {
    if v.modified_vulnerable_integrity == ModifiedVulnerableSystemIntegrity::NotDefined {
        v.vulnerable_integrity.spec_level() as u8
    } else {
        v.modified_vulnerable_integrity.spec_level() as u8
    }
}

/// The effective vulnerable system availability level of a vector.
pub open spec fn spec_effective_va(v: V4Vector) -> u8 {
    if v.modified_vulnerable_availability == ModifiedVulnerableSystemAvailability::NotDefined {
        v.vulnerable_availability.spec_level() as u8
    } else {
        v.modified_vulnerable_availability.spec_level() as u8
    }
}

/// The effective subsequent system confidentiality level of a vector.
pub open spec fn spec_effective_sc(v: V4Vector) -> u8 {
    if v.modified_subsequent_confidentiality == ModifiedSubsequentSystemConfidentiality::NotDefined {
        v.subsequent_confidentiality.spec_level() as u8
    } else {
        v.modified_subsequent_confidentiality.spec_level() as u8
    }
}

/// The effective subsequent system integrity level of a vector.
pub open spec fn spec_effective_si(v: V4Vector) -> u8 {
    if v.modified_subsequent_integrity == ModifiedSubsequentSystemIntegrity::NotDefined {
        v.subsequent_integrity.spec_level() as u8
    } else {
        v.modified_subsequent_integrity.spec_level() as u8
    }
}

/// The effective subsequent system availability level of a vector.
pub open spec fn spec_effective_sa(v: V4Vector) -> u8 {
    if v.modified_subsequent_availability == ModifiedSubsequentSystemAvailability::NotDefined {
        v.subsequent_availability.spec_level() as u8
    } else {
        v.modified_subsequent_availability.spec_level() as u8
    }
}

/// The effective exploit maturity level of a vector.
pub open spec fn spec_effective_e(v: V4Vector) -> u8 {
    v.exploit_maturity.spec_level() as u8
}

/// The effective confidentiality requirement level of a vector.
pub open spec fn spec_effective_cr(v: V4Vector) -> u8 {
    v.confidentiality_requirement.spec_level() as u8
}

/// The effective integrity requirement level of a vector.
pub open spec fn spec_effective_ir(v: V4Vector) -> u8 {
    v.integrity_requirement.spec_level() as u8
}

/// The effective availability requirement level of a vector.
pub open spec fn spec_effective_ar(v: V4Vector) -> u8 {
    v.availability_requirement.spec_level() as u8
}

pub open spec fn spec_resolve(v: V4Vector) -> ResolvedVector {
    ResolvedVector {
        av: spec_effective_av(v),
        ac: spec_effective_ac(v),
        at: spec_effective_at(v),
        pr: spec_effective_pr(v),
        ui: spec_effective_ui(v),
        vc: spec_effective_vc(v),
        vi: spec_effective_vi(v),
        va: spec_effective_va(v),
        sc: spec_effective_sc(v),
        si: spec_effective_si(v),
        sa: spec_effective_sa(v),
        e: spec_effective_e(v),
        cr: spec_effective_cr(v),
        ir: spec_effective_ir(v),
        ar: spec_effective_ar(v),
    }
}

/// The score of a vector: its resolved metric set run through the v4.0
/// scoring engine, in tenths of a point.
pub open spec fn spec_score(v: V4Vector) -> int {
    spec_score_resolved(spec_resolve(v))
}

/// `v` with its threat metric reset to "Not Defined".
pub open spec fn spec_clear_threat(v: V4Vector) -> V4Vector {
    V4Vector { exploit_maturity: ExploitMaturity::NotDefined, ..v }
}

/// `v` with every environmental metric reset to "Not Defined".
pub open spec fn spec_clear_environmental(v: V4Vector) -> V4Vector {
    V4Vector {
        confidentiality_requirement: ConfidentialityRequirement::NotDefined,
        integrity_requirement: IntegrityRequirement::NotDefined,
        availability_requirement: AvailabilityRequirement::NotDefined,
        modified_attack_vector: ModifiedAttackVector::NotDefined,
        modified_attack_complexity: ModifiedAttackComplexity::NotDefined,
        modified_privileges_required: ModifiedPrivilegesRequired::NotDefined,
        modified_user_interaction: ModifiedUserInteraction::NotDefined,
        modified_vulnerable_confidentiality: ModifiedVulnerableSystemConfidentiality::NotDefined,
        modified_vulnerable_integrity: ModifiedVulnerableSystemIntegrity::NotDefined,
        modified_vulnerable_availability: ModifiedVulnerableSystemAvailability::NotDefined,
        modified_subsequent_confidentiality: ModifiedSubsequentSystemConfidentiality::NotDefined,
        modified_subsequent_integrity: ModifiedSubsequentSystemIntegrity::NotDefined,
        modified_subsequent_availability: ModifiedSubsequentSystemAvailability::NotDefined,
        ..v
    }
}

/// `v` with every supplemental metric reset to "Not Defined".
pub open spec fn spec_clear_supplemental(v: V4Vector) -> V4Vector {
    V4Vector {
        safety: Safety::NotDefined,
        automatable: Automatable::NotDefined,
        recovery: Recovery::NotDefined,
        value_density: ValueDensity::NotDefined,
        vulnerability_response_effort: VulnerabilityResponseEffort::NotDefined,
        provider_urgency: ProviderUrgency::NotDefined,
        ..v
    }
}

/// `s` with every metric of the vector appended in the published order,
/// "Not Defined" optional metrics omitted.
pub open spec fn spec_min_string(v: V4Vector) -> Seq<char> {
    let s: Seq<char> = spec_append_metric(Seq::empty(), "AV"@, v.attack_vector.spec_token());
    let s: Seq<char> = spec_append_metric(s, "AC"@, v.attack_complexity.spec_token());
    let s: Seq<char> = spec_append_metric(s, "AT"@, v.attack_requirements.spec_token());
    let s: Seq<char> = spec_append_metric(s, "PR"@, v.privileges_required.spec_token());
    let s: Seq<char> = spec_append_metric(s, "UI"@, v.user_interaction.spec_token());
    let s: Seq<char> = spec_append_metric(s, "VC"@, v.vulnerable_confidentiality.spec_token());
    let s: Seq<char> = spec_append_metric(s, "VI"@, v.vulnerable_integrity.spec_token());
    let s: Seq<char> = spec_append_metric(s, "VA"@, v.vulnerable_availability.spec_token());
    let s: Seq<char> = spec_append_metric(s, "SC"@, v.subsequent_confidentiality.spec_token());
    let s: Seq<char> = spec_append_metric(s, "SI"@, v.subsequent_integrity.spec_token());
    let s: Seq<char> = spec_append_metric(s, "SA"@, v.subsequent_availability.spec_token());
    let s: Seq<char> = spec_append_metric_optional(s, "E"@, v.exploit_maturity);
    let s: Seq<char> = spec_append_metric_optional(s, "CR"@, v.confidentiality_requirement);
    let s: Seq<char> = spec_append_metric_optional(s, "IR"@, v.integrity_requirement);
    let s: Seq<char> = spec_append_metric_optional(s, "AR"@, v.availability_requirement);
    let s: Seq<char> = spec_append_metric_optional(s, "MAV"@, v.modified_attack_vector);
    let s: Seq<char> = spec_append_metric_optional(s, "MAC"@, v.modified_attack_complexity);
    let s: Seq<char> = spec_append_metric_optional(s, "MPR"@, v.modified_privileges_required);
    let s: Seq<char> = spec_append_metric_optional(s, "MUI"@, v.modified_user_interaction);
    let s: Seq<char> = spec_append_metric_optional(s, "MVC"@, v.modified_vulnerable_confidentiality);
    let s: Seq<char> = spec_append_metric_optional(s, "MVI"@, v.modified_vulnerable_integrity);
    let s: Seq<char> = spec_append_metric_optional(s, "MVA"@, v.modified_vulnerable_availability);
    let s: Seq<char> = spec_append_metric_optional(s, "MSC"@, v.modified_subsequent_confidentiality);
    let s: Seq<char> = spec_append_metric_optional(s, "MSI"@, v.modified_subsequent_integrity);
    let s: Seq<char> = spec_append_metric_optional(s, "MSA"@, v.modified_subsequent_availability);
    let s: Seq<char> = spec_append_metric_optional(s, "S"@, v.safety);
    let s: Seq<char> = spec_append_metric_optional(s, "AU"@, v.automatable);
    let s: Seq<char> = spec_append_metric_optional(s, "R"@, v.recovery);
    let s: Seq<char> = spec_append_metric_optional(s, "V"@, v.value_density);
    let s: Seq<char> = spec_append_metric_optional(s, "RE"@, v.vulnerability_response_effort);
    let s: Seq<char> = spec_append_metric_optional(s, "U"@, v.provider_urgency);
    s
}

/// Every metric of the vector appended in the published order, "Not
/// Defined" optional metrics written out with their `X` token.
pub open spec fn spec_full_string_base(v: V4Vector) -> Seq<char> {
    let s: Seq<char> = spec_append_metric(Seq::empty(), "AV"@, v.attack_vector.spec_token());
    let s: Seq<char> = spec_append_metric(s, "AC"@, v.attack_complexity.spec_token());
    let s: Seq<char> = spec_append_metric(s, "AT"@, v.attack_requirements.spec_token());
    let s: Seq<char> = spec_append_metric(s, "PR"@, v.privileges_required.spec_token());
    let s: Seq<char> = spec_append_metric(s, "UI"@, v.user_interaction.spec_token());
    let s: Seq<char> = spec_append_metric(s, "VC"@, v.vulnerable_confidentiality.spec_token());
    let s: Seq<char> = spec_append_metric(s, "VI"@, v.vulnerable_integrity.spec_token());
    let s: Seq<char> = spec_append_metric(s, "VA"@, v.vulnerable_availability.spec_token());
    let s: Seq<char> = spec_append_metric(s, "SC"@, v.subsequent_confidentiality.spec_token());
    let s: Seq<char> = spec_append_metric(s, "SI"@, v.subsequent_integrity.spec_token());
    let s: Seq<char> = spec_append_metric(s, "SA"@, v.subsequent_availability.spec_token());
    s
}

/// The threat metric and the environmental requirements appended to a
/// partial vector string.
pub open spec fn spec_full_string_threat_req(s: Seq<char>, v: V4Vector) -> Seq<char> {
    let s: Seq<char> = spec_append_metric(s, "E"@, v.exploit_maturity.spec_token());
    let s: Seq<char> = spec_append_metric(s, "CR"@, v.confidentiality_requirement.spec_token());
    let s: Seq<char> = spec_append_metric(s, "IR"@, v.integrity_requirement.spec_token());
    let s: Seq<char> = spec_append_metric(s, "AR"@, v.availability_requirement.spec_token());
    s
}

/// The modified exploitability and vulnerable-system metrics appended
/// to a partial vector string.
pub open spec fn spec_full_string_modified_vuln(s: Seq<char>, v: V4Vector) -> Seq<char> {
    let s: Seq<char> = spec_append_metric(s, "MAV"@, v.modified_attack_vector.spec_token());
    let s: Seq<char> = spec_append_metric(s, "MAC"@, v.modified_attack_complexity.spec_token());
    let s: Seq<char> = spec_append_metric(s, "MPR"@, v.modified_privileges_required.spec_token());
    let s: Seq<char> = spec_append_metric(s, "MUI"@, v.modified_user_interaction.spec_token());
    let s: Seq<char> = spec_append_metric(s, "MVC"@, v.modified_vulnerable_confidentiality.spec_token());
    s
}

/// The remaining modified impact metrics appended to a partial vector
/// string.
pub open spec fn spec_full_string_modified_subs(s: Seq<char>, v: V4Vector) -> Seq<char> {
    let s: Seq<char> = spec_append_metric(s, "MVI"@, v.modified_vulnerable_integrity.spec_token());
    let s: Seq<char> = spec_append_metric(s, "MVA"@, v.modified_vulnerable_availability.spec_token());
    let s: Seq<char> = spec_append_metric(s, "MSC"@, v.modified_subsequent_confidentiality.spec_token());
    let s: Seq<char> = spec_append_metric(s, "MSI"@, v.modified_subsequent_integrity.spec_token());
    let s: Seq<char> = spec_append_metric(s, "MSA"@, v.modified_subsequent_availability.spec_token());
    s
}
/// The supplemental metrics appended to a partial vector string.
pub open spec fn spec_full_string_supplemental(s: Seq<char>, v: V4Vector) -> Seq<char> {
    let s: Seq<char> = spec_append_metric(s, "S"@, v.safety.spec_token());
    let s: Seq<char> = spec_append_metric(s, "AU"@, v.automatable.spec_token());
    let s: Seq<char> = spec_append_metric(s, "R"@, v.recovery.spec_token());
    let s: Seq<char> = spec_append_metric(s, "V"@, v.value_density.spec_token());
    let s: Seq<char> = spec_append_metric(s, "RE"@, v.vulnerability_response_effort.spec_token());
    let s: Seq<char> = spec_append_metric(s, "U"@, v.provider_urgency.spec_token());
    s
}

pub open spec fn spec_full_string(v: V4Vector) -> Seq<char> {
    spec_full_string_supplemental(
        spec_full_string_modified_subs(
            spec_full_string_modified_vuln(
                spec_full_string_threat_req(spec_full_string_base(v), v),
                v,
            ),
            v,
        ),
        v,
    )
}

/// The effective AV level of a vector.
fn effective_av(v: &V4Vector) -> (r: u8)
    ensures
        r == spec_effective_av(*v),
        r <= 3,
{
    if v.modified_attack_vector.is_undefined() {
        v.attack_vector.level()
    } else {
        v.modified_attack_vector.level()
    }
}

/// The effective AC level of a vector.
fn effective_ac(v: &V4Vector) -> (r: u8)
    ensures
        r == spec_effective_ac(*v),
        r <= 1,
{
    if v.modified_attack_complexity.is_undefined() {
        v.attack_complexity.level()
    } else {
        v.modified_attack_complexity.level()
    }
}

/// The effective AT level of a vector.
fn effective_at(v: &V4Vector) -> (r: u8)
    ensures
        r == spec_effective_at(*v),
        r <= 1,
{
    v.attack_requirements.level()
}

/// The effective PR level of a vector.
fn effective_pr(v: &V4Vector) -> (r: u8)
    ensures
        r == spec_effective_pr(*v),
        r <= 2,
{
    if v.modified_privileges_required.is_undefined() {
        v.privileges_required.level()
    } else {
        v.modified_privileges_required.level()
    }
}

/// The effective UI level of a vector.
fn effective_ui(v: &V4Vector) -> (r: u8)
    ensures
        r == spec_effective_ui(*v),
        r <= 2,
{
    if v.modified_user_interaction.is_undefined() {
        v.user_interaction.level()
    } else {
        v.modified_user_interaction.level()
    }
}

/// The effective VC level of a vector.
fn effective_vc(v: &V4Vector) -> (r: u8)
    ensures
        r == spec_effective_vc(*v),
        r <= 2,
{
    if v.modified_vulnerable_confidentiality.is_undefined() {
        v.vulnerable_confidentiality.level()
    } else {
        v.modified_vulnerable_confidentiality.level()
    }
}

/// The effective VI level of a vector.
fn effective_vi(v: &V4Vector) -> (r: u8)
    ensures
        r == spec_effective_vi(*v),
        r <= 2,
{
    if v.modified_vulnerable_integrity.is_undefined() {
        v.vulnerable_integrity.level()
    } else {
        v.modified_vulnerable_integrity.level()
    }
}

/// The effective VA level of a vector.
fn effective_va(v: &V4Vector) -> (r: u8)
    ensures
        r == spec_effective_va(*v),
        r <= 2,
{
    if v.modified_vulnerable_availability.is_undefined() {
        v.vulnerable_availability.level()
    } else {
        v.modified_vulnerable_availability.level()
    }
}

/// The effective SC level of a vector.
fn effective_sc(v: &V4Vector) -> (r: u8)
    ensures
        r == spec_effective_sc(*v),
        1 <= r <= 3,
{
    if v.modified_subsequent_confidentiality.is_undefined() {
        v.subsequent_confidentiality.level()
    } else {
        v.modified_subsequent_confidentiality.level()
    }
}

/// The effective SI level of a vector.
fn effective_si(v: &V4Vector) -> (r: u8)
    ensures
        r == spec_effective_si(*v),
        r <= 3,
{
    if v.modified_subsequent_integrity.is_undefined() {
        v.subsequent_integrity.level()
    } else {
        v.modified_subsequent_integrity.level()
    }
}

/// The effective SA level of a vector.
fn effective_sa(v: &V4Vector) -> (r: u8)
    ensures
        r == spec_effective_sa(*v),
        r <= 3,
{
    if v.modified_subsequent_availability.is_undefined() {
        v.subsequent_availability.level()
    } else {
        v.modified_subsequent_availability.level()
    }
}

/// The effective E level of a vector.
fn effective_e(v: &V4Vector) -> (r: u8)
    ensures
        r == spec_effective_e(*v),
        r <= 2,
{
    v.exploit_maturity.level()
}

/// The effective CR level of a vector.
fn effective_cr(v: &V4Vector) -> (r: u8)
    ensures
        r == spec_effective_cr(*v),
        r <= 2,
{
    v.confidentiality_requirement.level()
}

/// The effective IR level of a vector.
fn effective_ir(v: &V4Vector) -> (r: u8)
    ensures
        r == spec_effective_ir(*v),
        r <= 2,
{
    v.integrity_requirement.level()
}

/// The effective AR level of a vector.
fn effective_ar(v: &V4Vector) -> (r: u8)
    ensures
        r == spec_effective_ar(*v),
        r <= 2,
{
    v.availability_requirement.level()
}

impl V4Vector {
    /// Build a vector from the required base metrics; every optional metric
    /// starts at its "Not Defined" default.
    pub fn new(
        attack_vector: AttackVector,
        attack_complexity: AttackComplexity,
        attack_requirements: AttackRequirements,
        privileges_required: PrivilegesRequired,
        user_interaction: UserInteraction,
        vulnerable_confidentiality: VulnerableSystemConfidentiality,
        vulnerable_integrity: VulnerableSystemIntegrity,
        vulnerable_availability: VulnerableSystemAvailability,
        subsequent_confidentiality: SubsequentSystemConfidentiality,
        subsequent_integrity: SubsequentSystemIntegrity,
        subsequent_availability: SubsequentSystemAvailability,
    ) -> (r: V4Vector)
        ensures
            r == (V4Vector {
                attack_vector,
                attack_complexity,
                attack_requirements,
                privileges_required,
                user_interaction,
                vulnerable_confidentiality,
                vulnerable_integrity,
                vulnerable_availability,
                subsequent_confidentiality,
                subsequent_integrity,
                subsequent_availability,
                exploit_maturity: ExploitMaturity::NotDefined,
                confidentiality_requirement: ConfidentialityRequirement::NotDefined,
                integrity_requirement: IntegrityRequirement::NotDefined,
                availability_requirement: AvailabilityRequirement::NotDefined,
                modified_attack_vector: ModifiedAttackVector::NotDefined,
                modified_attack_complexity: ModifiedAttackComplexity::NotDefined,
                modified_privileges_required: ModifiedPrivilegesRequired::NotDefined,
                modified_user_interaction: ModifiedUserInteraction::NotDefined,
                modified_vulnerable_confidentiality: ModifiedVulnerableSystemConfidentiality::NotDefined,
                modified_vulnerable_integrity: ModifiedVulnerableSystemIntegrity::NotDefined,
                modified_vulnerable_availability: ModifiedVulnerableSystemAvailability::NotDefined,
                modified_subsequent_confidentiality: ModifiedSubsequentSystemConfidentiality::NotDefined,
                modified_subsequent_integrity: ModifiedSubsequentSystemIntegrity::NotDefined,
                modified_subsequent_availability: ModifiedSubsequentSystemAvailability::NotDefined,
                safety: Safety::NotDefined,
                automatable: Automatable::NotDefined,
                recovery: Recovery::NotDefined,
                value_density: ValueDensity::NotDefined,
                vulnerability_response_effort: VulnerabilityResponseEffort::NotDefined,
                provider_urgency: ProviderUrgency::NotDefined,
            }),
    {
        V4Vector {
            attack_vector,
            attack_complexity,
            attack_requirements,
            privileges_required,
            user_interaction,
            vulnerable_confidentiality,
            vulnerable_integrity,
            vulnerable_availability,
            subsequent_confidentiality,
            subsequent_integrity,
            subsequent_availability,
            exploit_maturity: ExploitMaturity::NotDefined,
            confidentiality_requirement: ConfidentialityRequirement::NotDefined,
            integrity_requirement: IntegrityRequirement::NotDefined,
            availability_requirement: AvailabilityRequirement::NotDefined,
            modified_attack_vector: ModifiedAttackVector::NotDefined,
            modified_attack_complexity: ModifiedAttackComplexity::NotDefined,
            modified_privileges_required: ModifiedPrivilegesRequired::NotDefined,
            modified_user_interaction: ModifiedUserInteraction::NotDefined,
            modified_vulnerable_confidentiality: ModifiedVulnerableSystemConfidentiality::NotDefined,
            modified_vulnerable_integrity: ModifiedVulnerableSystemIntegrity::NotDefined,
            modified_vulnerable_availability: ModifiedVulnerableSystemAvailability::NotDefined,
            modified_subsequent_confidentiality: ModifiedSubsequentSystemConfidentiality::NotDefined,
            modified_subsequent_integrity: ModifiedSubsequentSystemIntegrity::NotDefined,
            modified_subsequent_availability: ModifiedSubsequentSystemAvailability::NotDefined,
            safety: Safety::NotDefined,
            automatable: Automatable::NotDefined,
            recovery: Recovery::NotDefined,
            value_density: ValueDensity::NotDefined,
            vulnerability_response_effort: VulnerabilityResponseEffort::NotDefined,
            provider_urgency: ProviderUrgency::NotDefined,
        }
    }

    /// Parse a v4.0 vector string.
    pub fn parse(s: &str) -> (r: Result<V4Vector, ParseError>)
        ensures
            r == spec_parse_v4(s@),
    {
        let n = s.unicode_len();
        if n < 9 {
            return Err(ParseError::MalformedVector);
        }
        let prefix = s.substring_char(0, 9);
        proof {
            assert(s@.take(9) =~= s@.subrange(0, 9));
        }
        if !str_eq(prefix, "CVSS:4.0/") {
            return Err(ParseError::MalformedVector);
        }
        let rest = s.substring_char(9, n);
        proof {
            assert(rest@ =~= s@.skip(9));
        }
        let parts = split_on(rest, '/');
        let mut i: usize = 0;
        let attack_vector: AttackVector = match parse_metric(&parts, &mut i) {
            Ok(m) => m,
            Err(e) => return Err(e),
        };
        let attack_complexity: AttackComplexity = match parse_metric(&parts, &mut i) {
            Ok(m) => m,
            Err(e) => return Err(e),
        };
        let attack_requirements: AttackRequirements = match parse_metric(&parts, &mut i) {
            Ok(m) => m,
            Err(e) => return Err(e),
        };
        let privileges_required: PrivilegesRequired = match parse_metric(&parts, &mut i) {
            Ok(m) => m,
            Err(e) => return Err(e),
        };
        let user_interaction: UserInteraction = match parse_metric(&parts, &mut i) {
            Ok(m) => m,
            Err(e) => return Err(e),
        };
        let vulnerable_confidentiality: VulnerableSystemConfidentiality = match parse_metric(&parts, &mut i) {
            Ok(m) => m,
            Err(e) => return Err(e),
        };
        let vulnerable_integrity: VulnerableSystemIntegrity = match parse_metric(&parts, &mut i) {
            Ok(m) => m,
            Err(e) => return Err(e),
        };
        let vulnerable_availability: VulnerableSystemAvailability = match parse_metric(&parts, &mut i) {
            Ok(m) => m,
            Err(e) => return Err(e),
        };
        let subsequent_confidentiality: SubsequentSystemConfidentiality = match parse_metric(&parts, &mut i) {
            Ok(m) => m,
            Err(e) => return Err(e),
        };
        let subsequent_integrity: SubsequentSystemIntegrity = match parse_metric(&parts, &mut i) {
            Ok(m) => m,
            Err(e) => return Err(e),
        };
        let subsequent_availability: SubsequentSystemAvailability = match parse_metric(&parts, &mut i) {
            Ok(m) => m,
            Err(e) => return Err(e),
        };
        let mut v = V4Vector {
            attack_vector,
            attack_complexity,
            attack_requirements,
            privileges_required,
            user_interaction,
            vulnerable_confidentiality,
            vulnerable_integrity,
            vulnerable_availability,
            subsequent_confidentiality,
            subsequent_integrity,
            subsequent_availability,
            exploit_maturity: ExploitMaturity::NotDefined,
            confidentiality_requirement: ConfidentialityRequirement::NotDefined,
            integrity_requirement: IntegrityRequirement::NotDefined,
            availability_requirement: AvailabilityRequirement::NotDefined,
            modified_attack_vector: ModifiedAttackVector::NotDefined,
            modified_attack_complexity: ModifiedAttackComplexity::NotDefined,
            modified_privileges_required: ModifiedPrivilegesRequired::NotDefined,
            modified_user_interaction: ModifiedUserInteraction::NotDefined,
            modified_vulnerable_confidentiality: ModifiedVulnerableSystemConfidentiality::NotDefined,
            modified_vulnerable_integrity: ModifiedVulnerableSystemIntegrity::NotDefined,
            modified_vulnerable_availability: ModifiedVulnerableSystemAvailability::NotDefined,
            modified_subsequent_confidentiality: ModifiedSubsequentSystemConfidentiality::NotDefined,
            modified_subsequent_integrity: ModifiedSubsequentSystemIntegrity::NotDefined,
            modified_subsequent_availability: ModifiedSubsequentSystemAvailability::NotDefined,
            safety: Safety::NotDefined,
            automatable: Automatable::NotDefined,
            recovery: Recovery::NotDefined,
            value_density: ValueDensity::NotDefined,
            vulnerability_response_effort: VulnerabilityResponseEffort::NotDefined,
            provider_urgency: ProviderUrgency::NotDefined,
        };
        assert(spec_parse_v4_base(parts.deep_view()) == Ok::<(V4Vector, int), ParseError>(
            (v, i as int),
        ));
        let ghost v_base = v;
        let ghost i_base = i as int;
        match parse_opt_metric::<ExploitMaturity>(&parts, &mut i) {
            Ok(m) => v.exploit_maturity = m,
            Err(e) => return Err(e),
        }
        match parse_opt_metric::<ConfidentialityRequirement>(&parts, &mut i) {
            Ok(m) => v.confidentiality_requirement = m,
            Err(e) => return Err(e),
        }
        match parse_opt_metric::<IntegrityRequirement>(&parts, &mut i) {
            Ok(m) => v.integrity_requirement = m,
            Err(e) => return Err(e),
        }
        match parse_opt_metric::<AvailabilityRequirement>(&parts, &mut i) {
            Ok(m) => v.availability_requirement = m,
            Err(e) => return Err(e),
        }
        match parse_opt_metric::<ModifiedAttackVector>(&parts, &mut i) {
            Ok(m) => v.modified_attack_vector = m,
            Err(e) => return Err(e),
        }
        match parse_opt_metric::<ModifiedAttackComplexity>(&parts, &mut i) {
            Ok(m) => v.modified_attack_complexity = m,
            Err(e) => return Err(e),
        }
        match parse_opt_metric::<ModifiedPrivilegesRequired>(&parts, &mut i) {
            Ok(m) => v.modified_privileges_required = m,
            Err(e) => return Err(e),
        }
        match parse_opt_metric::<ModifiedUserInteraction>(&parts, &mut i) {
            Ok(m) => v.modified_user_interaction = m,
            Err(e) => return Err(e),
        }
        match parse_opt_metric::<ModifiedVulnerableSystemConfidentiality>(&parts, &mut i) {
            Ok(m) => v.modified_vulnerable_confidentiality = m,
            Err(e) => return Err(e),
        }
        match parse_opt_metric::<ModifiedVulnerableSystemIntegrity>(&parts, &mut i) {
            Ok(m) => v.modified_vulnerable_integrity = m,
            Err(e) => return Err(e),
        }
        match parse_opt_metric::<ModifiedVulnerableSystemAvailability>(&parts, &mut i) {
            Ok(m) => v.modified_vulnerable_availability = m,
            Err(e) => return Err(e),
        }
        match parse_opt_metric::<ModifiedSubsequentSystemConfidentiality>(&parts, &mut i) {
            Ok(m) => v.modified_subsequent_confidentiality = m,
            Err(e) => return Err(e),
        }
        match parse_opt_metric::<ModifiedSubsequentSystemIntegrity>(&parts, &mut i) {
            Ok(m) => v.modified_subsequent_integrity = m,
            Err(e) => return Err(e),
        }
        match parse_opt_metric::<ModifiedSubsequentSystemAvailability>(&parts, &mut i) {
            Ok(m) => v.modified_subsequent_availability = m,
            Err(e) => return Err(e),
        }
        assert(spec_parse_v4_threat_env(v_base, parts.deep_view(), i_base) == Ok::<
            (V4Vector, int),
            ParseError,
        >((v, i as int)));
        let ghost v_te = v;
        let ghost i_te = i as int;
        match parse_opt_metric::<Safety>(&parts, &mut i) {
            Ok(m) => v.safety = m,
            Err(e) => return Err(e),
        }
        match parse_opt_metric::<Automatable>(&parts, &mut i) {
            Ok(m) => v.automatable = m,
            Err(e) => return Err(e),
        }
        match parse_opt_metric::<Recovery>(&parts, &mut i) {
            Ok(m) => v.recovery = m,
            Err(e) => return Err(e),
        }
        match parse_opt_metric::<ValueDensity>(&parts, &mut i) {
            Ok(m) => v.value_density = m,
            Err(e) => return Err(e),
        }
        match parse_opt_metric::<VulnerabilityResponseEffort>(&parts, &mut i) {
            Ok(m) => v.vulnerability_response_effort = m,
            Err(e) => return Err(e),
        }
        match parse_opt_metric::<ProviderUrgency>(&parts, &mut i) {
            Ok(m) => v.provider_urgency = m,
            Err(e) => return Err(e),
        }
        assert(spec_parse_v4_supplemental(v_te, parts.deep_view(), i_te) == Ok::<
            (V4Vector, int),
            ParseError,
        >((v, i as int)));
        Ok(v)
    }

    /// The resolved metric set of this vector, as ordinal levels with every
    /// substitution applied.
    pub fn resolve(&self) -> (r: ResolvedVector)
        ensures
            r == spec_resolve(*self),
            r.wf(),
    {
        ResolvedVector {
            av: effective_av(self),
            ac: effective_ac(self),
            at: effective_at(self),
            pr: effective_pr(self),
            ui: effective_ui(self),
            vc: effective_vc(self),
            vi: effective_vi(self),
            va: effective_va(self),
            sc: effective_sc(self),
            si: effective_si(self),
            sa: effective_sa(self),
            e: effective_e(self),
            cr: effective_cr(self),
            ir: effective_ir(self),
            ar: effective_ar(self),
        }
    }

    /// The equivalence-class coordinate of this vector.
    pub fn eqs(&self) -> (mv: MacroVector)
        ensures
            mv == spec_classify(spec_resolve(*self)),
            mv.wf(),
    {
        crate::v4::score::classify(&self.resolve())
    }

    /// The score of this vector with every given metric honored: the
    /// environmental scoring entry point of the v4.0 specification.
    /// Scoring is deterministic: the result is a function of the metric
    /// set alone, as the contract states.
    pub fn score(&self) -> (r: Score)
        ensures
            r.tenths as int == spec_score(*self),
            r.tenths <= 100,
    {
        let t = score_from_resolved(&self.resolve());
        Score::from_tenths(t as u16)
    }

    /// The base score: only the required base metrics count; threat and
    /// environmental metrics are held at their "Not Defined" defaults.
    pub fn base_score(&self) -> (r: Score)
        ensures
            r.tenths as int == spec_score(spec_clear_environmental(spec_clear_threat(*self))),
            r.tenths <= 100,
    {
        let mut v = *self;
        v.clear_threat();
        v.clear_environmental();
        v.score()
    }

    /// The threat-adjusted score: base metrics plus Exploit Maturity;
    /// environmental metrics are held at their "Not Defined" defaults.
    pub fn temporal_score(&self) -> (r: Score)
        ensures
            r.tenths as int == spec_score(spec_clear_environmental(*self)),
            r.tenths <= 100,
    {
        let mut v = *self;
        v.clear_environmental();
        v.score()
    }

    /// The environmental score: the full pipeline, honoring all Modified
    /// and Requirement substitutions.  Equal to [`Self::score`].
    pub fn environmental_score(&self) -> (r: Score)
        ensures
            r.tenths as int == spec_score(*self),
            r.tenths <= 100,
    {
        self.score()
    }

    /// The impact sub-score.  v4.0 does not decompose into separate
    /// impact and exploitability sub-scores, so this is an explicit
    /// "not applicable" signal rather than a number.
    pub fn impact_score(&self) -> (r: Option<Score>)
        ensures
            r is None,
    {
        Option::None
    }

    /// The exploitability sub-score.  v4.0 does not decompose into
    /// separate impact and exploitability sub-scores, so this is an
    /// explicit "not applicable" signal rather than a number.
    pub fn expoitability_score(&self) -> (r: Option<Score>)
        ensures
            r is None,
    {
        Option::None
    }

    /// Parse and add threat metrics to the vector.
    pub fn extend_with_threat(&mut self, threat: &str) -> (r: Result<(), ParseError>)
        ensures
            match spec_parse_metric::<ExploitMaturity>(spec_split(threat@, '/'), 0) {
                Ok(mi) => r == Ok::<(), ParseError>(()) && *final(self) == (V4Vector {
                    exploit_maturity: mi.0,
                    ..*old(self)
                }),
                Err(e) => r == Err::<(), ParseError>(e) && *final(self) == *old(self),
            },
    {
        let parts = split_on(threat, '/');
        let mut i: usize = 0;
        match parse_metric::<ExploitMaturity>(&parts, &mut i) {
            Ok(m) => {
                self.exploit_maturity = m;
                Ok(())
            },
            Err(e) => Err(e),
        }
    }

    /// Reset the threat metrics to their default "Not Defined" state.
    pub fn clear_threat(&mut self)
        ensures
            *final(self) == spec_clear_threat(*old(self)),
    {
        self.exploit_maturity = ExploitMaturity::NotDefined;
    }

    /// Reset the environmental metrics to their default "Not Defined" state.
    pub fn clear_environmental(&mut self)
        ensures
            *final(self) == spec_clear_environmental(*old(self)),
    {
        self.confidentiality_requirement = ConfidentialityRequirement::NotDefined;
        self.integrity_requirement = IntegrityRequirement::NotDefined;
        self.availability_requirement = AvailabilityRequirement::NotDefined;
        self.modified_attack_vector = ModifiedAttackVector::NotDefined;
        self.modified_attack_complexity = ModifiedAttackComplexity::NotDefined;
        self.modified_privileges_required = ModifiedPrivilegesRequired::NotDefined;
        self.modified_user_interaction = ModifiedUserInteraction::NotDefined;
        self.modified_vulnerable_confidentiality = ModifiedVulnerableSystemConfidentiality::NotDefined;
        self.modified_vulnerable_integrity = ModifiedVulnerableSystemIntegrity::NotDefined;
        self.modified_vulnerable_availability = ModifiedVulnerableSystemAvailability::NotDefined;
        self.modified_subsequent_confidentiality = ModifiedSubsequentSystemConfidentiality::NotDefined;
        self.modified_subsequent_integrity = ModifiedSubsequentSystemIntegrity::NotDefined;
        self.modified_subsequent_availability = ModifiedSubsequentSystemAvailability::NotDefined;
    }

    /// Reset the supplemental metrics to their default "Not Defined" state.
    pub fn clear_supplemental(&mut self)
        ensures
            *final(self) == spec_clear_supplemental(*old(self)),
    {
        self.safety = Safety::NotDefined;
        self.automatable = Automatable::NotDefined;
        self.recovery = Recovery::NotDefined;
        self.value_density = ValueDensity::NotDefined;
        self.vulnerability_response_effort = VulnerabilityResponseEffort::NotDefined;
        self.provider_urgency = ProviderUrgency::NotDefined;
    }

    /// Output the minimum vector string, with "Not Defined" optional
    /// metrics omitted.
    pub fn to_string_minimum(&self) -> (r: String)
        ensures
            r@ == spec_min_string(*self),
    {
        let mut vector = String::new();
        append_metric(&mut vector, "AV", &self.attack_vector);
        append_metric(&mut vector, "AC", &self.attack_complexity);
        append_metric(&mut vector, "AT", &self.attack_requirements);
        append_metric(&mut vector, "PR", &self.privileges_required);
        append_metric(&mut vector, "UI", &self.user_interaction);
        append_metric(&mut vector, "VC", &self.vulnerable_confidentiality);
        append_metric(&mut vector, "VI", &self.vulnerable_integrity);
        append_metric(&mut vector, "VA", &self.vulnerable_availability);
        append_metric(&mut vector, "SC", &self.subsequent_confidentiality);
        append_metric(&mut vector, "SI", &self.subsequent_integrity);
        append_metric(&mut vector, "SA", &self.subsequent_availability);
        append_metric_optional(&mut vector, "E", &self.exploit_maturity);
        append_metric_optional(&mut vector, "CR", &self.confidentiality_requirement);
        append_metric_optional(&mut vector, "IR", &self.integrity_requirement);
        append_metric_optional(&mut vector, "AR", &self.availability_requirement);
        append_metric_optional(&mut vector, "MAV", &self.modified_attack_vector);
        append_metric_optional(&mut vector, "MAC", &self.modified_attack_complexity);
        append_metric_optional(&mut vector, "MPR", &self.modified_privileges_required);
        append_metric_optional(&mut vector, "MUI", &self.modified_user_interaction);
        append_metric_optional(&mut vector, "MVC", &self.modified_vulnerable_confidentiality);
        append_metric_optional(&mut vector, "MVI", &self.modified_vulnerable_integrity);
        append_metric_optional(&mut vector, "MVA", &self.modified_vulnerable_availability);
        append_metric_optional(&mut vector, "MSC", &self.modified_subsequent_confidentiality);
        append_metric_optional(&mut vector, "MSI", &self.modified_subsequent_integrity);
        append_metric_optional(&mut vector, "MSA", &self.modified_subsequent_availability);
        append_metric_optional(&mut vector, "S", &self.safety);
        append_metric_optional(&mut vector, "AU", &self.automatable);
        append_metric_optional(&mut vector, "R", &self.recovery);
        append_metric_optional(&mut vector, "V", &self.value_density);
        append_metric_optional(&mut vector, "RE", &self.vulnerability_response_effort);
        append_metric_optional(&mut vector, "U", &self.provider_urgency);
        vector
    }

    /// Output the complete vector string, without omitting any metric.
    pub fn to_string_full(&self) -> (r: String)
        ensures
            r@ == spec_full_string(*self),
    {
        let mut vector = String::new();
        append_metric(&mut vector, "AV", &self.attack_vector);
        append_metric(&mut vector, "AC", &self.attack_complexity);
        append_metric(&mut vector, "AT", &self.attack_requirements);
        append_metric(&mut vector, "PR", &self.privileges_required);
        append_metric(&mut vector, "UI", &self.user_interaction);
        append_metric(&mut vector, "VC", &self.vulnerable_confidentiality);
        append_metric(&mut vector, "VI", &self.vulnerable_integrity);
        append_metric(&mut vector, "VA", &self.vulnerable_availability);
        append_metric(&mut vector, "SC", &self.subsequent_confidentiality);
        append_metric(&mut vector, "SI", &self.subsequent_integrity);
        append_metric(&mut vector, "SA", &self.subsequent_availability);
        append_metric(&mut vector, "E", &self.exploit_maturity);
        append_metric(&mut vector, "CR", &self.confidentiality_requirement);
        append_metric(&mut vector, "IR", &self.integrity_requirement);
        append_metric(&mut vector, "AR", &self.availability_requirement);
        append_metric(&mut vector, "MAV", &self.modified_attack_vector);
        append_metric(&mut vector, "MAC", &self.modified_attack_complexity);
        append_metric(&mut vector, "MPR", &self.modified_privileges_required);
        append_metric(&mut vector, "MUI", &self.modified_user_interaction);
        append_metric(&mut vector, "MVC", &self.modified_vulnerable_confidentiality);
        append_metric(&mut vector, "MVI", &self.modified_vulnerable_integrity);
        append_metric(&mut vector, "MVA", &self.modified_vulnerable_availability);
        append_metric(&mut vector, "MSC", &self.modified_subsequent_confidentiality);
        append_metric(&mut vector, "MSI", &self.modified_subsequent_integrity);
        append_metric(&mut vector, "MSA", &self.modified_subsequent_availability);
        append_metric(&mut vector, "S", &self.safety);
        append_metric(&mut vector, "AU", &self.automatable);
        append_metric(&mut vector, "R", &self.recovery);
        append_metric(&mut vector, "V", &self.value_density);
        append_metric(&mut vector, "RE", &self.vulnerability_response_effort);
        append_metric(&mut vector, "U", &self.provider_urgency);
        vector
    }
}

impl core::str::FromStr for V4Vector {
    type Err = ParseError;

    fn from_str(s: &str) -> Result<V4Vector, ParseError> {
        V4Vector::parse(s)
    }
}

/// The Modified variant that names the same value as a base AttackVector.
pub open spec fn spec_as_av_modified(m: AttackVector) -> ModifiedAttackVector {
    match m {
        AttackVector::Network => ModifiedAttackVector::Network,
        AttackVector::Adjacent => ModifiedAttackVector::Adjacent,
        AttackVector::Local => ModifiedAttackVector::Local,
        AttackVector::Physical => ModifiedAttackVector::Physical,
    }
}

/// The Modified variant that names the same value as a base AttackComplexity.
pub open spec fn spec_as_ac_modified(m: AttackComplexity) -> ModifiedAttackComplexity {
    match m {
        AttackComplexity::Low => ModifiedAttackComplexity::Low,
        AttackComplexity::High => ModifiedAttackComplexity::High,
    }
}

/// The Modified variant that names the same value as a base PrivilegesRequired.
pub open spec fn spec_as_pr_modified(m: PrivilegesRequired) -> ModifiedPrivilegesRequired {
    match m {
        PrivilegesRequired::NoneRequired => ModifiedPrivilegesRequired::NoneRequired,
        PrivilegesRequired::Low => ModifiedPrivilegesRequired::Low,
        PrivilegesRequired::High => ModifiedPrivilegesRequired::High,
    }
}

/// The Modified variant that names the same value as a base UserInteraction.
pub open spec fn spec_as_ui_modified(m: UserInteraction) -> ModifiedUserInteraction {
    match m {
        UserInteraction::NoneRequired => ModifiedUserInteraction::NoneRequired,
        UserInteraction::Passive => ModifiedUserInteraction::Passive,
        UserInteraction::Active => ModifiedUserInteraction::Active,
    }
}

/// The Modified variant that names the same value as a base VulnerableSystemConfidentiality.
pub open spec fn spec_as_vc_modified(m: VulnerableSystemConfidentiality) -> ModifiedVulnerableSystemConfidentiality {
    match m {
        VulnerableSystemConfidentiality::High => ModifiedVulnerableSystemConfidentiality::High,
        VulnerableSystemConfidentiality::Low => ModifiedVulnerableSystemConfidentiality::Low,
        VulnerableSystemConfidentiality::Negligible => ModifiedVulnerableSystemConfidentiality::Negligible,
    }
}

/// The Modified variant that names the same value as a base VulnerableSystemIntegrity.
pub open spec fn spec_as_vi_modified(m: VulnerableSystemIntegrity) -> ModifiedVulnerableSystemIntegrity {
    match m {
        VulnerableSystemIntegrity::High => ModifiedVulnerableSystemIntegrity::High,
        VulnerableSystemIntegrity::Low => ModifiedVulnerableSystemIntegrity::Low,
        VulnerableSystemIntegrity::Negligible => ModifiedVulnerableSystemIntegrity::Negligible,
    }
}

/// The Modified variant that names the same value as a base VulnerableSystemAvailability.
pub open spec fn spec_as_va_modified(m: VulnerableSystemAvailability) -> ModifiedVulnerableSystemAvailability {
    match m {
        VulnerableSystemAvailability::High => ModifiedVulnerableSystemAvailability::High,
        VulnerableSystemAvailability::Low => ModifiedVulnerableSystemAvailability::Low,
        VulnerableSystemAvailability::Negligible => ModifiedVulnerableSystemAvailability::Negligible,
    }
}

/// The Modified variant that names the same value as a base SubsequentSystemConfidentiality.
pub open spec fn spec_as_sc_modified(m: SubsequentSystemConfidentiality) -> ModifiedSubsequentSystemConfidentiality {
    match m {
        SubsequentSystemConfidentiality::High => ModifiedSubsequentSystemConfidentiality::High,
        SubsequentSystemConfidentiality::Low => ModifiedSubsequentSystemConfidentiality::Low,
        SubsequentSystemConfidentiality::Negligible => ModifiedSubsequentSystemConfidentiality::Negligible,
    }
}

/// The Modified variant that names the same value as a base SubsequentSystemIntegrity.
pub open spec fn spec_as_si_modified(m: SubsequentSystemIntegrity) -> ModifiedSubsequentSystemIntegrity {
    match m {
        SubsequentSystemIntegrity::High => ModifiedSubsequentSystemIntegrity::High,
        SubsequentSystemIntegrity::Low => ModifiedSubsequentSystemIntegrity::Low,
        SubsequentSystemIntegrity::Negligible => ModifiedSubsequentSystemIntegrity::Negligible,
    }
}

/// The Modified variant that names the same value as a base SubsequentSystemAvailability.
pub open spec fn spec_as_sa_modified(m: SubsequentSystemAvailability) -> ModifiedSubsequentSystemAvailability {
    match m {
        SubsequentSystemAvailability::High => ModifiedSubsequentSystemAvailability::High,
        SubsequentSystemAvailability::Low => ModifiedSubsequentSystemAvailability::Low,
        SubsequentSystemAvailability::Negligible => ModifiedSubsequentSystemAvailability::Negligible,
    }
}

/// Substitution law for Modified Attack Vector: a vector with that metric
/// "Not Defined" scores the same as one where it is explicitly set to the
/// base metric's value.
pub proof fn lemma_substitution_av(v: V4Vector)
    requires
        v.modified_attack_vector == ModifiedAttackVector::NotDefined,
    ensures
        spec_score(v) == spec_score(
            (V4Vector { modified_attack_vector: spec_as_av_modified(v.attack_vector), ..v }),
        ),
{
    let w = V4Vector { modified_attack_vector: spec_as_av_modified(v.attack_vector), ..v };
    assert(spec_resolve(w) == spec_resolve(v));
}

/// Substitution law for Modified Attack Complexity: a vector with that metric
/// "Not Defined" scores the same as one where it is explicitly set to the
/// base metric's value.
pub proof fn lemma_substitution_ac(v: V4Vector)
    requires
        v.modified_attack_complexity == ModifiedAttackComplexity::NotDefined,
    ensures
        spec_score(v) == spec_score(
            (V4Vector { modified_attack_complexity: spec_as_ac_modified(v.attack_complexity), ..v }),
        ),
{
    let w = V4Vector { modified_attack_complexity: spec_as_ac_modified(v.attack_complexity), ..v };
    assert(spec_resolve(w) == spec_resolve(v));
}

/// Substitution law for Modified Privileges Required: a vector with that metric
/// "Not Defined" scores the same as one where it is explicitly set to the
/// base metric's value.
pub proof fn lemma_substitution_pr(v: V4Vector)
    requires
        v.modified_privileges_required == ModifiedPrivilegesRequired::NotDefined,
    ensures
        spec_score(v) == spec_score(
            (V4Vector { modified_privileges_required: spec_as_pr_modified(v.privileges_required), ..v }),
        ),
{
    let w = V4Vector { modified_privileges_required: spec_as_pr_modified(v.privileges_required), ..v };
    assert(spec_resolve(w) == spec_resolve(v));
}

/// Substitution law for Modified User Interaction: a vector with that metric
/// "Not Defined" scores the same as one where it is explicitly set to the
/// base metric's value.
pub proof fn lemma_substitution_ui(v: V4Vector)
    requires
        v.modified_user_interaction == ModifiedUserInteraction::NotDefined,
    ensures
        spec_score(v) == spec_score(
            (V4Vector { modified_user_interaction: spec_as_ui_modified(v.user_interaction), ..v }),
        ),
{
    let w = V4Vector { modified_user_interaction: spec_as_ui_modified(v.user_interaction), ..v };
    assert(spec_resolve(w) == spec_resolve(v));
}

/// Substitution law for Modified Vulnerable System Confidentiality: a vector with that metric
/// "Not Defined" scores the same as one where it is explicitly set to the
/// base metric's value.
pub proof fn lemma_substitution_vc(v: V4Vector)
    requires
        v.modified_vulnerable_confidentiality == ModifiedVulnerableSystemConfidentiality::NotDefined,
    ensures
        spec_score(v) == spec_score(
            (V4Vector { modified_vulnerable_confidentiality: spec_as_vc_modified(v.vulnerable_confidentiality), ..v }),
        ),
{
    let w = V4Vector { modified_vulnerable_confidentiality: spec_as_vc_modified(v.vulnerable_confidentiality), ..v };
    assert(spec_resolve(w) == spec_resolve(v));
}

/// Substitution law for Modified Vulnerable System Integrity: a vector with that metric
/// "Not Defined" scores the same as one where it is explicitly set to the
/// base metric's value.
pub proof fn lemma_substitution_vi(v: V4Vector)
    requires
        v.modified_vulnerable_integrity == ModifiedVulnerableSystemIntegrity::NotDefined,
    ensures
        spec_score(v) == spec_score(
            (V4Vector { modified_vulnerable_integrity: spec_as_vi_modified(v.vulnerable_integrity), ..v }),
        ),
{
    let w = V4Vector { modified_vulnerable_integrity: spec_as_vi_modified(v.vulnerable_integrity), ..v };
    assert(spec_resolve(w) == spec_resolve(v));
}

/// Substitution law for Modified Vulnerable System Availability: a vector with that metric
/// "Not Defined" scores the same as one where it is explicitly set to the
/// base metric's value.
pub proof fn lemma_substitution_va(v: V4Vector)
    requires
        v.modified_vulnerable_availability == ModifiedVulnerableSystemAvailability::NotDefined,
    ensures
        spec_score(v) == spec_score(
            (V4Vector { modified_vulnerable_availability: spec_as_va_modified(v.vulnerable_availability), ..v }),
        ),
{
    let w = V4Vector { modified_vulnerable_availability: spec_as_va_modified(v.vulnerable_availability), ..v };
    assert(spec_resolve(w) == spec_resolve(v));
}

/// Substitution law for Modified Subsequent System Confidentiality: a vector with that metric
/// "Not Defined" scores the same as one where it is explicitly set to the
/// base metric's value.
pub proof fn lemma_substitution_sc(v: V4Vector)
    requires
        v.modified_subsequent_confidentiality == ModifiedSubsequentSystemConfidentiality::NotDefined,
    ensures
        spec_score(v) == spec_score(
            (V4Vector { modified_subsequent_confidentiality: spec_as_sc_modified(v.subsequent_confidentiality), ..v }),
        ),
{
    let w = V4Vector { modified_subsequent_confidentiality: spec_as_sc_modified(v.subsequent_confidentiality), ..v };
    assert(spec_resolve(w) == spec_resolve(v));
}

/// Substitution law for Modified Subsequent System Integrity: a vector with that metric
/// "Not Defined" scores the same as one where it is explicitly set to the
/// base metric's value.
pub proof fn lemma_substitution_si(v: V4Vector)
    requires
        v.modified_subsequent_integrity == ModifiedSubsequentSystemIntegrity::NotDefined,
    ensures
        spec_score(v) == spec_score(
            (V4Vector { modified_subsequent_integrity: spec_as_si_modified(v.subsequent_integrity), ..v }),
        ),
{
    let w = V4Vector { modified_subsequent_integrity: spec_as_si_modified(v.subsequent_integrity), ..v };
    assert(spec_resolve(w) == spec_resolve(v));
}

/// Substitution law for Modified Subsequent System Availability: a vector with that metric
/// "Not Defined" scores the same as one where it is explicitly set to the
/// base metric's value.
pub proof fn lemma_substitution_sa(v: V4Vector)
    requires
        v.modified_subsequent_availability == ModifiedSubsequentSystemAvailability::NotDefined,
    ensures
        spec_score(v) == spec_score(
            (V4Vector { modified_subsequent_availability: spec_as_sa_modified(v.subsequent_availability), ..v }),
        ),
{
    let w = V4Vector { modified_subsequent_availability: spec_as_sa_modified(v.subsequent_availability), ..v };
    assert(spec_resolve(w) == spec_resolve(v));
}

/// Substitution law: for any vector, if a Modified metric is "Not
/// Defined", the environmental score equals the score computed with that
/// Modified metric explicitly set to the corresponding base metric's value.
#[verifier::rlimit(100)]
#[verifier::spinoff_prover]
pub proof fn lemma_modified_substitution(v: V4Vector)
    ensures
        v.modified_attack_vector == ModifiedAttackVector::NotDefined ==> spec_score(v) == spec_score(
            (V4Vector { modified_attack_vector: spec_as_av_modified(v.attack_vector), ..v }),
        ),
        v.modified_attack_complexity == ModifiedAttackComplexity::NotDefined ==> spec_score(v) == spec_score(
            (V4Vector { modified_attack_complexity: spec_as_ac_modified(v.attack_complexity), ..v }),
        ),
        v.modified_privileges_required == ModifiedPrivilegesRequired::NotDefined ==> spec_score(v) == spec_score(
            (V4Vector { modified_privileges_required: spec_as_pr_modified(v.privileges_required), ..v }),
        ),
        v.modified_user_interaction == ModifiedUserInteraction::NotDefined ==> spec_score(v) == spec_score(
            (V4Vector { modified_user_interaction: spec_as_ui_modified(v.user_interaction), ..v }),
        ),
        v.modified_vulnerable_confidentiality == ModifiedVulnerableSystemConfidentiality::NotDefined ==> spec_score(v) == spec_score(
            (V4Vector { modified_vulnerable_confidentiality: spec_as_vc_modified(v.vulnerable_confidentiality), ..v }),
        ),
        v.modified_vulnerable_integrity == ModifiedVulnerableSystemIntegrity::NotDefined ==> spec_score(v) == spec_score(
            (V4Vector { modified_vulnerable_integrity: spec_as_vi_modified(v.vulnerable_integrity), ..v }),
        ),
        v.modified_vulnerable_availability == ModifiedVulnerableSystemAvailability::NotDefined ==> spec_score(v) == spec_score(
            (V4Vector { modified_vulnerable_availability: spec_as_va_modified(v.vulnerable_availability), ..v }),
        ),
        v.modified_subsequent_confidentiality == ModifiedSubsequentSystemConfidentiality::NotDefined ==> spec_score(v) == spec_score(
            (V4Vector { modified_subsequent_confidentiality: spec_as_sc_modified(v.subsequent_confidentiality), ..v }),
        ),
        v.modified_subsequent_integrity == ModifiedSubsequentSystemIntegrity::NotDefined ==> spec_score(v) == spec_score(
            (V4Vector { modified_subsequent_integrity: spec_as_si_modified(v.subsequent_integrity), ..v }),
        ),
        v.modified_subsequent_availability == ModifiedSubsequentSystemAvailability::NotDefined ==> spec_score(v) == spec_score(
            (V4Vector { modified_subsequent_availability: spec_as_sa_modified(v.subsequent_availability), ..v }),
        ),
{
    if v.modified_attack_vector == ModifiedAttackVector::NotDefined {
        lemma_substitution_av(v);
    }
    if v.modified_attack_complexity == ModifiedAttackComplexity::NotDefined {
        lemma_substitution_ac(v);
    }
    if v.modified_privileges_required == ModifiedPrivilegesRequired::NotDefined {
        lemma_substitution_pr(v);
    }
    if v.modified_user_interaction == ModifiedUserInteraction::NotDefined {
        lemma_substitution_ui(v);
    }
    if v.modified_vulnerable_confidentiality == ModifiedVulnerableSystemConfidentiality::NotDefined {
        lemma_substitution_vc(v);
    }
    if v.modified_vulnerable_integrity == ModifiedVulnerableSystemIntegrity::NotDefined {
        lemma_substitution_vi(v);
    }
    if v.modified_vulnerable_availability == ModifiedVulnerableSystemAvailability::NotDefined {
        lemma_substitution_va(v);
    }
    if v.modified_subsequent_confidentiality == ModifiedSubsequentSystemConfidentiality::NotDefined {
        lemma_substitution_sc(v);
    }
    if v.modified_subsequent_integrity == ModifiedSubsequentSystemIntegrity::NotDefined {
        lemma_substitution_si(v);
    }
    if v.modified_subsequent_availability == ModifiedSubsequentSystemAvailability::NotDefined {
        lemma_substitution_sa(v);
    }
}

/// For every vector the computed score lies in the published range:
/// zero to ten points, held here as tenths.
pub proof fn lemma_score_in_range(v: V4Vector)
    ensures
        0 <= spec_score(v) <= 100,
{
    crate::v4::score::lemma_score_resolved_in_range(spec_resolve(v));
}

/// The base part of the full vector string splits into the eleven base
/// `name:token` parts.
#[verifier::rlimit(100)]
#[verifier::spinoff_prover]
proof fn lemma_full_string_split_base(v: V4Vector)
    ensures
        spec_full_string_base(v).len() > 0,
        spec_split(spec_full_string_base(v), '/') == seq![
            "AV"@ + seq![':'] + v.attack_vector.spec_token(),
            "AC"@ + seq![':'] + v.attack_complexity.spec_token(),
            "AT"@ + seq![':'] + v.attack_requirements.spec_token(),
            "PR"@ + seq![':'] + v.privileges_required.spec_token(),
            "UI"@ + seq![':'] + v.user_interaction.spec_token(),
            "VC"@ + seq![':'] + v.vulnerable_confidentiality.spec_token(),
            "VI"@ + seq![':'] + v.vulnerable_integrity.spec_token(),
            "VA"@ + seq![':'] + v.vulnerable_availability.spec_token(),
            "SC"@ + seq![':'] + v.subsequent_confidentiality.spec_token(),
            "SI"@ + seq![':'] + v.subsequent_integrity.spec_token(),
            "SA"@ + seq![':'] + v.subsequent_availability.spec_token(),
        ],
{
    reveal_strlit(":");
    reveal_strlit("/");
    crate::v3::base::lemma_attack_vector_token_chars(v.attack_vector);
    crate::v3::base::lemma_attack_complexity_token_chars(v.attack_complexity);
    base::lemma_attack_requirements_token_chars(v.attack_requirements);
    crate::v3::base::lemma_privileges_required_token_chars(v.privileges_required);
    base::lemma_user_interaction_token_chars(v.user_interaction);
    base::lemma_vulnerable_system_confidentiality_token_chars(v.vulnerable_confidentiality);
    base::lemma_vulnerable_system_integrity_token_chars(v.vulnerable_integrity);
    base::lemma_vulnerable_system_availability_token_chars(v.vulnerable_availability);
    base::lemma_subsequent_system_confidentiality_token_chars(v.subsequent_confidentiality);
    base::lemma_subsequent_system_integrity_token_chars(v.subsequent_integrity);
    base::lemma_subsequent_system_availability_token_chars(v.subsequent_availability);
    let s0: Seq<char> = spec_append_metric(Seq::empty(), "AV"@, v.attack_vector.spec_token());
    lemma_append_metric_first("AV"@, v.attack_vector.spec_token());
    let s1: Seq<char> = spec_append_metric(s0, "AC"@, v.attack_complexity.spec_token());
    assert(s0.len() > 0);
    lemma_append_metric_split(s0, "AC"@, v.attack_complexity.spec_token());
    let s2: Seq<char> = spec_append_metric(s1, "AT"@, v.attack_requirements.spec_token());
    assert(s1.len() > 0);
    lemma_append_metric_split(s1, "AT"@, v.attack_requirements.spec_token());
    let s3: Seq<char> = spec_append_metric(s2, "PR"@, v.privileges_required.spec_token());
    assert(s2.len() > 0);
    lemma_append_metric_split(s2, "PR"@, v.privileges_required.spec_token());
    let s4: Seq<char> = spec_append_metric(s3, "UI"@, v.user_interaction.spec_token());
    assert(s3.len() > 0);
    lemma_append_metric_split(s3, "UI"@, v.user_interaction.spec_token());
    let s5: Seq<char> = spec_append_metric(s4, "VC"@, v.vulnerable_confidentiality.spec_token());
    assert(s4.len() > 0);
    lemma_append_metric_split(s4, "VC"@, v.vulnerable_confidentiality.spec_token());
    let s6: Seq<char> = spec_append_metric(s5, "VI"@, v.vulnerable_integrity.spec_token());
    assert(s5.len() > 0);
    lemma_append_metric_split(s5, "VI"@, v.vulnerable_integrity.spec_token());
    let s7: Seq<char> = spec_append_metric(s6, "VA"@, v.vulnerable_availability.spec_token());
    assert(s6.len() > 0);
    lemma_append_metric_split(s6, "VA"@, v.vulnerable_availability.spec_token());
    let s8: Seq<char> = spec_append_metric(s7, "SC"@, v.subsequent_confidentiality.spec_token());
    assert(s7.len() > 0);
    lemma_append_metric_split(s7, "SC"@, v.subsequent_confidentiality.spec_token());
    let s9: Seq<char> = spec_append_metric(s8, "SI"@, v.subsequent_integrity.spec_token());
    assert(s8.len() > 0);
    lemma_append_metric_split(s8, "SI"@, v.subsequent_integrity.spec_token());
    let s10: Seq<char> = spec_append_metric(s9, "SA"@, v.subsequent_availability.spec_token());
    assert(s9.len() > 0);
    lemma_append_metric_split(s9, "SA"@, v.subsequent_availability.spec_token());
    assert(s10 == spec_full_string_base(v));
    assert(spec_split(s10, '/') =~= seq![
        "AV"@ + seq![':'] + v.attack_vector.spec_token(),
        "AC"@ + seq![':'] + v.attack_complexity.spec_token(),
        "AT"@ + seq![':'] + v.attack_requirements.spec_token(),
        "PR"@ + seq![':'] + v.privileges_required.spec_token(),
        "UI"@ + seq![':'] + v.user_interaction.spec_token(),
        "VC"@ + seq![':'] + v.vulnerable_confidentiality.spec_token(),
        "VI"@ + seq![':'] + v.vulnerable_integrity.spec_token(),
        "VA"@ + seq![':'] + v.vulnerable_availability.spec_token(),
        "SC"@ + seq![':'] + v.subsequent_confidentiality.spec_token(),
        "SI"@ + seq![':'] + v.subsequent_integrity.spec_token(),
        "SA"@ + seq![':'] + v.subsequent_availability.spec_token(),
    ]);
}

/// Appending the threat metric and the requirements appends their four
/// parts to the split.
#[verifier::rlimit(100)]
#[verifier::spinoff_prover]
proof fn lemma_full_string_split_threat_req(v: V4Vector, s: Seq<char>)
    requires
        s.len() > 0,
    ensures
        spec_full_string_threat_req(s, v).len() > 0,
        spec_split(spec_full_string_threat_req(s, v), '/') == spec_split(s, '/') + seq![
            "E"@ + seq![':'] + v.exploit_maturity.spec_token(),
            "CR"@ + seq![':'] + v.confidentiality_requirement.spec_token(),
            "IR"@ + seq![':'] + v.integrity_requirement.spec_token(),
            "AR"@ + seq![':'] + v.availability_requirement.spec_token(),
        ],
{
    reveal_strlit(":");
    reveal_strlit("/");
    threat::lemma_exploit_maturity_token_chars(v.exploit_maturity);
    crate::v3::env::lemma_confidentiality_requirement_token_chars(v.confidentiality_requirement);
    crate::v3::env::lemma_integrity_requirement_token_chars(v.integrity_requirement);
    crate::v3::env::lemma_availability_requirement_token_chars(v.availability_requirement);
    let s0: Seq<char> = spec_append_metric(s, "E"@, v.exploit_maturity.spec_token());
    lemma_append_metric_split(s, "E"@, v.exploit_maturity.spec_token());
    let s1: Seq<char> = spec_append_metric(s0, "CR"@, v.confidentiality_requirement.spec_token());
    assert(s0.len() > 0);
    lemma_append_metric_split(s0, "CR"@, v.confidentiality_requirement.spec_token());
    let s2: Seq<char> = spec_append_metric(s1, "IR"@, v.integrity_requirement.spec_token());
    assert(s1.len() > 0);
    lemma_append_metric_split(s1, "IR"@, v.integrity_requirement.spec_token());
    let s3: Seq<char> = spec_append_metric(s2, "AR"@, v.availability_requirement.spec_token());
    assert(s2.len() > 0);
    lemma_append_metric_split(s2, "AR"@, v.availability_requirement.spec_token());
    assert(s3 == spec_full_string_threat_req(s, v));
    assert(spec_split(s3, '/') =~= spec_split(s, '/') + seq![
        "E"@ + seq![':'] + v.exploit_maturity.spec_token(),
        "CR"@ + seq![':'] + v.confidentiality_requirement.spec_token(),
        "IR"@ + seq![':'] + v.integrity_requirement.spec_token(),
        "AR"@ + seq![':'] + v.availability_requirement.spec_token(),
    ]);
}
/// Appending the first five modified metrics appends their parts to the
/// split.
#[verifier::rlimit(100)]
#[verifier::spinoff_prover]
proof fn lemma_full_string_split_modified_vuln(v: V4Vector, s: Seq<char>)
    requires
        s.len() > 0,
    ensures
        spec_full_string_modified_vuln(s, v).len() > 0,
        spec_split(spec_full_string_modified_vuln(s, v), '/') == spec_split(s, '/') + seq![
            "MAV"@ + seq![':'] + v.modified_attack_vector.spec_token(),
            "MAC"@ + seq![':'] + v.modified_attack_complexity.spec_token(),
            "MPR"@ + seq![':'] + v.modified_privileges_required.spec_token(),
            "MUI"@ + seq![':'] + v.modified_user_interaction.spec_token(),
            "MVC"@ + seq![':'] + v.modified_vulnerable_confidentiality.spec_token(),
        ],
{
    reveal_strlit(":");
    reveal_strlit("/");
    crate::v3::env::lemma_modified_attack_vector_token_chars(v.modified_attack_vector);
    crate::v3::env::lemma_modified_attack_complexity_token_chars(v.modified_attack_complexity);
    crate::v3::env::lemma_modified_privileges_required_token_chars(v.modified_privileges_required);
    env::lemma_modified_user_interaction_token_chars(v.modified_user_interaction);
    env::lemma_modified_vulnerable_system_confidentiality_token_chars(v.modified_vulnerable_confidentiality);
    let s0: Seq<char> = spec_append_metric(s, "MAV"@, v.modified_attack_vector.spec_token());
    lemma_append_metric_split(s, "MAV"@, v.modified_attack_vector.spec_token());
    let s1: Seq<char> = spec_append_metric(s0, "MAC"@, v.modified_attack_complexity.spec_token());
    assert(s0.len() > 0);
    lemma_append_metric_split(s0, "MAC"@, v.modified_attack_complexity.spec_token());
    let s2: Seq<char> = spec_append_metric(s1, "MPR"@, v.modified_privileges_required.spec_token());
    assert(s1.len() > 0);
    lemma_append_metric_split(s1, "MPR"@, v.modified_privileges_required.spec_token());
    let s3: Seq<char> = spec_append_metric(s2, "MUI"@, v.modified_user_interaction.spec_token());
    assert(s2.len() > 0);
    lemma_append_metric_split(s2, "MUI"@, v.modified_user_interaction.spec_token());
    let s4: Seq<char> = spec_append_metric(s3, "MVC"@, v.modified_vulnerable_confidentiality.spec_token());
    assert(s3.len() > 0);
    lemma_append_metric_split(s3, "MVC"@, v.modified_vulnerable_confidentiality.spec_token());
    assert(s4 == spec_full_string_modified_vuln(s, v));
    assert(spec_split(s4, '/') =~= spec_split(s, '/') + seq![
        "MAV"@ + seq![':'] + v.modified_attack_vector.spec_token(),
        "MAC"@ + seq![':'] + v.modified_attack_complexity.spec_token(),
        "MPR"@ + seq![':'] + v.modified_privileges_required.spec_token(),
        "MUI"@ + seq![':'] + v.modified_user_interaction.spec_token(),
        "MVC"@ + seq![':'] + v.modified_vulnerable_confidentiality.spec_token(),
    ]);
}
/// Appending the last five modified metrics appends their parts to the
/// split.
#[verifier::rlimit(100)]
#[verifier::spinoff_prover]
proof fn lemma_full_string_split_modified_subs(v: V4Vector, s: Seq<char>)
    requires
        s.len() > 0,
    ensures
        spec_full_string_modified_subs(s, v).len() > 0,
        spec_split(spec_full_string_modified_subs(s, v), '/') == spec_split(s, '/') + seq![
            "MVI"@ + seq![':'] + v.modified_vulnerable_integrity.spec_token(),
            "MVA"@ + seq![':'] + v.modified_vulnerable_availability.spec_token(),
            "MSC"@ + seq![':'] + v.modified_subsequent_confidentiality.spec_token(),
            "MSI"@ + seq![':'] + v.modified_subsequent_integrity.spec_token(),
            "MSA"@ + seq![':'] + v.modified_subsequent_availability.spec_token(),
        ],
{
    reveal_strlit(":");
    reveal_strlit("/");
    env::lemma_modified_vulnerable_system_integrity_token_chars(v.modified_vulnerable_integrity);
    env::lemma_modified_vulnerable_system_availability_token_chars(v.modified_vulnerable_availability);
    env::lemma_modified_subsequent_system_confidentiality_token_chars(v.modified_subsequent_confidentiality);
    env::lemma_modified_subsequent_system_integrity_token_chars(v.modified_subsequent_integrity);
    env::lemma_modified_subsequent_system_availability_token_chars(v.modified_subsequent_availability);
    let s0: Seq<char> = spec_append_metric(s, "MVI"@, v.modified_vulnerable_integrity.spec_token());
    lemma_append_metric_split(s, "MVI"@, v.modified_vulnerable_integrity.spec_token());
    let s1: Seq<char> = spec_append_metric(s0, "MVA"@, v.modified_vulnerable_availability.spec_token());
    assert(s0.len() > 0);
    lemma_append_metric_split(s0, "MVA"@, v.modified_vulnerable_availability.spec_token());
    let s2: Seq<char> = spec_append_metric(s1, "MSC"@, v.modified_subsequent_confidentiality.spec_token());
    assert(s1.len() > 0);
    lemma_append_metric_split(s1, "MSC"@, v.modified_subsequent_confidentiality.spec_token());
    let s3: Seq<char> = spec_append_metric(s2, "MSI"@, v.modified_subsequent_integrity.spec_token());
    assert(s2.len() > 0);
    lemma_append_metric_split(s2, "MSI"@, v.modified_subsequent_integrity.spec_token());
    let s4: Seq<char> = spec_append_metric(s3, "MSA"@, v.modified_subsequent_availability.spec_token());
    assert(s3.len() > 0);
    lemma_append_metric_split(s3, "MSA"@, v.modified_subsequent_availability.spec_token());
    assert(s4 == spec_full_string_modified_subs(s, v));
    assert(spec_split(s4, '/') =~= spec_split(s, '/') + seq![
        "MVI"@ + seq![':'] + v.modified_vulnerable_integrity.spec_token(),
        "MVA"@ + seq![':'] + v.modified_vulnerable_availability.spec_token(),
        "MSC"@ + seq![':'] + v.modified_subsequent_confidentiality.spec_token(),
        "MSI"@ + seq![':'] + v.modified_subsequent_integrity.spec_token(),
        "MSA"@ + seq![':'] + v.modified_subsequent_availability.spec_token(),
    ]);
}
/// Appending the supplemental metrics appends their six parts to the
/// split.
#[verifier::rlimit(100)]
#[verifier::spinoff_prover]
proof fn lemma_full_string_split_supplemental(v: V4Vector, s: Seq<char>)
    requires
        s.len() > 0,
    ensures
        spec_full_string_supplemental(s, v).len() > 0,
        spec_split(spec_full_string_supplemental(s, v), '/') == spec_split(s, '/') + seq![
            "S"@ + seq![':'] + v.safety.spec_token(),
            "AU"@ + seq![':'] + v.automatable.spec_token(),
            "R"@ + seq![':'] + v.recovery.spec_token(),
            "V"@ + seq![':'] + v.value_density.spec_token(),
            "RE"@ + seq![':'] + v.vulnerability_response_effort.spec_token(),
            "U"@ + seq![':'] + v.provider_urgency.spec_token(),
        ],
{
    reveal_strlit(":");
    reveal_strlit("/");
    supplemental::lemma_safety_token_chars(v.safety);
    supplemental::lemma_automatable_token_chars(v.automatable);
    supplemental::lemma_recovery_token_chars(v.recovery);
    supplemental::lemma_value_density_token_chars(v.value_density);
    supplemental::lemma_vulnerability_response_effort_token_chars(v.vulnerability_response_effort);
    supplemental::lemma_provider_urgency_token_chars(v.provider_urgency);
    let s0: Seq<char> = spec_append_metric(s, "S"@, v.safety.spec_token());
    lemma_append_metric_split(s, "S"@, v.safety.spec_token());
    let s1: Seq<char> = spec_append_metric(s0, "AU"@, v.automatable.spec_token());
    assert(s0.len() > 0);
    lemma_append_metric_split(s0, "AU"@, v.automatable.spec_token());
    let s2: Seq<char> = spec_append_metric(s1, "R"@, v.recovery.spec_token());
    assert(s1.len() > 0);
    lemma_append_metric_split(s1, "R"@, v.recovery.spec_token());
    let s3: Seq<char> = spec_append_metric(s2, "V"@, v.value_density.spec_token());
    assert(s2.len() > 0);
    lemma_append_metric_split(s2, "V"@, v.value_density.spec_token());
    let s4: Seq<char> = spec_append_metric(s3, "RE"@, v.vulnerability_response_effort.spec_token());
    assert(s3.len() > 0);
    lemma_append_metric_split(s3, "RE"@, v.vulnerability_response_effort.spec_token());
    let s5: Seq<char> = spec_append_metric(s4, "U"@, v.provider_urgency.spec_token());
    assert(s4.len() > 0);
    lemma_append_metric_split(s4, "U"@, v.provider_urgency.spec_token());
    assert(s5 == spec_full_string_supplemental(s, v));
    assert(spec_split(s5, '/') =~= spec_split(s, '/') + seq![
        "S"@ + seq![':'] + v.safety.spec_token(),
        "AU"@ + seq![':'] + v.automatable.spec_token(),
        "R"@ + seq![':'] + v.recovery.spec_token(),
        "V"@ + seq![':'] + v.value_density.spec_token(),
        "RE"@ + seq![':'] + v.vulnerability_response_effort.spec_token(),
        "U"@ + seq![':'] + v.provider_urgency.spec_token(),
    ]);
}

/// The full vector string splits on the vector delimiter into exactly the
/// thirty-one `name:token` parts, in the published order.
#[verifier::rlimit(100)]
#[verifier::spinoff_prover]
proof fn lemma_full_string_split(v: V4Vector)
    ensures
        ({
            let parts = spec_split(spec_full_string(v), '/');
            &&& parts.len() == 31
            &&& parts[0] == "AV"@ + seq![':'] + v.attack_vector.spec_token()
            &&& parts[1] == "AC"@ + seq![':'] + v.attack_complexity.spec_token()
            &&& parts[2] == "AT"@ + seq![':'] + v.attack_requirements.spec_token()
            &&& parts[3] == "PR"@ + seq![':'] + v.privileges_required.spec_token()
            &&& parts[4] == "UI"@ + seq![':'] + v.user_interaction.spec_token()
            &&& parts[5] == "VC"@ + seq![':'] + v.vulnerable_confidentiality.spec_token()
            &&& parts[6] == "VI"@ + seq![':'] + v.vulnerable_integrity.spec_token()
            &&& parts[7] == "VA"@ + seq![':'] + v.vulnerable_availability.spec_token()
            &&& parts[8] == "SC"@ + seq![':'] + v.subsequent_confidentiality.spec_token()
            &&& parts[9] == "SI"@ + seq![':'] + v.subsequent_integrity.spec_token()
            &&& parts[10] == "SA"@ + seq![':'] + v.subsequent_availability.spec_token()
            &&& parts[11] == "E"@ + seq![':'] + v.exploit_maturity.spec_token()
            &&& parts[12] == "CR"@ + seq![':'] + v.confidentiality_requirement.spec_token()
            &&& parts[13] == "IR"@ + seq![':'] + v.integrity_requirement.spec_token()
            &&& parts[14] == "AR"@ + seq![':'] + v.availability_requirement.spec_token()
            &&& parts[15] == "MAV"@ + seq![':'] + v.modified_attack_vector.spec_token()
            &&& parts[16] == "MAC"@ + seq![':'] + v.modified_attack_complexity.spec_token()
            &&& parts[17] == "MPR"@ + seq![':'] + v.modified_privileges_required.spec_token()
            &&& parts[18] == "MUI"@ + seq![':'] + v.modified_user_interaction.spec_token()
            &&& parts[19] == "MVC"@ + seq![':'] + v.modified_vulnerable_confidentiality.spec_token()
            &&& parts[20] == "MVI"@ + seq![':'] + v.modified_vulnerable_integrity.spec_token()
            &&& parts[21] == "MVA"@ + seq![':'] + v.modified_vulnerable_availability.spec_token()
            &&& parts[22] == "MSC"@ + seq![':'] + v.modified_subsequent_confidentiality.spec_token()
            &&& parts[23] == "MSI"@ + seq![':'] + v.modified_subsequent_integrity.spec_token()
            &&& parts[24] == "MSA"@ + seq![':'] + v.modified_subsequent_availability.spec_token()
            &&& parts[25] == "S"@ + seq![':'] + v.safety.spec_token()
            &&& parts[26] == "AU"@ + seq![':'] + v.automatable.spec_token()
            &&& parts[27] == "R"@ + seq![':'] + v.recovery.spec_token()
            &&& parts[28] == "V"@ + seq![':'] + v.value_density.spec_token()
            &&& parts[29] == "RE"@ + seq![':'] + v.vulnerability_response_effort.spec_token()
            &&& parts[30] == "U"@ + seq![':'] + v.provider_urgency.spec_token()
        }),
{
    lemma_full_string_split_base(v);
    lemma_full_string_split_threat_req(v, spec_full_string_base(v));
    lemma_full_string_split_modified_vuln(
        v,
        spec_full_string_threat_req(spec_full_string_base(v), v),
    );
    lemma_full_string_split_modified_subs(
        v,
        spec_full_string_modified_vuln(
            spec_full_string_threat_req(spec_full_string_base(v), v),
            v,
        ),
    );
    lemma_full_string_split_supplemental(
        v,
        spec_full_string_modified_subs(
            spec_full_string_modified_vuln(
                spec_full_string_threat_req(spec_full_string_base(v), v),
                v,
            ),
            v,
        ),
    );
}

/// Parsing the first eleven parts of a full vector string yields the
/// base metrics of the vector.
#[verifier::rlimit(100)]
#[verifier::spinoff_prover]
proof fn lemma_parse_full_base(v: V4Vector, parts: Seq<Seq<char>>)
    requires
        parts.len() == 31,
        parts[0] == "AV"@ + seq![':'] + v.attack_vector.spec_token(),
        parts[1] == "AC"@ + seq![':'] + v.attack_complexity.spec_token(),
        parts[2] == "AT"@ + seq![':'] + v.attack_requirements.spec_token(),
        parts[3] == "PR"@ + seq![':'] + v.privileges_required.spec_token(),
        parts[4] == "UI"@ + seq![':'] + v.user_interaction.spec_token(),
        parts[5] == "VC"@ + seq![':'] + v.vulnerable_confidentiality.spec_token(),
        parts[6] == "VI"@ + seq![':'] + v.vulnerable_integrity.spec_token(),
        parts[7] == "VA"@ + seq![':'] + v.vulnerable_availability.spec_token(),
        parts[8] == "SC"@ + seq![':'] + v.subsequent_confidentiality.spec_token(),
        parts[9] == "SI"@ + seq![':'] + v.subsequent_integrity.spec_token(),
        parts[10] == "SA"@ + seq![':'] + v.subsequent_availability.spec_token(),
    ensures
        spec_parse_v4_base(parts) == Ok::<(V4Vector, int), ParseError>((
            V4Vector {
                attack_vector: v.attack_vector,
                attack_complexity: v.attack_complexity,
                attack_requirements: v.attack_requirements,
                privileges_required: v.privileges_required,
                user_interaction: v.user_interaction,
                vulnerable_confidentiality: v.vulnerable_confidentiality,
                vulnerable_integrity: v.vulnerable_integrity,
                vulnerable_availability: v.vulnerable_availability,
                subsequent_confidentiality: v.subsequent_confidentiality,
                subsequent_integrity: v.subsequent_integrity,
                subsequent_availability: v.subsequent_availability,
                exploit_maturity: ExploitMaturity::NotDefined,
                confidentiality_requirement: ConfidentialityRequirement::NotDefined,
                integrity_requirement: IntegrityRequirement::NotDefined,
                availability_requirement: AvailabilityRequirement::NotDefined,
                modified_attack_vector: ModifiedAttackVector::NotDefined,
                modified_attack_complexity: ModifiedAttackComplexity::NotDefined,
                modified_privileges_required: ModifiedPrivilegesRequired::NotDefined,
                modified_user_interaction: ModifiedUserInteraction::NotDefined,
                modified_vulnerable_confidentiality: ModifiedVulnerableSystemConfidentiality::NotDefined,
                modified_vulnerable_integrity: ModifiedVulnerableSystemIntegrity::NotDefined,
                modified_vulnerable_availability: ModifiedVulnerableSystemAvailability::NotDefined,
                modified_subsequent_confidentiality: ModifiedSubsequentSystemConfidentiality::NotDefined,
                modified_subsequent_integrity: ModifiedSubsequentSystemIntegrity::NotDefined,
                modified_subsequent_availability: ModifiedSubsequentSystemAvailability::NotDefined,
                safety: Safety::NotDefined,
                automatable: Automatable::NotDefined,
                recovery: Recovery::NotDefined,
                value_density: ValueDensity::NotDefined,
                vulnerability_response_effort: VulnerabilityResponseEffort::NotDefined,
                provider_urgency: ProviderUrgency::NotDefined,
            },
            11,
        )),
{
    crate::v3::base::lemma_attack_vector_token_chars(v.attack_vector);
    lemma_split_once_append("AV"@, v.attack_vector.spec_token(), ':');
    crate::v3::base::lemma_attack_vector_round_trip(v.attack_vector);
    assert(spec_parse_metric::<AttackVector>(parts, 0) == Ok::<(AttackVector, int), ParseError>(
        (v.attack_vector, 1),
    ));
    crate::v3::base::lemma_attack_complexity_token_chars(v.attack_complexity);
    lemma_split_once_append("AC"@, v.attack_complexity.spec_token(), ':');
    crate::v3::base::lemma_attack_complexity_round_trip(v.attack_complexity);
    assert(spec_parse_metric::<AttackComplexity>(parts, 1) == Ok::<(AttackComplexity, int), ParseError>(
        (v.attack_complexity, 2),
    ));
    base::lemma_attack_requirements_token_chars(v.attack_requirements);
    lemma_split_once_append("AT"@, v.attack_requirements.spec_token(), ':');
    base::lemma_attack_requirements_round_trip(v.attack_requirements);
    assert(spec_parse_metric::<AttackRequirements>(parts, 2) == Ok::<(AttackRequirements, int), ParseError>(
        (v.attack_requirements, 3),
    ));
    crate::v3::base::lemma_privileges_required_token_chars(v.privileges_required);
    lemma_split_once_append("PR"@, v.privileges_required.spec_token(), ':');
    crate::v3::base::lemma_privileges_required_round_trip(v.privileges_required);
    assert(spec_parse_metric::<PrivilegesRequired>(parts, 3) == Ok::<(PrivilegesRequired, int), ParseError>(
        (v.privileges_required, 4),
    ));
    base::lemma_user_interaction_token_chars(v.user_interaction);
    lemma_split_once_append("UI"@, v.user_interaction.spec_token(), ':');
    base::lemma_user_interaction_round_trip(v.user_interaction);
    assert(spec_parse_metric::<UserInteraction>(parts, 4) == Ok::<(UserInteraction, int), ParseError>(
        (v.user_interaction, 5),
    ));
    base::lemma_vulnerable_system_confidentiality_token_chars(v.vulnerable_confidentiality);
    lemma_split_once_append("VC"@, v.vulnerable_confidentiality.spec_token(), ':');
    base::lemma_vulnerable_system_confidentiality_round_trip(v.vulnerable_confidentiality);
    assert(spec_parse_metric::<VulnerableSystemConfidentiality>(parts, 5) == Ok::<(VulnerableSystemConfidentiality, int), ParseError>(
        (v.vulnerable_confidentiality, 6),
    ));
    base::lemma_vulnerable_system_integrity_token_chars(v.vulnerable_integrity);
    lemma_split_once_append("VI"@, v.vulnerable_integrity.spec_token(), ':');
    base::lemma_vulnerable_system_integrity_round_trip(v.vulnerable_integrity);
    assert(spec_parse_metric::<VulnerableSystemIntegrity>(parts, 6) == Ok::<(VulnerableSystemIntegrity, int), ParseError>(
        (v.vulnerable_integrity, 7),
    ));
    base::lemma_vulnerable_system_availability_token_chars(v.vulnerable_availability);
    lemma_split_once_append("VA"@, v.vulnerable_availability.spec_token(), ':');
    base::lemma_vulnerable_system_availability_round_trip(v.vulnerable_availability);
    assert(spec_parse_metric::<VulnerableSystemAvailability>(parts, 7) == Ok::<(VulnerableSystemAvailability, int), ParseError>(
        (v.vulnerable_availability, 8),
    ));
    base::lemma_subsequent_system_confidentiality_token_chars(v.subsequent_confidentiality);
    lemma_split_once_append("SC"@, v.subsequent_confidentiality.spec_token(), ':');
    base::lemma_subsequent_system_confidentiality_round_trip(v.subsequent_confidentiality);
    assert(spec_parse_metric::<SubsequentSystemConfidentiality>(parts, 8) == Ok::<(SubsequentSystemConfidentiality, int), ParseError>(
        (v.subsequent_confidentiality, 9),
    ));
    base::lemma_subsequent_system_integrity_token_chars(v.subsequent_integrity);
    lemma_split_once_append("SI"@, v.subsequent_integrity.spec_token(), ':');
    base::lemma_subsequent_system_integrity_round_trip(v.subsequent_integrity);
    assert(spec_parse_metric::<SubsequentSystemIntegrity>(parts, 9) == Ok::<(SubsequentSystemIntegrity, int), ParseError>(
        (v.subsequent_integrity, 10),
    ));
    base::lemma_subsequent_system_availability_token_chars(v.subsequent_availability);
    lemma_split_once_append("SA"@, v.subsequent_availability.spec_token(), ':');
    base::lemma_subsequent_system_availability_round_trip(v.subsequent_availability);
    assert(spec_parse_metric::<SubsequentSystemAvailability>(parts, 10) == Ok::<(SubsequentSystemAvailability, int), ParseError>(
        (v.subsequent_availability, 11),
    ));
}

/// Parsing the threat and environmental parts of a full vector string
/// yields those metrics of the vector.
#[verifier::rlimit(100)]
#[verifier::spinoff_prover]
proof fn lemma_parse_full_threat_env(v: V4Vector, w: V4Vector, parts: Seq<Seq<char>>)
    requires
        parts.len() == 31,
        parts[11] == "E"@ + seq![':'] + v.exploit_maturity.spec_token(),
        parts[12] == "CR"@ + seq![':'] + v.confidentiality_requirement.spec_token(),
        parts[13] == "IR"@ + seq![':'] + v.integrity_requirement.spec_token(),
        parts[14] == "AR"@ + seq![':'] + v.availability_requirement.spec_token(),
        parts[15] == "MAV"@ + seq![':'] + v.modified_attack_vector.spec_token(),
        parts[16] == "MAC"@ + seq![':'] + v.modified_attack_complexity.spec_token(),
        parts[17] == "MPR"@ + seq![':'] + v.modified_privileges_required.spec_token(),
        parts[18] == "MUI"@ + seq![':'] + v.modified_user_interaction.spec_token(),
        parts[19] == "MVC"@ + seq![':'] + v.modified_vulnerable_confidentiality.spec_token(),
        parts[20] == "MVI"@ + seq![':'] + v.modified_vulnerable_integrity.spec_token(),
        parts[21] == "MVA"@ + seq![':'] + v.modified_vulnerable_availability.spec_token(),
        parts[22] == "MSC"@ + seq![':'] + v.modified_subsequent_confidentiality.spec_token(),
        parts[23] == "MSI"@ + seq![':'] + v.modified_subsequent_integrity.spec_token(),
        parts[24] == "MSA"@ + seq![':'] + v.modified_subsequent_availability.spec_token(),
    ensures
        spec_parse_v4_threat_env(w, parts, 11) == Ok::<(V4Vector, int), ParseError>((
            V4Vector {
                exploit_maturity: v.exploit_maturity,
                confidentiality_requirement: v.confidentiality_requirement,
                integrity_requirement: v.integrity_requirement,
                availability_requirement: v.availability_requirement,
                modified_attack_vector: v.modified_attack_vector,
                modified_attack_complexity: v.modified_attack_complexity,
                modified_privileges_required: v.modified_privileges_required,
                modified_user_interaction: v.modified_user_interaction,
                modified_vulnerable_confidentiality: v.modified_vulnerable_confidentiality,
                modified_vulnerable_integrity: v.modified_vulnerable_integrity,
                modified_vulnerable_availability: v.modified_vulnerable_availability,
                modified_subsequent_confidentiality: v.modified_subsequent_confidentiality,
                modified_subsequent_integrity: v.modified_subsequent_integrity,
                modified_subsequent_availability: v.modified_subsequent_availability,
                ..w
            },
            25,
        )),
{
    threat::lemma_exploit_maturity_token_chars(v.exploit_maturity);
    lemma_split_once_append("E"@, v.exploit_maturity.spec_token(), ':');
    threat::lemma_exploit_maturity_round_trip(v.exploit_maturity);
    assert(spec_parse_opt_metric::<ExploitMaturity>(parts, 11) == Ok::<(ExploitMaturity, int), ParseError>(
        (v.exploit_maturity, 12),
    ));
    crate::v3::env::lemma_confidentiality_requirement_token_chars(v.confidentiality_requirement);
    lemma_split_once_append("CR"@, v.confidentiality_requirement.spec_token(), ':');
    crate::v3::env::lemma_confidentiality_requirement_round_trip(v.confidentiality_requirement);
    assert(spec_parse_opt_metric::<ConfidentialityRequirement>(parts, 12) == Ok::<(ConfidentialityRequirement, int), ParseError>(
        (v.confidentiality_requirement, 13),
    ));
    crate::v3::env::lemma_integrity_requirement_token_chars(v.integrity_requirement);
    lemma_split_once_append("IR"@, v.integrity_requirement.spec_token(), ':');
    crate::v3::env::lemma_integrity_requirement_round_trip(v.integrity_requirement);
    assert(spec_parse_opt_metric::<IntegrityRequirement>(parts, 13) == Ok::<(IntegrityRequirement, int), ParseError>(
        (v.integrity_requirement, 14),
    ));
    crate::v3::env::lemma_availability_requirement_token_chars(v.availability_requirement);
    lemma_split_once_append("AR"@, v.availability_requirement.spec_token(), ':');
    crate::v3::env::lemma_availability_requirement_round_trip(v.availability_requirement);
    assert(spec_parse_opt_metric::<AvailabilityRequirement>(parts, 14) == Ok::<(AvailabilityRequirement, int), ParseError>(
        (v.availability_requirement, 15),
    ));
    crate::v3::env::lemma_modified_attack_vector_token_chars(v.modified_attack_vector);
    lemma_split_once_append("MAV"@, v.modified_attack_vector.spec_token(), ':');
    crate::v3::env::lemma_modified_attack_vector_round_trip(v.modified_attack_vector);
    assert(spec_parse_opt_metric::<ModifiedAttackVector>(parts, 15) == Ok::<(ModifiedAttackVector, int), ParseError>(
        (v.modified_attack_vector, 16),
    ));
    crate::v3::env::lemma_modified_attack_complexity_token_chars(v.modified_attack_complexity);
    lemma_split_once_append("MAC"@, v.modified_attack_complexity.spec_token(), ':');
    crate::v3::env::lemma_modified_attack_complexity_round_trip(v.modified_attack_complexity);
    assert(spec_parse_opt_metric::<ModifiedAttackComplexity>(parts, 16) == Ok::<(ModifiedAttackComplexity, int), ParseError>(
        (v.modified_attack_complexity, 17),
    ));
    crate::v3::env::lemma_modified_privileges_required_token_chars(v.modified_privileges_required);
    lemma_split_once_append("MPR"@, v.modified_privileges_required.spec_token(), ':');
    crate::v3::env::lemma_modified_privileges_required_round_trip(v.modified_privileges_required);
    assert(spec_parse_opt_metric::<ModifiedPrivilegesRequired>(parts, 17) == Ok::<(ModifiedPrivilegesRequired, int), ParseError>(
        (v.modified_privileges_required, 18),
    ));
    env::lemma_modified_user_interaction_token_chars(v.modified_user_interaction);
    lemma_split_once_append("MUI"@, v.modified_user_interaction.spec_token(), ':');
    env::lemma_modified_user_interaction_round_trip(v.modified_user_interaction);
    assert(spec_parse_opt_metric::<ModifiedUserInteraction>(parts, 18) == Ok::<(ModifiedUserInteraction, int), ParseError>(
        (v.modified_user_interaction, 19),
    ));
    env::lemma_modified_vulnerable_system_confidentiality_token_chars(v.modified_vulnerable_confidentiality);
    lemma_split_once_append("MVC"@, v.modified_vulnerable_confidentiality.spec_token(), ':');
    env::lemma_modified_vulnerable_system_confidentiality_round_trip(v.modified_vulnerable_confidentiality);
    assert(spec_parse_opt_metric::<ModifiedVulnerableSystemConfidentiality>(parts, 19) == Ok::<(ModifiedVulnerableSystemConfidentiality, int), ParseError>(
        (v.modified_vulnerable_confidentiality, 20),
    ));
    env::lemma_modified_vulnerable_system_integrity_token_chars(v.modified_vulnerable_integrity);
    lemma_split_once_append("MVI"@, v.modified_vulnerable_integrity.spec_token(), ':');
    env::lemma_modified_vulnerable_system_integrity_round_trip(v.modified_vulnerable_integrity);
    assert(spec_parse_opt_metric::<ModifiedVulnerableSystemIntegrity>(parts, 20) == Ok::<(ModifiedVulnerableSystemIntegrity, int), ParseError>(
        (v.modified_vulnerable_integrity, 21),
    ));
    env::lemma_modified_vulnerable_system_availability_token_chars(v.modified_vulnerable_availability);
    lemma_split_once_append("MVA"@, v.modified_vulnerable_availability.spec_token(), ':');
    env::lemma_modified_vulnerable_system_availability_round_trip(v.modified_vulnerable_availability);
    assert(spec_parse_opt_metric::<ModifiedVulnerableSystemAvailability>(parts, 21) == Ok::<(ModifiedVulnerableSystemAvailability, int), ParseError>(
        (v.modified_vulnerable_availability, 22),
    ));
    env::lemma_modified_subsequent_system_confidentiality_token_chars(v.modified_subsequent_confidentiality);
    lemma_split_once_append("MSC"@, v.modified_subsequent_confidentiality.spec_token(), ':');
    env::lemma_modified_subsequent_system_confidentiality_round_trip(v.modified_subsequent_confidentiality);
    assert(spec_parse_opt_metric::<ModifiedSubsequentSystemConfidentiality>(parts, 22) == Ok::<(ModifiedSubsequentSystemConfidentiality, int), ParseError>(
        (v.modified_subsequent_confidentiality, 23),
    ));
    env::lemma_modified_subsequent_system_integrity_token_chars(v.modified_subsequent_integrity);
    lemma_split_once_append("MSI"@, v.modified_subsequent_integrity.spec_token(), ':');
    env::lemma_modified_subsequent_system_integrity_round_trip(v.modified_subsequent_integrity);
    assert(spec_parse_opt_metric::<ModifiedSubsequentSystemIntegrity>(parts, 23) == Ok::<(ModifiedSubsequentSystemIntegrity, int), ParseError>(
        (v.modified_subsequent_integrity, 24),
    ));
    env::lemma_modified_subsequent_system_availability_token_chars(v.modified_subsequent_availability);
    lemma_split_once_append("MSA"@, v.modified_subsequent_availability.spec_token(), ':');
    env::lemma_modified_subsequent_system_availability_round_trip(v.modified_subsequent_availability);
    assert(spec_parse_opt_metric::<ModifiedSubsequentSystemAvailability>(parts, 24) == Ok::<(ModifiedSubsequentSystemAvailability, int), ParseError>(
        (v.modified_subsequent_availability, 25),
    ));
}

/// Parsing the supplemental parts of a full vector string yields those
/// metrics of the vector.
#[verifier::rlimit(100)]
#[verifier::spinoff_prover]
proof fn lemma_parse_full_supplemental(v: V4Vector, w: V4Vector, parts: Seq<Seq<char>>)
    requires
        parts.len() == 31,
        parts[25] == "S"@ + seq![':'] + v.safety.spec_token(),
        parts[26] == "AU"@ + seq![':'] + v.automatable.spec_token(),
        parts[27] == "R"@ + seq![':'] + v.recovery.spec_token(),
        parts[28] == "V"@ + seq![':'] + v.value_density.spec_token(),
        parts[29] == "RE"@ + seq![':'] + v.vulnerability_response_effort.spec_token(),
        parts[30] == "U"@ + seq![':'] + v.provider_urgency.spec_token(),
    ensures
        spec_parse_v4_supplemental(w, parts, 25) == Ok::<(V4Vector, int), ParseError>((
            V4Vector {
                safety: v.safety,
                automatable: v.automatable,
                recovery: v.recovery,
                value_density: v.value_density,
                vulnerability_response_effort: v.vulnerability_response_effort,
                provider_urgency: v.provider_urgency,
                ..w
            },
            31,
        )),
{
    supplemental::lemma_safety_token_chars(v.safety);
    lemma_split_once_append("S"@, v.safety.spec_token(), ':');
    supplemental::lemma_safety_round_trip(v.safety);
    assert(spec_parse_opt_metric::<Safety>(parts, 25) == Ok::<(Safety, int), ParseError>(
        (v.safety, 26),
    ));
    supplemental::lemma_automatable_token_chars(v.automatable);
    lemma_split_once_append("AU"@, v.automatable.spec_token(), ':');
    supplemental::lemma_automatable_round_trip(v.automatable);
    assert(spec_parse_opt_metric::<Automatable>(parts, 26) == Ok::<(Automatable, int), ParseError>(
        (v.automatable, 27),
    ));
    supplemental::lemma_recovery_token_chars(v.recovery);
    lemma_split_once_append("R"@, v.recovery.spec_token(), ':');
    supplemental::lemma_recovery_round_trip(v.recovery);
    assert(spec_parse_opt_metric::<Recovery>(parts, 27) == Ok::<(Recovery, int), ParseError>(
        (v.recovery, 28),
    ));
    supplemental::lemma_value_density_token_chars(v.value_density);
    lemma_split_once_append("V"@, v.value_density.spec_token(), ':');
    supplemental::lemma_value_density_round_trip(v.value_density);
    assert(spec_parse_opt_metric::<ValueDensity>(parts, 28) == Ok::<(ValueDensity, int), ParseError>(
        (v.value_density, 29),
    ));
    supplemental::lemma_vulnerability_response_effort_token_chars(v.vulnerability_response_effort);
    lemma_split_once_append("RE"@, v.vulnerability_response_effort.spec_token(), ':');
    supplemental::lemma_vulnerability_response_effort_round_trip(v.vulnerability_response_effort);
    assert(spec_parse_opt_metric::<VulnerabilityResponseEffort>(parts, 29) == Ok::<(VulnerabilityResponseEffort, int), ParseError>(
        (v.vulnerability_response_effort, 30),
    ));
    supplemental::lemma_provider_urgency_token_chars(v.provider_urgency);
    lemma_split_once_append("U"@, v.provider_urgency.spec_token(), ':');
    supplemental::lemma_provider_urgency_round_trip(v.provider_urgency);
    assert(spec_parse_opt_metric::<ProviderUrgency>(parts, 30) == Ok::<(ProviderUrgency, int), ParseError>(
        (v.provider_urgency, 31),
    ));
}

/// Round trip: parsing the complete vector string of any vector, behind
/// the version prefix, yields that vector back.
#[verifier::rlimit(100)]
#[verifier::spinoff_prover]
pub proof fn lemma_full_string_round_trip(v: V4Vector)
    ensures
        spec_parse_v4("CVSS:4.0/"@ + spec_full_string(v)) == Ok::<V4Vector, ParseError>(v),
{
    reveal_strlit("CVSS:4.0/");
    let s = "CVSS:4.0/"@ + spec_full_string(v);
    assert(s.take(9) =~= "CVSS:4.0/"@);
    assert(s.skip(9) =~= spec_full_string(v));
    lemma_full_string_split(v);
    let parts = spec_split(spec_full_string(v), '/');
    lemma_parse_full_base(v, parts);
    let base = V4Vector {
        attack_vector: v.attack_vector,
        attack_complexity: v.attack_complexity,
        attack_requirements: v.attack_requirements,
        privileges_required: v.privileges_required,
        user_interaction: v.user_interaction,
        vulnerable_confidentiality: v.vulnerable_confidentiality,
        vulnerable_integrity: v.vulnerable_integrity,
        vulnerable_availability: v.vulnerable_availability,
        subsequent_confidentiality: v.subsequent_confidentiality,
        subsequent_integrity: v.subsequent_integrity,
        subsequent_availability: v.subsequent_availability,
        exploit_maturity: ExploitMaturity::NotDefined,
        confidentiality_requirement: ConfidentialityRequirement::NotDefined,
        integrity_requirement: IntegrityRequirement::NotDefined,
        availability_requirement: AvailabilityRequirement::NotDefined,
        modified_attack_vector: ModifiedAttackVector::NotDefined,
        modified_attack_complexity: ModifiedAttackComplexity::NotDefined,
        modified_privileges_required: ModifiedPrivilegesRequired::NotDefined,
        modified_user_interaction: ModifiedUserInteraction::NotDefined,
        modified_vulnerable_confidentiality: ModifiedVulnerableSystemConfidentiality::NotDefined,
        modified_vulnerable_integrity: ModifiedVulnerableSystemIntegrity::NotDefined,
        modified_vulnerable_availability: ModifiedVulnerableSystemAvailability::NotDefined,
        modified_subsequent_confidentiality: ModifiedSubsequentSystemConfidentiality::NotDefined,
        modified_subsequent_integrity: ModifiedSubsequentSystemIntegrity::NotDefined,
        modified_subsequent_availability: ModifiedSubsequentSystemAvailability::NotDefined,
        safety: Safety::NotDefined,
        automatable: Automatable::NotDefined,
        recovery: Recovery::NotDefined,
        value_density: ValueDensity::NotDefined,
        vulnerability_response_effort: VulnerabilityResponseEffort::NotDefined,
        provider_urgency: ProviderUrgency::NotDefined,
    };
    lemma_parse_full_threat_env(v, base, parts);
    let te = V4Vector {
        exploit_maturity: v.exploit_maturity,
        confidentiality_requirement: v.confidentiality_requirement,
        integrity_requirement: v.integrity_requirement,
        availability_requirement: v.availability_requirement,
        modified_attack_vector: v.modified_attack_vector,
        modified_attack_complexity: v.modified_attack_complexity,
        modified_privileges_required: v.modified_privileges_required,
        modified_user_interaction: v.modified_user_interaction,
        modified_vulnerable_confidentiality: v.modified_vulnerable_confidentiality,
        modified_vulnerable_integrity: v.modified_vulnerable_integrity,
        modified_vulnerable_availability: v.modified_vulnerable_availability,
        modified_subsequent_confidentiality: v.modified_subsequent_confidentiality,
        modified_subsequent_integrity: v.modified_subsequent_integrity,
        modified_subsequent_availability: v.modified_subsequent_availability,
        ..base
    };
    lemma_parse_full_supplemental(v, te, parts);
    let sup = V4Vector {
        safety: v.safety,
        automatable: v.automatable,
        recovery: v.recovery,
        value_density: v.value_density,
        vulnerability_response_effort: v.vulnerability_response_effort,
        provider_urgency: v.provider_urgency,
        ..te
    };
    assert(sup == v);
}

} // verus!
