//! Monotonicity of the v4.0 score in the impact metrics: raising any single
//! impact metric's severity, all else fixed, never lowers the score.

use cvssrust::v4::base::AttackRequirements;
use cvssrust::v4::base::AttackVector;
use cvssrust::v4::base::AttackComplexity;
use cvssrust::v4::base::PrivilegesRequired;
use cvssrust::v4::base::SubsequentSystemAvailability;
use cvssrust::v4::base::SubsequentSystemConfidentiality;
use cvssrust::v4::base::SubsequentSystemIntegrity;
use cvssrust::v4::base::UserInteraction;
use cvssrust::v4::base::VulnerableSystemAvailability;
use cvssrust::v4::base::VulnerableSystemConfidentiality;
use cvssrust::v4::base::VulnerableSystemIntegrity;
use cvssrust::v4::V4Vector;

const VC: [VulnerableSystemConfidentiality; 3] = [
    VulnerableSystemConfidentiality::High,
    VulnerableSystemConfidentiality::Low,
    VulnerableSystemConfidentiality::Negligible,
];
const VI: [VulnerableSystemIntegrity; 3] = [
    VulnerableSystemIntegrity::High,
    VulnerableSystemIntegrity::Low,
    VulnerableSystemIntegrity::Negligible,
];
const VA: [VulnerableSystemAvailability; 3] = [
    VulnerableSystemAvailability::High,
    VulnerableSystemAvailability::Low,
    VulnerableSystemAvailability::Negligible,
];
const SC: [SubsequentSystemConfidentiality; 3] = [
    SubsequentSystemConfidentiality::High,
    SubsequentSystemConfidentiality::Low,
    SubsequentSystemConfidentiality::Negligible,
];
const SI: [SubsequentSystemIntegrity; 3] = [
    SubsequentSystemIntegrity::High,
    SubsequentSystemIntegrity::Low,
    SubsequentSystemIntegrity::Negligible,
];
const SA: [SubsequentSystemAvailability; 3] = [
    SubsequentSystemAvailability::High,
    SubsequentSystemAvailability::Low,
    SubsequentSystemAvailability::Negligible,
];

/// Exploitability settings under which the impact lattice is swept.
const EXPLOITABILITY: [(AttackVector, AttackComplexity, AttackRequirements, PrivilegesRequired, UserInteraction); 6] = [
    (AttackVector::Network, AttackComplexity::Low, AttackRequirements::Absent, PrivilegesRequired::NoneRequired, UserInteraction::NoneRequired),
    (AttackVector::Network, AttackComplexity::High, AttackRequirements::Present, PrivilegesRequired::Low, UserInteraction::Passive),
    (AttackVector::Adjacent, AttackComplexity::Low, AttackRequirements::Present, PrivilegesRequired::NoneRequired, UserInteraction::Active),
    (AttackVector::Local, AttackComplexity::Low, AttackRequirements::Absent, PrivilegesRequired::High, UserInteraction::NoneRequired),
    (AttackVector::Physical, AttackComplexity::Low, AttackRequirements::Absent, PrivilegesRequired::NoneRequired, UserInteraction::NoneRequired),
    (AttackVector::Physical, AttackComplexity::High, AttackRequirements::Present, PrivilegesRequired::High, UserInteraction::Active),
];

fn sweep(make: impl Fn(usize, usize, usize, usize, usize, usize) -> V4Vector) {
    for vc in 0..3 {
        for vi in 0..3 {
            for va in 0..3 {
                for sc in 0..3 {
                    for si in 0..3 {
                        for sa in 0..3 {
                            let here = make(vc, vi, va, sc, si, sa).score().tenths();
                            // Raising one impact metric's severity means
                            // stepping its index down.
                            let mut higher = Vec::new();
                            if vc > 0 {
                                higher.push(make(vc - 1, vi, va, sc, si, sa));
                            }
                            if vi > 0 {
                                higher.push(make(vc, vi - 1, va, sc, si, sa));
                            }
                            if va > 0 {
                                higher.push(make(vc, vi, va - 1, sc, si, sa));
                            }
                            if sc > 0 {
                                higher.push(make(vc, vi, va, sc - 1, si, sa));
                            }
                            if si > 0 {
                                higher.push(make(vc, vi, va, sc, si - 1, sa));
                            }
                            if sa > 0 {
                                higher.push(make(vc, vi, va, sc, si, sa - 1));
                            }
                            for h in higher {
                                assert!(
                                    h.score().tenths() >= here,
                                    "monotonicity violated near {}",
                                    make(vc, vi, va, sc, si, sa).to_string_minimum()
                                );
                            }
                        }
                    }
                }
            }
        }
    }
}

#[test]
fn impact_metrics_are_monotone() {
    for (av, ac, at, pr, ui) in EXPLOITABILITY {
        sweep(|vc, vi, va, sc, si, sa| {
            V4Vector::new(
                av, ac, at, pr, ui, VC[vc], VI[vi], VA[va], SC[sc], SI[si], SA[sa],
            )
        });
    }
}

#[test]
fn impact_metrics_are_monotone_under_threat() {
    let (av, ac, at, pr, ui) = EXPLOITABILITY[1];
    sweep(|vc, vi, va, sc, si, sa| {
        let mut v = V4Vector::new(
            av, ac, at, pr, ui, VC[vc], VI[vi], VA[va], SC[sc], SI[si], SA[sa],
        );
        v.extend_with_threat("E:U").unwrap();
        v
    });
}
