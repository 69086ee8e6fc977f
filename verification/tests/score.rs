use clomonitor_core::linter::{
    BuildRisk, CheckId, CheckOutput, CodeVulnerabilities, ContinuousTesting, Maintenance, Report,
    SourceRisk,
};
use clomonitor_core::score::{calculate_weights, rating_from_points, section_weight, sum_weights};

fn full_report() -> Report {
    let check = || Some(CheckOutput::passed());
    Report {
        code_vulnerabilities: CodeVulnerabilities { vulnerabilities: check() },
        maintenance: Maintenance {
            dependency_update_tool: check(),
            maintained: check(),
            security_policy_sc: check(),
            license_sc: check(),
            cii_best_practices: check(),
        },
        testing: ContinuousTesting { ci_tests: check(), fuzzing: check(), sast: check() },
        source: SourceRisk {
            binary_artifacts: check(),
            branch_protection: check(),
            dangerous_workflow: check(),
            code_review: check(),
            contributors_sc: check(),
        },
        build: BuildRisk {
            pinned_dependencies: check(),
            token_permissions: check(),
            packaging: check(),
            signed_releases: check(),
        },
    }
}

#[test]
fn weights_of_report_with_all_checks() {
    let w = calculate_weights(&full_report());
    // weights: 1 + 5 + 3 + 5 + 4 = 18
    assert_eq!(w.global, 18);
    assert_eq!(w.code_vulnerabilities, Some(1));
    assert_eq!(w.maintenance, Some(5));
    assert_eq!(w.testing, Some(3));
    assert_eq!(w.source, Some(5));
    assert_eq!(w.build, Some(4));
}

#[test]
fn weights_of_partial_report() {
    let mut report = full_report();
    report.testing = ContinuousTesting::default();
    report.source.code_review = None;
    let w = calculate_weights(&report);
    assert_eq!(w.testing, None);
    assert_eq!(w.source, Some(4));
    assert_eq!(w.global, 14);
}

#[test]
fn weights_of_empty_report() {
    let w = calculate_weights(&Report::default());
    assert_eq!(w.global, 0);
    assert_eq!(w.code_vulnerabilities, None);
    assert_eq!(w.build, None);
}

#[test]
fn section_weight_counts_checks() {
    assert_eq!(section_weight(&vec![]), None);
    assert_eq!(section_weight(&vec![CheckId::Sast]), Some(1));
    assert_eq!(section_weight(&vec![CheckId::Sast, CheckId::Fuzzing, CheckId::CiTests]), Some(3));
}

#[test]
fn sum_weights_adds_present_weights() {
    assert_eq!(sum_weights(&vec![]), Some(0));
    assert_eq!(sum_weights(&vec![Some(18), None, Some(4)]), Some(22));
    assert_eq!(sum_weights(&vec![Some(usize::MAX), Some(1)]), None);
    assert_eq!(sum_weights(&vec![Some(usize::MAX), None]), Some(usize::MAX));
}

#[test]
fn rating_returns_correct_level_from_points() {
    assert_eq!(rating_from_points(80), 'a');
    assert_eq!(rating_from_points(75), 'a');
    assert_eq!(rating_from_points(74), 'b');
    assert_eq!(rating_from_points(50), 'b');
    assert_eq!(rating_from_points(49), 'c');
    assert_eq!(rating_from_points(25), 'c');
    assert_eq!(rating_from_points(20), 'd');
    assert_eq!(rating_from_points(0), 'd');
    assert_eq!(rating_from_points(100), 'a');
    assert_eq!(rating_from_points(101), '?');
}

#[test]
fn rating_never_worsens_as_points_grow() {
    let rank = |c: char| match c {
        'a' => 4,
        'b' => 3,
        'c' => 2,
        'd' => 1,
        _ => 0,
    };
    for p in 0..100usize {
        assert!(rank(rating_from_points(p)) <= rank(rating_from_points(p + 1)));
    }
}
