use clomonitor_core::linter::{
    BuildProcess, BuildRisk, CheckId, CheckOutput, CheckSet, CodeVulnerabilities,
    ContinuousTesting, CoreLinter, Foundation, Holistic, LinterInput, Maintenance, Project, Report,
    SourceCode, SourceRisk,
};

fn check(passed: bool, exempt: bool) -> Option<CheckOutput> {
    Some(CheckOutput { passed, exempt, ..CheckOutput::default() })
}

fn full_report() -> Report {
    Report {
        code_vulnerabilities: CodeVulnerabilities { vulnerabilities: Some(CheckOutput::passed()) },
        maintenance: Maintenance {
            dependency_update_tool: Some(CheckOutput::passed()),
            maintained: Some(CheckOutput::passed()),
            security_policy_sc: Some(CheckOutput::passed()),
            license_sc: Some(CheckOutput::passed()),
            cii_best_practices: Some(CheckOutput::passed()),
        },
        testing: ContinuousTesting {
            ci_tests: Some(CheckOutput::passed()),
            fuzzing: Some(CheckOutput::passed()),
            sast: Some(CheckOutput::passed()),
        },
        source: SourceRisk {
            binary_artifacts: Some(CheckOutput::passed()),
            branch_protection: Some(CheckOutput::passed()),
            dangerous_workflow: Some(CheckOutput::passed()),
            code_review: Some(CheckOutput::passed()),
            contributors_sc: Some(CheckOutput::passed()),
        },
        build: BuildRisk {
            pinned_dependencies: Some(CheckOutput::passed()),
            token_permissions: Some(CheckOutput::passed()),
            packaging: Some(CheckOutput::passed()),
            signed_releases: Some(CheckOutput::passed()),
        },
    }
}

#[test]
fn check_set_display_names() {
    assert_eq!(CheckSet::Code.to_string(), "CODE");
    assert_eq!(CheckSet::CodeLite.to_string(), "CODE-LITE");
    assert_eq!(CheckSet::Community.to_string(), "COMMUNITY");
    assert_eq!(CheckSet::Docs.to_string(), "DOCS");
}

#[test]
fn check_set_names_differ() {
    let sets = [CheckSet::Code, CheckSet::CodeLite, CheckSet::Community, CheckSet::Docs];
    for a in sets {
        for b in sets {
            assert_eq!(a == b, a.to_string() == b.to_string());
        }
    }
}

#[test]
fn core_linter_new_creates_instance() {
    let _linter: CoreLinter = CoreLinter::new();
}

#[test]
fn linter_input_default_is_empty() {
    let input = LinterInput::default();
    assert!(input.project.is_none());
    assert!(input.url.is_empty());
    assert!(input.check_sets.is_empty());
    let project = Project {
        name: "artifacthub".to_string(),
        accepted_at: None,
        maturity: Some("incubating".to_string()),
        foundation: Foundation {
            foundation_id: "cncf".to_string(),
            landscape_url: None,
        },
    };
    let input = LinterInput { project: Some(project), check_sets: vec![CheckSet::Code], ..input };
    assert_eq!(input.project.unwrap().foundation.foundation_id, "cncf");
}

#[test]
fn check_ids_as_str() {
    assert_eq!(CheckId::Vulnerabilities.as_str(), "vulnerabilities");
    assert_eq!(CheckId::ContributorsSc.as_str(), "contributors");
    assert_eq!(CheckId::LicenseSc.as_str(), "license");
    assert_eq!(CheckId::SecurityPolicySc.as_str(), "security_policy");
    assert_eq!(CheckId::SbomSc.as_str(), "sbom");
    assert_eq!(CheckId::BinaryArtifacts.as_str(), "binary_artifacts");
    assert_eq!(CheckId::Maintained.weight(), 1);
}

#[test]
fn check_output_passed_and_default() {
    let o = CheckOutput::passed();
    assert!(o.passed && !o.exempt && !o.failed);
    assert!(o.url.is_none() && o.details.is_none() && o.exemption_reason.is_none());
    let d = CheckOutput::default();
    assert!(!d.passed && !d.exempt && !d.failed && d.fail_reason.is_none());
}

#[test]
fn full_report_lists_all_checks_in_field_order() {
    let report = full_report();
    assert_eq!(report.code_vulnerabilities.available(), vec![CheckId::Vulnerabilities]);
    assert_eq!(
        report.maintenance.available(),
        vec![
            CheckId::DependencyUpdateTool,
            CheckId::Maintained,
            CheckId::SecurityPolicySc,
            CheckId::LicenseSc,
            CheckId::CiiBestPractices,
        ]
    );
    assert_eq!(
        report.testing.passed_or_exempt(),
        vec![CheckId::CiTests, CheckId::Fuzzing, CheckId::Sast]
    );
    assert_eq!(report.source.available().len(), 5);
    assert_eq!(report.build.passed_or_exempt().len(), 4);
}

#[test]
fn passed_or_exempt_only_lists_available_checks() {
    let section = Maintenance {
        dependency_update_tool: check(false, true),
        maintained: check(false, false),
        security_policy_sc: None,
        license_sc: check(true, false),
        cii_best_practices: None,
    };
    let available = section.available();
    let passed = section.passed_or_exempt();
    assert_eq!(
        available,
        vec![CheckId::DependencyUpdateTool, CheckId::Maintained, CheckId::LicenseSc]
    );
    assert_eq!(passed, vec![CheckId::DependencyUpdateTool, CheckId::LicenseSc]);
    assert!(passed.iter().all(|id| available.contains(id)));
}

#[test]
fn three_section_layout_lists_checks() {
    let holistic = Holistic {
        maintained: check(true, false),
        contributors_sc: None,
        cii_best_practices: check(false, false),
        security_policy_sc: None,
        license_sc: check(false, true),
    };
    assert_eq!(
        holistic.available(),
        vec![CheckId::Maintained, CheckId::CiiBestPractices, CheckId::LicenseSc]
    );
    assert_eq!(holistic.passed_or_exempt(), vec![CheckId::Maintained, CheckId::LicenseSc]);
    let source = SourceCode { sast: check(false, false), ..SourceCode::default() };
    assert_eq!(source.available(), vec![CheckId::Sast]);
    assert!(source.passed_or_exempt().is_empty());
    let build = BuildProcess { sbom_sc: check(true, true), ..BuildProcess::default() };
    assert_eq!(build.available(), vec![CheckId::SbomSc]);
    assert_eq!(build.passed_or_exempt(), vec![CheckId::SbomSc]);
}

#[test]
fn available_checks_are_listed_once() {
    let build = BuildProcess {
        branch_protection: check(true, false),
        ci_tests: check(true, false),
        dependency_update_tool: check(true, false),
        fuzzing: check(true, false),
        pinned_dependencies: check(true, false),
        signed_releases: check(true, false),
        token_permissions: check(true, false),
        packaging: check(true, false),
        sbom_sc: check(true, false),
    };
    let ids = build.available();
    assert_eq!(ids.len(), 9);
    for (i, a) in ids.iter().enumerate() {
        for b in ids.iter().skip(i + 1) {
            assert_ne!(a, b);
        }
    }
}

#[test]
fn default_report_has_no_checks() {
    let report = Report::default();
    assert!(report.code_vulnerabilities.available().is_empty());
    assert!(report.maintenance.available().is_empty());
    assert!(report.testing.available().is_empty());
    assert!(report.source.available().is_empty());
    assert!(report.build.available().is_empty());
}

#[test]
fn apply_exemptions_leaves_report_unchanged() {
    let mut report = full_report();
    report.maintenance.maintained = check(false, false);
    let before = report.clone();
    report.apply_exemptions();
    assert_eq!(report, before);
}
