use vstd::prelude::*;

verus! {

/// Identifier of a check that the linter runs on a repository.
///
/// Each check corresponds to an OpenSSF Scorecard check; its textual identifier
/// (see [`CheckId::as_str`]) is the key the check's output is stored under.
#[derive(Debug, Clone, Copy, PartialEq, Eq, Structural, Hash)]
pub enum CheckId {
    BinaryArtifacts,
    BranchProtection,
    CiiBestPractices,
    CiTests,
    CodeReview,
    ContributorsSc,
    DangerousWorkflow,
    DependencyUpdateTool,
    Fuzzing,
    LicenseSc,
    Maintained,
    Packaging,
    PinnedDependencies,
    Sast,
    SbomSc,
    SecurityPolicySc,
    SignedReleases,
    TokenPermissions,
    Vulnerabilities,
}

impl CheckId {
    /// The textual identifier of a check.
    pub open spec fn name(self) -> Seq<char> {
        match self {
            CheckId::BinaryArtifacts => "binary_artifacts"@,
            CheckId::BranchProtection => "branch_protection"@,
            CheckId::CiiBestPractices => "cii_best_practices"@,
            CheckId::CiTests => "ci_tests"@,
            CheckId::CodeReview => "code_review"@,
            CheckId::ContributorsSc => "contributors"@,
            CheckId::DangerousWorkflow => "dangerous_workflow"@,
            CheckId::DependencyUpdateTool => "dependency_update_tool"@,
            CheckId::Fuzzing => "fuzzing"@,
            CheckId::LicenseSc => "license"@,
            CheckId::Maintained => "maintained"@,
            CheckId::Packaging => "packaging"@,
            CheckId::PinnedDependencies => "pinned_dependencies"@,
            CheckId::Sast => "sast"@,
            CheckId::SbomSc => "sbom"@,
            CheckId::SecurityPolicySc => "security_policy"@,
            CheckId::SignedReleases => "signed_releases"@,
            CheckId::TokenPermissions => "token_permissions"@,
            CheckId::Vulnerabilities => "vulnerabilities"@,
        }
    }

    /// Return the textual identifier of the check.
    pub fn as_str(&self) -> (s: &'static str)
        ensures
            s@ == self.name(),
    {
        match self {
            CheckId::BinaryArtifacts => "binary_artifacts",
            CheckId::BranchProtection => "branch_protection",
            CheckId::CiiBestPractices => "cii_best_practices",
            CheckId::CiTests => "ci_tests",
            CheckId::CodeReview => "code_review",
            CheckId::ContributorsSc => "contributors",
            CheckId::DangerousWorkflow => "dangerous_workflow",
            CheckId::DependencyUpdateTool => "dependency_update_tool",
            CheckId::Fuzzing => "fuzzing",
            CheckId::LicenseSc => "license",
            CheckId::Maintained => "maintained",
            CheckId::Packaging => "packaging",
            CheckId::PinnedDependencies => "pinned_dependencies",
            CheckId::Sast => "sast",
            CheckId::SbomSc => "sbom",
            CheckId::SecurityPolicySc => "security_policy",
            CheckId::SignedReleases => "signed_releases",
            CheckId::TokenPermissions => "token_permissions",
            CheckId::Vulnerabilities => "vulnerabilities",
        }
    }

    /// The weight a check carries in the score of its section: every Scorecard
    /// check counts once.
    pub open spec fn spec_weight(self) -> nat {
        1
    }

    /// Return the weight the check carries in the score of its section.
    pub fn weight(&self) -> (w: usize)
        ensures
            w == self.spec_weight(),
    {
        1
    }
}

/// Output of a check run on a repository.
#[derive(Debug, Clone, PartialEq, Eq)]
pub struct CheckOutput {
    /// The check passed.
    pub passed: bool,
    /// The repository is exempt from the check.
    pub exempt: bool,
    /// Why the repository is exempt, when it is.
    pub exemption_reason: Option<String>,
    /// The check could not be run to completion.
    pub failed: bool,
    /// Why the check could not be run, when it could not.
    pub fail_reason: Option<String>,
    /// Link to more information about the check's result.
    pub url: Option<String>,
    /// Extra details about the result.
    pub details: Option<String>,
}

impl CheckOutput {
    /// Whether this output is the one of a check that neither passed, nor was
    /// exempted or failed, and carries no extra information.
    pub open spec fn is_blank(self) -> bool {
        &&& !self.passed
        &&& !self.exempt
        &&& self.exemption_reason is None
        &&& !self.failed
        &&& self.fail_reason is None
        &&& self.url is None
        &&& self.details is None
    }

    /// Create a new output for a check that passed.
    pub fn passed() -> (o: Self)
        ensures
            o.passed,
            !o.exempt,
            !o.failed,
            o.exemption_reason is None,
            o.fail_reason is None,
            o.url is None,
            o.details is None,
    {
        CheckOutput { passed: true, ..CheckOutput::default() }
    }
}

impl Default for CheckOutput {
    fn default() -> (o: Self)
        ensures
            o.is_blank(),
    {
        CheckOutput {
            passed: false,
            exempt: false,
            exemption_reason: None,
            failed: false,
            fail_reason: None,
            url: None,
            details: None,
        }
    }
}

} // verus!
