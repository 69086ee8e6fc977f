use vstd::prelude::*;

use super::check::{CheckId, CheckOutput};

verus! {

/// Whether a check has an output that passed or from which the repository is
/// exempt.
pub open spec fn passed_or_exempt(output: Option<CheckOutput>) -> bool {
    output matches Some(o) && (o.passed || o.exempt)
}

/// The identifiers of the flagged entries, in their order.
pub open spec fn selected_ids(flags: Seq<(CheckId, bool)>) -> Seq<CheckId>
    decreases flags.len(),
{
    if flags.len() == 0 {
        Seq::empty()
    } else {
        let rest = selected_ids(flags.drop_last());
        if flags.last().1 {
            rest.push(flags.last().0)
        } else {
            rest
        }
    }
}

/// `narrow` flags the same checks as `wide`, in the same order, and flags a check
/// only where `wide` flags it too.
pub open spec fn flags_within(narrow: Seq<(CheckId, bool)>, wide: Seq<(CheckId, bool)>) -> bool {
    &&& narrow.len() == wide.len()
    &&& forall|i: int| 0 <= i < narrow.len() ==> #[trigger] narrow[i].0 == wide[i].0
    &&& forall|i: int| 0 <= i < narrow.len() && #[trigger] narrow[i].1 ==> wide[i].1
}

/// A section of the report: a fixed list of checks, each of which may have an
/// output.
pub trait CheckSection {
    /// Each check of the section, in field order, flagged when it has an output.
    spec fn availability(&self) -> Seq<(CheckId, bool)>;

    /// Each check of the section, in field order, flagged when it passed or the
    /// repository is exempt from it.
    spec fn passing(&self) -> Seq<(CheckId, bool)>;

    /// A check only passes (or is exempted) where it has an output.
    proof fn lemma_passing_refines_availability(&self)
        ensures
            flags_within(self.passing(), self.availability()),
    ;

    /// No check appears twice in a section.
    proof fn lemma_checks_are_distinct(&self)
        ensures
            ids_distinct(self.availability()),
    ;
}

/// No identifier appears in two entries.
pub open spec fn ids_distinct(flags: Seq<(CheckId, bool)>) -> bool {
    forall|i: int, j: int|
        0 <= i < flags.len() && 0 <= j < flags.len() && i != j ==> #[trigger] flags[i].0
            != #[trigger] flags[j].0
}

/// Distinct entries select distinct identifiers.
proof fn lemma_selected_distinct(flags: Seq<(CheckId, bool)>)
    requires
        ids_distinct(flags),
    ensures
        selected_ids(flags).no_duplicates(),
    decreases flags.len(),
{
    if flags.len() > 0 {
        let init = flags.drop_last();
        assert(ids_distinct(init)) by {
            assert forall|i: int, j: int|
                0 <= i < init.len() && 0 <= j < init.len() && i != j implies #[trigger] init[i].0
                != #[trigger] init[j].0 by {
                assert(flags[i].0 != flags[j].0);
            }
        }
        lemma_selected_distinct(init);
        let last = flags.last();
        if last.1 {
            if selected_ids(init).contains(last.0) {
                lemma_selected_contains(init, last.0);
                let i = choose|i: int| 0 <= i < init.len() && #[trigger] init[i].1 && init[i].0 == last.0;
                assert(flags[i].0 != flags[flags.len() - 1].0);
            }
        }
    }
}

/// A section lists each of its available checks once.
pub proof fn available_checks_are_distinct<S: CheckSection>(section: &S)
    ensures
        selected_ids(section.availability()).no_duplicates(),
{
    section.lemma_checks_are_distinct();
    lemma_selected_distinct(section.availability());
}

/// The selected identifiers are a subsequence of the flagged entries: each one is
/// the identifier of a flagged entry.
proof fn lemma_selected_from_flags(flags: Seq<(CheckId, bool)>, k: int)
    requires
        0 <= k < selected_ids(flags).len(),
    ensures
        exists|i: int| 0 <= i < flags.len() && #[trigger] flags[i].1 && flags[i].0 == selected_ids(flags)[k],
    decreases flags.len(),
{
    let rest = selected_ids(flags.drop_last());
    if k < rest.len() {
        lemma_selected_from_flags(flags.drop_last(), k);
        let i = choose|i: int| 0 <= i < flags.drop_last().len() && #[trigger] flags.drop_last()[i].1
            && flags.drop_last()[i].0 == rest[k];
        assert(flags[i] == flags.drop_last()[i]);
    } else {
        assert(flags[flags.len() - 1].1);
    }
}

/// Each flagged entry's identifier is selected.
proof fn lemma_flagged_is_selected(flags: Seq<(CheckId, bool)>, i: int)
    requires
        0 <= i < flags.len(),
        flags[i].1,
    ensures
        selected_ids(flags).contains(flags[i].0),
    decreases flags.len(),
{
    if i == flags.len() - 1 {
        let s = selected_ids(flags);
        assert(s[s.len() - 1] == flags[i].0);
    } else {
        lemma_flagged_is_selected(flags.drop_last(), i);
        let rest = selected_ids(flags.drop_last());
        let j = choose|j: int| 0 <= j < rest.len() && rest[j] == flags[i].0;
        assert(selected_ids(flags)[j] == rest[j]);
    }
}

/// An identifier is selected exactly when some entry carrying it is flagged.
pub proof fn lemma_selected_contains(flags: Seq<(CheckId, bool)>, id: CheckId)
    ensures
        selected_ids(flags).contains(id) <==> exists|i: int|
            0 <= i < flags.len() && #[trigger] flags[i].1 && flags[i].0 == id,
{
    if selected_ids(flags).contains(id) {
        let k = choose|k: int| 0 <= k < selected_ids(flags).len() && selected_ids(flags)[k] == id;
        lemma_selected_from_flags(flags, k);
    }
    if exists|i: int| 0 <= i < flags.len() && #[trigger] flags[i].1 && flags[i].0 == id {
        let i = choose|i: int| 0 <= i < flags.len() && #[trigger] flags[i].1 && flags[i].0 == id;
        lemma_flagged_is_selected(flags, i);
    }
}

/// No more identifiers are selected than there are entries.
pub proof fn lemma_selected_len(flags: Seq<(CheckId, bool)>)
    ensures
        selected_ids(flags).len() <= flags.len(),
    decreases flags.len(),
{
    if flags.len() > 0 {
        lemma_selected_len(flags.drop_last());
    }
}

/// Every check that a section lists as passed or exempt it also lists as
/// available, and it lists no more checks as passed or exempt than as available.
pub proof fn passed_or_exempt_checks_are_available<S: CheckSection>(section: &S)
    ensures
        forall|id: CheckId| #[trigger] selected_ids(section.passing()).contains(id)
            ==> selected_ids(section.availability()).contains(id),
        selected_ids(section.passing()).len() <= selected_ids(section.availability()).len(),
{
    let narrow = section.passing();
    let wide = section.availability();
    section.lemma_passing_refines_availability();
    assert forall|id: CheckId| #[trigger] selected_ids(narrow).contains(id)
        implies selected_ids(wide).contains(id) by {
        lemma_selected_contains(narrow, id);
        lemma_selected_contains(wide, id);
        let i = choose|i: int| 0 <= i < narrow.len() && #[trigger] narrow[i].1 && narrow[i].0 == id;
        assert(wide[i].1 && wide[i].0 == id);
    }
    lemma_within_len(narrow, wide);
}

/// Narrower flags select no more identifiers.
proof fn lemma_within_len(narrow: Seq<(CheckId, bool)>, wide: Seq<(CheckId, bool)>)
    requires
        flags_within(narrow, wide),
    ensures
        selected_ids(narrow).len() <= selected_ids(wide).len(),
    decreases narrow.len(),
{
    if narrow.len() > 0 {
        let n = narrow.drop_last();
        let w = wide.drop_last();
        assert(flags_within(n, w)) by {
            assert forall|i: int| 0 <= i < n.len() implies #[trigger] n[i].0 == w[i].0 by {
                assert(narrow[i].0 == wide[i].0);
            }
            assert forall|i: int| 0 <= i < n.len() && #[trigger] n[i].1 implies w[i].1 by {
                assert(narrow[i].1);
            }
        }
        lemma_within_len(n, w);
        assert(narrow[narrow.len() - 1].1 ==> wide[wide.len() - 1].1);
    }
}

/// Return whether a check has an output that passed or from which the repository
/// is exempt.
fn is_passed_or_exempt(output: &Option<CheckOutput>) -> (b: bool)
    ensures
        b == passed_or_exempt(*output),
{
    match output {
        Some(o) => o.passed || o.exempt,
        None => false,
    }
}

/// Return the identifiers of the flagged entries, in their order.
fn collect_selected(flags: &Vec<(CheckId, bool)>) -> (ids: Vec<CheckId>)
    ensures
        ids@ == selected_ids(flags@),
{
    let mut ids: Vec<CheckId> = Vec::new();
    let mut i: usize = 0;
    while i < flags.len()
        invariant
            i <= flags.len(),
            ids@ == selected_ids(flags@.take(i as int)),
        decreases flags.len() - i,
    {
        let (id, flagged) = flags[i];
        assert(flags@.take(i + 1).drop_last() =~= flags@.take(i as int));
        if flagged {
            ids.push(id);
        }
        i += 1;
    }
    assert(flags@.take(flags.len() as int) =~= flags@);
    ids
}

/// Linter report, one section per area of the repository's risk assessment.
#[derive(Debug, Clone, PartialEq, Eq)]
pub struct Report {
    pub code_vulnerabilities: CodeVulnerabilities,
    pub maintenance: Maintenance,
    pub testing: ContinuousTesting,
    pub source: SourceRisk,
    pub build: BuildRisk,
}

impl Report {
    /// The output the report holds for a check; none for a check it has no field
    /// for (the SBOM check).
    pub open spec fn output_of(self, id: CheckId) -> Option<CheckOutput> {
        match id {
            CheckId::Vulnerabilities => self.code_vulnerabilities.vulnerabilities,
            CheckId::DependencyUpdateTool => self.maintenance.dependency_update_tool,
            CheckId::Maintained => self.maintenance.maintained,
            CheckId::SecurityPolicySc => self.maintenance.security_policy_sc,
            CheckId::LicenseSc => self.maintenance.license_sc,
            CheckId::CiiBestPractices => self.maintenance.cii_best_practices,
            CheckId::CiTests => self.testing.ci_tests,
            CheckId::Fuzzing => self.testing.fuzzing,
            CheckId::Sast => self.testing.sast,
            CheckId::BinaryArtifacts => self.source.binary_artifacts,
            CheckId::BranchProtection => self.source.branch_protection,
            CheckId::DangerousWorkflow => self.source.dangerous_workflow,
            CheckId::CodeReview => self.source.code_review,
            CheckId::ContributorsSc => self.source.contributors_sc,
            CheckId::PinnedDependencies => self.build.pinned_dependencies,
            CheckId::TokenPermissions => self.build.token_permissions,
            CheckId::Packaging => self.build.packaging,
            CheckId::SignedReleases => self.build.signed_releases,
            CheckId::SbomSc => None,
        }
    }

    /// Apply the exemptions that depend on other checks' results. No such
    /// exemption applies among the Scorecard checks, so the report is left as it
    /// is.
    pub fn apply_exemptions(&mut self)
        ensures
            *final(self) == *old(self),
    {
    }
}

impl Default for Report {
    fn default() -> (r: Self)
        ensures
            r.code_vulnerabilities.vulnerabilities is None,
            r.maintenance.dependency_update_tool is None,
            r.maintenance.maintained is None,
            r.maintenance.security_policy_sc is None,
            r.maintenance.license_sc is None,
            r.maintenance.cii_best_practices is None,
            r.testing.ci_tests is None,
            r.testing.fuzzing is None,
            r.testing.sast is None,
            r.source.binary_artifacts is None,
            r.source.branch_protection is None,
            r.source.dangerous_workflow is None,
            r.source.code_review is None,
            r.source.contributors_sc is None,
            r.build.pinned_dependencies is None,
            r.build.token_permissions is None,
            r.build.packaging is None,
            r.build.signed_releases is None,
    {
        Report {
            code_vulnerabilities: CodeVulnerabilities::default(),
            maintenance: Maintenance::default(),
            testing: ContinuousTesting::default(),
            source: SourceRisk::default(),
            build: BuildRisk::default(),
        }
    }
}

/// Code vulnerabilities section (OpenSSF Scorecard).
#[derive(Debug, Clone, PartialEq, Eq)]
pub struct CodeVulnerabilities {
    pub vulnerabilities: Option<CheckOutput>,
}

impl CheckSection for CodeVulnerabilities {
    open spec fn availability(&self) -> Seq<(CheckId, bool)> {
        seq![
            (CheckId::Vulnerabilities, self.vulnerabilities is Some),
        ]
    }

    open spec fn passing(&self) -> Seq<(CheckId, bool)> {
        seq![
            (CheckId::Vulnerabilities, passed_or_exempt(self.vulnerabilities)),
        ]
    }

    proof fn lemma_passing_refines_availability(&self) {
    }

    proof fn lemma_checks_are_distinct(&self) {
    }
}

impl CodeVulnerabilities {
    /// Return the identifiers of the checks of this section that have an output,
    /// in the order of the section's fields.
    pub fn available(&self) -> (checks: Vec<CheckId>)
        ensures
            checks@ == selected_ids(self.availability()),
    {
        let flags = vec![
            (CheckId::Vulnerabilities, self.vulnerabilities.is_some()),
        ];
        proof {
            assert(flags@ =~= self.availability());
        }
        collect_selected(&flags)
    }

    /// Return the identifiers of the checks of this section that passed or from
    /// which the repository is exempt, in the order of the section's fields.
    pub fn passed_or_exempt(&self) -> (checks: Vec<CheckId>)
        ensures
            checks@ == selected_ids(self.passing()),
    {
        let flags = vec![
            (CheckId::Vulnerabilities, is_passed_or_exempt(&self.vulnerabilities)),
        ];
        proof {
            assert(flags@ =~= self.passing());
        }
        collect_selected(&flags)
    }
}

impl Default for CodeVulnerabilities {
    fn default() -> (s: Self)
        ensures
            s.vulnerabilities is None,
    {
        CodeVulnerabilities {
            vulnerabilities: None,
        }
    }
}

/// Maintenance section (OpenSSF Scorecard).
#[derive(Debug, Clone, PartialEq, Eq)]
pub struct Maintenance {
    pub dependency_update_tool: Option<CheckOutput>,
    pub maintained: Option<CheckOutput>,
    pub security_policy_sc: Option<CheckOutput>,
    pub license_sc: Option<CheckOutput>,
    pub cii_best_practices: Option<CheckOutput>,
}

impl CheckSection for Maintenance {
    open spec fn availability(&self) -> Seq<(CheckId, bool)> {
        seq![
            (CheckId::DependencyUpdateTool, self.dependency_update_tool is Some),
            (CheckId::Maintained, self.maintained is Some),
            (CheckId::SecurityPolicySc, self.security_policy_sc is Some),
            (CheckId::LicenseSc, self.license_sc is Some),
            (CheckId::CiiBestPractices, self.cii_best_practices is Some),
        ]
    }

    open spec fn passing(&self) -> Seq<(CheckId, bool)> {
        seq![
            (CheckId::DependencyUpdateTool, passed_or_exempt(self.dependency_update_tool)),
            (CheckId::Maintained, passed_or_exempt(self.maintained)),
            (CheckId::SecurityPolicySc, passed_or_exempt(self.security_policy_sc)),
            (CheckId::LicenseSc, passed_or_exempt(self.license_sc)),
            (CheckId::CiiBestPractices, passed_or_exempt(self.cii_best_practices)),
        ]
    }

    proof fn lemma_passing_refines_availability(&self) {
    }

    proof fn lemma_checks_are_distinct(&self) {
    }
}

impl Maintenance {
    /// Return the identifiers of the checks of this section that have an output,
    /// in the order of the section's fields.
    pub fn available(&self) -> (checks: Vec<CheckId>)
        ensures
            checks@ == selected_ids(self.availability()),
    {
        let flags = vec![
            (CheckId::DependencyUpdateTool, self.dependency_update_tool.is_some()),
            (CheckId::Maintained, self.maintained.is_some()),
            (CheckId::SecurityPolicySc, self.security_policy_sc.is_some()),
            (CheckId::LicenseSc, self.license_sc.is_some()),
            (CheckId::CiiBestPractices, self.cii_best_practices.is_some()),
        ];
        proof {
            assert(flags@ =~= self.availability());
        }
        collect_selected(&flags)
    }

    /// Return the identifiers of the checks of this section that passed or from
    /// which the repository is exempt, in the order of the section's fields.
    pub fn passed_or_exempt(&self) -> (checks: Vec<CheckId>)
        ensures
            checks@ == selected_ids(self.passing()),
    {
        let flags = vec![
            (CheckId::DependencyUpdateTool, is_passed_or_exempt(&self.dependency_update_tool)),
            (CheckId::Maintained, is_passed_or_exempt(&self.maintained)),
            (CheckId::SecurityPolicySc, is_passed_or_exempt(&self.security_policy_sc)),
            (CheckId::LicenseSc, is_passed_or_exempt(&self.license_sc)),
            (CheckId::CiiBestPractices, is_passed_or_exempt(&self.cii_best_practices)),
        ];
        proof {
            assert(flags@ =~= self.passing());
        }
        collect_selected(&flags)
    }
}

impl Default for Maintenance {
    fn default() -> (s: Self)
        ensures
            s.dependency_update_tool is None,
            s.maintained is None,
            s.security_policy_sc is None,
            s.license_sc is None,
            s.cii_best_practices is None,
    {
        Maintenance {
            dependency_update_tool: None,
            maintained: None,
            security_policy_sc: None,
            license_sc: None,
            cii_best_practices: None,
        }
    }
}

/// Continuous testing section (OpenSSF Scorecard).
#[derive(Debug, Clone, PartialEq, Eq)]
pub struct ContinuousTesting {
    pub ci_tests: Option<CheckOutput>,
    pub fuzzing: Option<CheckOutput>,
    pub sast: Option<CheckOutput>,
}

impl CheckSection for ContinuousTesting {
    open spec fn availability(&self) -> Seq<(CheckId, bool)> {
        seq![
            (CheckId::CiTests, self.ci_tests is Some),
            (CheckId::Fuzzing, self.fuzzing is Some),
            (CheckId::Sast, self.sast is Some),
        ]
    }

    open spec fn passing(&self) -> Seq<(CheckId, bool)> {
        seq![
            (CheckId::CiTests, passed_or_exempt(self.ci_tests)),
            (CheckId::Fuzzing, passed_or_exempt(self.fuzzing)),
            (CheckId::Sast, passed_or_exempt(self.sast)),
        ]
    }

    proof fn lemma_passing_refines_availability(&self) {
    }

    proof fn lemma_checks_are_distinct(&self) {
    }
}

impl ContinuousTesting {
    /// Return the identifiers of the checks of this section that have an output,
    /// in the order of the section's fields.
    pub fn available(&self) -> (checks: Vec<CheckId>)
        ensures
            checks@ == selected_ids(self.availability()),
    {
        let flags = vec![
            (CheckId::CiTests, self.ci_tests.is_some()),
            (CheckId::Fuzzing, self.fuzzing.is_some()),
            (CheckId::Sast, self.sast.is_some()),
        ];
        proof {
            assert(flags@ =~= self.availability());
        }
        collect_selected(&flags)
    }

    /// Return the identifiers of the checks of this section that passed or from
    /// which the repository is exempt, in the order of the section's fields.
    pub fn passed_or_exempt(&self) -> (checks: Vec<CheckId>)
        ensures
            checks@ == selected_ids(self.passing()),
    {
        let flags = vec![
            (CheckId::CiTests, is_passed_or_exempt(&self.ci_tests)),
            (CheckId::Fuzzing, is_passed_or_exempt(&self.fuzzing)),
            (CheckId::Sast, is_passed_or_exempt(&self.sast)),
        ];
        proof {
            assert(flags@ =~= self.passing());
        }
        collect_selected(&flags)
    }
}

impl Default for ContinuousTesting {
    fn default() -> (s: Self)
        ensures
            s.ci_tests is None,
            s.fuzzing is None,
            s.sast is None,
    {
        ContinuousTesting {
            ci_tests: None,
            fuzzing: None,
            sast: None,
        }
    }
}

/// Source risk section (OpenSSF Scorecard).
#[derive(Debug, Clone, PartialEq, Eq)]
pub struct SourceRisk {
    pub binary_artifacts: Option<CheckOutput>,
    pub branch_protection: Option<CheckOutput>,
    pub dangerous_workflow: Option<CheckOutput>,
    pub code_review: Option<CheckOutput>,
    pub contributors_sc: Option<CheckOutput>,
}

impl CheckSection for SourceRisk {
    open spec fn availability(&self) -> Seq<(CheckId, bool)> {
        seq![
            (CheckId::BinaryArtifacts, self.binary_artifacts is Some),
            (CheckId::BranchProtection, self.branch_protection is Some),
            (CheckId::DangerousWorkflow, self.dangerous_workflow is Some),
            (CheckId::CodeReview, self.code_review is Some),
            (CheckId::ContributorsSc, self.contributors_sc is Some),
        ]
    }

    open spec fn passing(&self) -> Seq<(CheckId, bool)> {
        seq![
            (CheckId::BinaryArtifacts, passed_or_exempt(self.binary_artifacts)),
            (CheckId::BranchProtection, passed_or_exempt(self.branch_protection)),
            (CheckId::DangerousWorkflow, passed_or_exempt(self.dangerous_workflow)),
            (CheckId::CodeReview, passed_or_exempt(self.code_review)),
            (CheckId::ContributorsSc, passed_or_exempt(self.contributors_sc)),
        ]
    }

    proof fn lemma_passing_refines_availability(&self) {
    }

    proof fn lemma_checks_are_distinct(&self) {
    }
}

impl SourceRisk {
    /// Return the identifiers of the checks of this section that have an output,
    /// in the order of the section's fields.
    pub fn available(&self) -> (checks: Vec<CheckId>)
        ensures
            checks@ == selected_ids(self.availability()),
    {
        let flags = vec![
            (CheckId::BinaryArtifacts, self.binary_artifacts.is_some()),
            (CheckId::BranchProtection, self.branch_protection.is_some()),
            (CheckId::DangerousWorkflow, self.dangerous_workflow.is_some()),
            (CheckId::CodeReview, self.code_review.is_some()),
            (CheckId::ContributorsSc, self.contributors_sc.is_some()),
        ];
        proof {
            assert(flags@ =~= self.availability());
        }
        collect_selected(&flags)
    }

    /// Return the identifiers of the checks of this section that passed or from
    /// which the repository is exempt, in the order of the section's fields.
    pub fn passed_or_exempt(&self) -> (checks: Vec<CheckId>)
        ensures
            checks@ == selected_ids(self.passing()),
    {
        let flags = vec![
            (CheckId::BinaryArtifacts, is_passed_or_exempt(&self.binary_artifacts)),
            (CheckId::BranchProtection, is_passed_or_exempt(&self.branch_protection)),
            (CheckId::DangerousWorkflow, is_passed_or_exempt(&self.dangerous_workflow)),
            (CheckId::CodeReview, is_passed_or_exempt(&self.code_review)),
            (CheckId::ContributorsSc, is_passed_or_exempt(&self.contributors_sc)),
        ];
        proof {
            assert(flags@ =~= self.passing());
        }
        collect_selected(&flags)
    }
}

impl Default for SourceRisk {
    fn default() -> (s: Self)
        ensures
            s.binary_artifacts is None,
            s.branch_protection is None,
            s.dangerous_workflow is None,
            s.code_review is None,
            s.contributors_sc is None,
    {
        SourceRisk {
            binary_artifacts: None,
            branch_protection: None,
            dangerous_workflow: None,
            code_review: None,
            contributors_sc: None,
        }
    }
}

/// Build risk section (OpenSSF Scorecard).
#[derive(Debug, Clone, PartialEq, Eq)]
pub struct BuildRisk {
    pub pinned_dependencies: Option<CheckOutput>,
    pub token_permissions: Option<CheckOutput>,
    pub packaging: Option<CheckOutput>,
    pub signed_releases: Option<CheckOutput>,
}

impl CheckSection for BuildRisk {
    open spec fn availability(&self) -> Seq<(CheckId, bool)> {
        seq![
            (CheckId::PinnedDependencies, self.pinned_dependencies is Some),
            (CheckId::TokenPermissions, self.token_permissions is Some),
            (CheckId::Packaging, self.packaging is Some),
            (CheckId::SignedReleases, self.signed_releases is Some),
        ]
    }

    open spec fn passing(&self) -> Seq<(CheckId, bool)> {
        seq![
            (CheckId::PinnedDependencies, passed_or_exempt(self.pinned_dependencies)),
            (CheckId::TokenPermissions, passed_or_exempt(self.token_permissions)),
            (CheckId::Packaging, passed_or_exempt(self.packaging)),
            (CheckId::SignedReleases, passed_or_exempt(self.signed_releases)),
        ]
    }

    proof fn lemma_passing_refines_availability(&self) {
    }

    proof fn lemma_checks_are_distinct(&self) {
    }
}

impl BuildRisk {
    /// Return the identifiers of the checks of this section that have an output,
    /// in the order of the section's fields.
    pub fn available(&self) -> (checks: Vec<CheckId>)
        ensures
            checks@ == selected_ids(self.availability()),
    {
        let flags = vec![
            (CheckId::PinnedDependencies, self.pinned_dependencies.is_some()),
            (CheckId::TokenPermissions, self.token_permissions.is_some()),
            (CheckId::Packaging, self.packaging.is_some()),
            (CheckId::SignedReleases, self.signed_releases.is_some()),
        ];
        proof {
            assert(flags@ =~= self.availability());
        }
        collect_selected(&flags)
    }

    /// Return the identifiers of the checks of this section that passed or from
    /// which the repository is exempt, in the order of the section's fields.
    pub fn passed_or_exempt(&self) -> (checks: Vec<CheckId>)
        ensures
            checks@ == selected_ids(self.passing()),
    {
        let flags = vec![
            (CheckId::PinnedDependencies, is_passed_or_exempt(&self.pinned_dependencies)),
            (CheckId::TokenPermissions, is_passed_or_exempt(&self.token_permissions)),
            (CheckId::Packaging, is_passed_or_exempt(&self.packaging)),
            (CheckId::SignedReleases, is_passed_or_exempt(&self.signed_releases)),
        ];
        proof {
            assert(flags@ =~= self.passing());
        }
        collect_selected(&flags)
    }
}

impl Default for BuildRisk {
    fn default() -> (s: Self)
        ensures
            s.pinned_dependencies is None,
            s.token_permissions is None,
            s.packaging is None,
            s.signed_releases is None,
    {
        BuildRisk {
            pinned_dependencies: None,
            token_permissions: None,
            packaging: None,
            signed_releases: None,
        }
    }
}

/// Project section: holistic security practices (OpenSSF Scorecard).
#[derive(Debug, Clone, PartialEq, Eq)]
pub struct Holistic {
    pub maintained: Option<CheckOutput>,
    pub contributors_sc: Option<CheckOutput>,
    pub cii_best_practices: Option<CheckOutput>,
    pub security_policy_sc: Option<CheckOutput>,
    pub license_sc: Option<CheckOutput>,
}

impl CheckSection for Holistic {
    open spec fn availability(&self) -> Seq<(CheckId, bool)> {
        seq![
            (CheckId::Maintained, self.maintained is Some),
            (CheckId::ContributorsSc, self.contributors_sc is Some),
            (CheckId::CiiBestPractices, self.cii_best_practices is Some),
            (CheckId::SecurityPolicySc, self.security_policy_sc is Some),
            (CheckId::LicenseSc, self.license_sc is Some),
        ]
    }

    open spec fn passing(&self) -> Seq<(CheckId, bool)> {
        seq![
            (CheckId::Maintained, passed_or_exempt(self.maintained)),
            (CheckId::ContributorsSc, passed_or_exempt(self.contributors_sc)),
            (CheckId::CiiBestPractices, passed_or_exempt(self.cii_best_practices)),
            (CheckId::SecurityPolicySc, passed_or_exempt(self.security_policy_sc)),
            (CheckId::LicenseSc, passed_or_exempt(self.license_sc)),
        ]
    }

    proof fn lemma_passing_refines_availability(&self) {
    }

    proof fn lemma_checks_are_distinct(&self) {
    }
}

impl Holistic {
    /// Return the identifiers of the checks of this section that have an output,
    /// in the order of the section's fields.
    pub fn available(&self) -> (checks: Vec<CheckId>)
        ensures
            checks@ == selected_ids(self.availability()),
    {
        let flags = vec![
            (CheckId::Maintained, self.maintained.is_some()),
            (CheckId::ContributorsSc, self.contributors_sc.is_some()),
            (CheckId::CiiBestPractices, self.cii_best_practices.is_some()),
            (CheckId::SecurityPolicySc, self.security_policy_sc.is_some()),
            (CheckId::LicenseSc, self.license_sc.is_some()),
        ];
        proof {
            assert(flags@ =~= self.availability());
        }
        collect_selected(&flags)
    }

    /// Return the identifiers of the checks of this section that passed or from
    /// which the repository is exempt, in the order of the section's fields.
    pub fn passed_or_exempt(&self) -> (checks: Vec<CheckId>)
        ensures
            checks@ == selected_ids(self.passing()),
    {
        let flags = vec![
            (CheckId::Maintained, is_passed_or_exempt(&self.maintained)),
            (CheckId::ContributorsSc, is_passed_or_exempt(&self.contributors_sc)),
            (CheckId::CiiBestPractices, is_passed_or_exempt(&self.cii_best_practices)),
            (CheckId::SecurityPolicySc, is_passed_or_exempt(&self.security_policy_sc)),
            (CheckId::LicenseSc, is_passed_or_exempt(&self.license_sc)),
        ];
        proof {
            assert(flags@ =~= self.passing());
        }
        collect_selected(&flags)
    }
}

impl Default for Holistic {
    fn default() -> (s: Self)
        ensures
            s.maintained is None,
            s.contributors_sc is None,
            s.cii_best_practices is None,
            s.security_policy_sc is None,
            s.license_sc is None,
    {
        Holistic {
            maintained: None,
            contributors_sc: None,
            cii_best_practices: None,
            security_policy_sc: None,
            license_sc: None,
        }
    }
}

/// Source section: source code risk assessment (OpenSSF Scorecard).
#[derive(Debug, Clone, PartialEq, Eq)]
pub struct SourceCode {
    pub code_review: Option<CheckOutput>,
    pub binary_artifacts: Option<CheckOutput>,
    pub dangerous_workflow: Option<CheckOutput>,
    pub sast: Option<CheckOutput>,
    pub vulnerabilities: Option<CheckOutput>,
}

impl CheckSection for SourceCode {
    open spec fn availability(&self) -> Seq<(CheckId, bool)> {
        seq![
            (CheckId::CodeReview, self.code_review is Some),
            (CheckId::BinaryArtifacts, self.binary_artifacts is Some),
            (CheckId::DangerousWorkflow, self.dangerous_workflow is Some),
            (CheckId::Sast, self.sast is Some),
            (CheckId::Vulnerabilities, self.vulnerabilities is Some),
        ]
    }

    open spec fn passing(&self) -> Seq<(CheckId, bool)> {
        seq![
            (CheckId::CodeReview, passed_or_exempt(self.code_review)),
            (CheckId::BinaryArtifacts, passed_or_exempt(self.binary_artifacts)),
            (CheckId::DangerousWorkflow, passed_or_exempt(self.dangerous_workflow)),
            (CheckId::Sast, passed_or_exempt(self.sast)),
            (CheckId::Vulnerabilities, passed_or_exempt(self.vulnerabilities)),
        ]
    }

    proof fn lemma_passing_refines_availability(&self) {
    }

    proof fn lemma_checks_are_distinct(&self) {
    }
}

impl SourceCode {
    /// Return the identifiers of the checks of this section that have an output,
    /// in the order of the section's fields.
    pub fn available(&self) -> (checks: Vec<CheckId>)
        ensures
            checks@ == selected_ids(self.availability()),
    {
        let flags = vec![
            (CheckId::CodeReview, self.code_review.is_some()),
            (CheckId::BinaryArtifacts, self.binary_artifacts.is_some()),
            (CheckId::DangerousWorkflow, self.dangerous_workflow.is_some()),
            (CheckId::Sast, self.sast.is_some()),
            (CheckId::Vulnerabilities, self.vulnerabilities.is_some()),
        ];
        proof {
            assert(flags@ =~= self.availability());
        }
        collect_selected(&flags)
    }

    /// Return the identifiers of the checks of this section that passed or from
    /// which the repository is exempt, in the order of the section's fields.
    pub fn passed_or_exempt(&self) -> (checks: Vec<CheckId>)
        ensures
            checks@ == selected_ids(self.passing()),
    {
        let flags = vec![
            (CheckId::CodeReview, is_passed_or_exempt(&self.code_review)),
            (CheckId::BinaryArtifacts, is_passed_or_exempt(&self.binary_artifacts)),
            (CheckId::DangerousWorkflow, is_passed_or_exempt(&self.dangerous_workflow)),
            (CheckId::Sast, is_passed_or_exempt(&self.sast)),
            (CheckId::Vulnerabilities, is_passed_or_exempt(&self.vulnerabilities)),
        ];
        proof {
            assert(flags@ =~= self.passing());
        }
        collect_selected(&flags)
    }
}

impl Default for SourceCode {
    fn default() -> (s: Self)
        ensures
            s.code_review is None,
            s.binary_artifacts is None,
            s.dangerous_workflow is None,
            s.sast is None,
            s.vulnerabilities is None,
    {
        SourceCode {
            code_review: None,
            binary_artifacts: None,
            dangerous_workflow: None,
            sast: None,
            vulnerabilities: None,
        }
    }
}

/// Build section: build process risk assessment (OpenSSF Scorecard).
#[derive(Debug, Clone, PartialEq, Eq)]
pub struct BuildProcess {
    pub branch_protection: Option<CheckOutput>,
    pub ci_tests: Option<CheckOutput>,
    pub dependency_update_tool: Option<CheckOutput>,
    pub fuzzing: Option<CheckOutput>,
    pub pinned_dependencies: Option<CheckOutput>,
    pub signed_releases: Option<CheckOutput>,
    pub token_permissions: Option<CheckOutput>,
    pub packaging: Option<CheckOutput>,
    pub sbom_sc: Option<CheckOutput>,
}

impl CheckSection for BuildProcess {
    open spec fn availability(&self) -> Seq<(CheckId, bool)> {
        seq![
            (CheckId::BranchProtection, self.branch_protection is Some),
            (CheckId::CiTests, self.ci_tests is Some),
            (CheckId::DependencyUpdateTool, self.dependency_update_tool is Some),
            (CheckId::Fuzzing, self.fuzzing is Some),
            (CheckId::PinnedDependencies, self.pinned_dependencies is Some),
            (CheckId::SignedReleases, self.signed_releases is Some),
            (CheckId::TokenPermissions, self.token_permissions is Some),
            (CheckId::Packaging, self.packaging is Some),
            (CheckId::SbomSc, self.sbom_sc is Some),
        ]
    }

    open spec fn passing(&self) -> Seq<(CheckId, bool)> {
        seq![
            (CheckId::BranchProtection, passed_or_exempt(self.branch_protection)),
            (CheckId::CiTests, passed_or_exempt(self.ci_tests)),
            (CheckId::DependencyUpdateTool, passed_or_exempt(self.dependency_update_tool)),
            (CheckId::Fuzzing, passed_or_exempt(self.fuzzing)),
            (CheckId::PinnedDependencies, passed_or_exempt(self.pinned_dependencies)),
            (CheckId::SignedReleases, passed_or_exempt(self.signed_releases)),
            (CheckId::TokenPermissions, passed_or_exempt(self.token_permissions)),
            (CheckId::Packaging, passed_or_exempt(self.packaging)),
            (CheckId::SbomSc, passed_or_exempt(self.sbom_sc)),
        ]
    }

    proof fn lemma_passing_refines_availability(&self) {
    }

    proof fn lemma_checks_are_distinct(&self) {
    }
}

impl BuildProcess {
    /// Return the identifiers of the checks of this section that have an output,
    /// in the order of the section's fields.
    pub fn available(&self) -> (checks: Vec<CheckId>)
        ensures
            checks@ == selected_ids(self.availability()),
    {
        let flags = vec![
            (CheckId::BranchProtection, self.branch_protection.is_some()),
            (CheckId::CiTests, self.ci_tests.is_some()),
            (CheckId::DependencyUpdateTool, self.dependency_update_tool.is_some()),
            (CheckId::Fuzzing, self.fuzzing.is_some()),
            (CheckId::PinnedDependencies, self.pinned_dependencies.is_some()),
            (CheckId::SignedReleases, self.signed_releases.is_some()),
            (CheckId::TokenPermissions, self.token_permissions.is_some()),
            (CheckId::Packaging, self.packaging.is_some()),
            (CheckId::SbomSc, self.sbom_sc.is_some()),
        ];
        proof {
            assert(flags@ =~= self.availability());
        }
        collect_selected(&flags)
    }

    /// Return the identifiers of the checks of this section that passed or from
    /// which the repository is exempt, in the order of the section's fields.
    pub fn passed_or_exempt(&self) -> (checks: Vec<CheckId>)
        ensures
            checks@ == selected_ids(self.passing()),
    {
        let flags = vec![
            (CheckId::BranchProtection, is_passed_or_exempt(&self.branch_protection)),
            (CheckId::CiTests, is_passed_or_exempt(&self.ci_tests)),
            (CheckId::DependencyUpdateTool, is_passed_or_exempt(&self.dependency_update_tool)),
            (CheckId::Fuzzing, is_passed_or_exempt(&self.fuzzing)),
            (CheckId::PinnedDependencies, is_passed_or_exempt(&self.pinned_dependencies)),
            (CheckId::SignedReleases, is_passed_or_exempt(&self.signed_releases)),
            (CheckId::TokenPermissions, is_passed_or_exempt(&self.token_permissions)),
            (CheckId::Packaging, is_passed_or_exempt(&self.packaging)),
            (CheckId::SbomSc, is_passed_or_exempt(&self.sbom_sc)),
        ];
        proof {
            assert(flags@ =~= self.passing());
        }
        collect_selected(&flags)
    }
}

impl Default for BuildProcess {
    fn default() -> (s: Self)
        ensures
            s.branch_protection is None,
            s.ci_tests is None,
            s.dependency_update_tool is None,
            s.fuzzing is None,
            s.pinned_dependencies is None,
            s.signed_releases is None,
            s.token_permissions is None,
            s.packaging is None,
            s.sbom_sc is None,
    {
        BuildProcess {
            branch_protection: None,
            ci_tests: None,
            dependency_update_tool: None,
            fuzzing: None,
            pinned_dependencies: None,
            signed_releases: None,
            token_permissions: None,
            packaging: None,
            sbom_sc: None,
        }
    }
}



/// The check `id` alone where `shown` holds, and no check otherwise.
pub open spec fn check_if(id: CheckId, shown: bool) -> Seq<CheckId> {
    if shown {
        seq![id]
    } else {
        Seq::empty()
    }
}

/// Selecting from one more entry adds that entry's check where it is flagged.
proof fn lemma_selected_step(flags: Seq<(CheckId, bool)>, k: int)
    requires
        0 < k <= flags.len(),
    ensures
        selected_ids(flags.take(k)) == selected_ids(flags.take(k - 1)) + check_if(
            flags[k - 1].0,
            flags[k - 1].1,
        ),
{
    assert(flags.take(k).drop_last() =~= flags.take(k - 1));
    assert(selected_ids(flags.take(k - 1)) + Seq::<CheckId>::empty() =~= selected_ids(
        flags.take(k - 1),
    ));
    assert(selected_ids(flags.take(k - 1)).push(flags[k - 1].0) =~= selected_ids(
        flags.take(k - 1),
    ) + seq![flags[k - 1].0]);
}

/// Selecting from all entries gives, in order, each entry's check where it is
/// flagged.
proof fn lemma_selected_prefix(flags: Seq<(CheckId, bool)>, k: int)
    requires
        0 <= k <= flags.len(),
    ensures
        k == 0 ==> selected_ids(flags.take(k)) == Seq::<CheckId>::empty(),
        k == flags.len() ==> selected_ids(flags.take(k)) == selected_ids(flags),
{
    if k == 0 {
        assert(flags.take(k) =~= Seq::<(CheckId, bool)>::empty());
    }
    if k == flags.len() {
        assert(flags.take(k) =~= flags);
    }
}

/// A check is in `check_if(x, shown)` exactly when it is `x` and `shown` holds.
proof fn lemma_contains_check_if(x: CheckId, shown: bool, id: CheckId)
    ensures
        check_if(x, shown).contains(id) <==> (id == x && shown),
{
    if id == x && shown {
        assert(check_if(x, shown)[0] == id);
    }
}

/// A check is in `pre + check_if(x, shown)` exactly when it is in `pre`, or it is
/// `x` and `shown` holds.
proof fn lemma_contains_after(pre: Seq<CheckId>, x: CheckId, shown: bool, id: CheckId)
    ensures
        (pre + check_if(x, shown)).contains(id) <==> (pre.contains(id) || (id == x && shown)),
{
    let whole = pre + check_if(x, shown);
    if pre.contains(id) {
        let i = choose|i: int| 0 <= i < pre.len() && pre[i] == id;
        assert(whole[i] == id);
    }
    if id == x && shown {
        assert(whole[pre.len() as int] == id);
    }
    if whole.contains(id) {
        let i = choose|i: int| 0 <= i < whole.len() && whole[i] == id;
        if i < pre.len() {
            assert(pre[i] == id);
        }
    }
}

/// In field order, the checks a CodeVulnerabilities section lists as available.
pub(crate) proof fn lemma_code_vulnerabilities_available_in_order(s: CodeVulnerabilities)
    ensures
        selected_ids(s.availability()) == check_if(CheckId::Vulnerabilities, s.vulnerabilities is Some),
{
    let av = s.availability();
    lemma_selected_prefix(av, 0);
    lemma_selected_prefix(av, 1);
    lemma_selected_step(av, 1);
}

/// Which checks a CodeVulnerabilities section lists as available.
proof fn lemma_code_vulnerabilities_available_members(s: CodeVulnerabilities)
    ensures
        forall|id: CheckId|
            #[trigger] selected_ids(s.availability()).contains(id) <==> ((id == CheckId::Vulnerabilities && s.vulnerabilities is Some)),
{
    lemma_code_vulnerabilities_available_in_order(s);
    assert forall|id: CheckId|
        #[trigger] selected_ids(s.availability()).contains(id) <==> ((id == CheckId::Vulnerabilities && s.vulnerabilities is Some)) by {
        lemma_contains_check_if(CheckId::Vulnerabilities, s.vulnerabilities is Some, id);
    }
}

/// In field order, the checks a CodeVulnerabilities section lists as passed or exempt.
proof fn lemma_code_vulnerabilities_passing_in_order(s: CodeVulnerabilities)
    ensures
        selected_ids(s.passing()) == check_if(CheckId::Vulnerabilities, (s.vulnerabilities matches Some(o) && (o.passed || o.exempt))),
{
    let pa = s.passing();
    lemma_selected_prefix(pa, 0);
    lemma_selected_prefix(pa, 1);
    lemma_selected_step(pa, 1);
}

/// Which checks a CodeVulnerabilities section lists as passed or exempt.
proof fn lemma_code_vulnerabilities_passing_members(s: CodeVulnerabilities)
    ensures
        forall|id: CheckId|
            #[trigger] selected_ids(s.passing()).contains(id) <==> ((id == CheckId::Vulnerabilities && (s.vulnerabilities matches Some(o) && (o.passed || o.exempt)))),
{
    lemma_code_vulnerabilities_passing_in_order(s);
    assert forall|id: CheckId|
        #[trigger] selected_ids(s.passing()).contains(id) <==> ((id == CheckId::Vulnerabilities && (s.vulnerabilities matches Some(o) && (o.passed || o.exempt)))) by {
        lemma_contains_check_if(CheckId::Vulnerabilities, (s.vulnerabilities matches Some(o) && (o.passed || o.exempt)), id);
    }
}

/// The checks a CodeVulnerabilities section lists: as available, in field order, each check
/// whose own field holds an output; as passed or exempt, in field order, each
/// check whose own field holds an output that passed or is exempt. No other
/// field decides whether a check is listed.
pub proof fn code_vulnerabilities_lists_checks_by_their_own_fields(s: CodeVulnerabilities)
    ensures
        selected_ids(s.availability()) == check_if(CheckId::Vulnerabilities, s.vulnerabilities is Some),
        selected_ids(s.passing()) == check_if(CheckId::Vulnerabilities, (s.vulnerabilities matches Some(o) && (o.passed || o.exempt))),
        forall|id: CheckId|
            #[trigger] selected_ids(s.availability()).contains(id) <==> ((id == CheckId::Vulnerabilities && s.vulnerabilities is Some)),
        forall|id: CheckId|
            #[trigger] selected_ids(s.passing()).contains(id) <==> ((id == CheckId::Vulnerabilities && (s.vulnerabilities matches Some(o) && (o.passed || o.exempt)))),
{
    lemma_code_vulnerabilities_available_in_order(s);
    lemma_code_vulnerabilities_passing_in_order(s);
    lemma_code_vulnerabilities_available_members(s);
    lemma_code_vulnerabilities_passing_members(s);
}

/// In field order, the checks a Maintenance section lists as available.
pub(crate) proof fn lemma_maintenance_available_in_order(s: Maintenance)
    ensures
        selected_ids(s.availability()) == check_if(CheckId::DependencyUpdateTool, s.dependency_update_tool is Some)
            + check_if(CheckId::Maintained, s.maintained is Some)
            + check_if(CheckId::SecurityPolicySc, s.security_policy_sc is Some)
            + check_if(CheckId::LicenseSc, s.license_sc is Some)
            + check_if(CheckId::CiiBestPractices, s.cii_best_practices is Some),
{
    let av = s.availability();
    lemma_selected_prefix(av, 0);
    lemma_selected_prefix(av, 5);
    lemma_selected_step(av, 1);
    lemma_selected_step(av, 2);
    lemma_selected_step(av, 3);
    lemma_selected_step(av, 4);
    lemma_selected_step(av, 5);
}

/// Which checks a Maintenance section lists as available.
proof fn lemma_maintenance_available_members(s: Maintenance)
    ensures
        forall|id: CheckId|
            #[trigger] selected_ids(s.availability()).contains(id) <==> ((id == CheckId::DependencyUpdateTool && s.dependency_update_tool is Some)
                || (id == CheckId::Maintained && s.maintained is Some)
                || (id == CheckId::SecurityPolicySc && s.security_policy_sc is Some)
                || (id == CheckId::LicenseSc && s.license_sc is Some)
                || (id == CheckId::CiiBestPractices && s.cii_best_practices is Some)),
{
    lemma_maintenance_available_in_order(s);
    assert forall|id: CheckId|
        #[trigger] selected_ids(s.availability()).contains(id) <==> ((id == CheckId::DependencyUpdateTool && s.dependency_update_tool is Some)
                || (id == CheckId::Maintained && s.maintained is Some)
                || (id == CheckId::SecurityPolicySc && s.security_policy_sc is Some)
                || (id == CheckId::LicenseSc && s.license_sc is Some)
                || (id == CheckId::CiiBestPractices && s.cii_best_practices is Some)) by {
        lemma_contains_check_if(CheckId::DependencyUpdateTool, s.dependency_update_tool is Some, id);
        lemma_contains_after(
            check_if(CheckId::DependencyUpdateTool, s.dependency_update_tool is Some),
            CheckId::Maintained,
            s.maintained is Some,
            id,
        );
        lemma_contains_after(
            check_if(CheckId::DependencyUpdateTool, s.dependency_update_tool is Some)
                + check_if(CheckId::Maintained, s.maintained is Some),
            CheckId::SecurityPolicySc,
            s.security_policy_sc is Some,
            id,
        );
        lemma_contains_after(
            check_if(CheckId::DependencyUpdateTool, s.dependency_update_tool is Some)
                + check_if(CheckId::Maintained, s.maintained is Some)
                + check_if(CheckId::SecurityPolicySc, s.security_policy_sc is Some),
            CheckId::LicenseSc,
            s.license_sc is Some,
            id,
        );
        lemma_contains_after(
            check_if(CheckId::DependencyUpdateTool, s.dependency_update_tool is Some)
                + check_if(CheckId::Maintained, s.maintained is Some)
                + check_if(CheckId::SecurityPolicySc, s.security_policy_sc is Some)
                + check_if(CheckId::LicenseSc, s.license_sc is Some),
            CheckId::CiiBestPractices,
            s.cii_best_practices is Some,
            id,
        );
    }
}

/// In field order, the checks a Maintenance section lists as passed or exempt.
proof fn lemma_maintenance_passing_in_order(s: Maintenance)
    ensures
        selected_ids(s.passing()) == check_if(CheckId::DependencyUpdateTool, (s.dependency_update_tool matches Some(o) && (o.passed || o.exempt)))
            + check_if(CheckId::Maintained, (s.maintained matches Some(o) && (o.passed || o.exempt)))
            + check_if(CheckId::SecurityPolicySc, (s.security_policy_sc matches Some(o) && (o.passed || o.exempt)))
            + check_if(CheckId::LicenseSc, (s.license_sc matches Some(o) && (o.passed || o.exempt)))
            + check_if(CheckId::CiiBestPractices, (s.cii_best_practices matches Some(o) && (o.passed || o.exempt))),
{
    let pa = s.passing();
    lemma_selected_prefix(pa, 0);
    lemma_selected_prefix(pa, 5);
    lemma_selected_step(pa, 1);
    lemma_selected_step(pa, 2);
    lemma_selected_step(pa, 3);
    lemma_selected_step(pa, 4);
    lemma_selected_step(pa, 5);
}

/// Which checks a Maintenance section lists as passed or exempt.
proof fn lemma_maintenance_passing_members(s: Maintenance)
    ensures
        forall|id: CheckId|
            #[trigger] selected_ids(s.passing()).contains(id) <==> ((id == CheckId::DependencyUpdateTool && (s.dependency_update_tool matches Some(o) && (o.passed || o.exempt)))
                || (id == CheckId::Maintained && (s.maintained matches Some(o) && (o.passed || o.exempt)))
                || (id == CheckId::SecurityPolicySc && (s.security_policy_sc matches Some(o) && (o.passed || o.exempt)))
                || (id == CheckId::LicenseSc && (s.license_sc matches Some(o) && (o.passed || o.exempt)))
                || (id == CheckId::CiiBestPractices && (s.cii_best_practices matches Some(o) && (o.passed || o.exempt)))),
{
    lemma_maintenance_passing_in_order(s);
    assert forall|id: CheckId|
        #[trigger] selected_ids(s.passing()).contains(id) <==> ((id == CheckId::DependencyUpdateTool && (s.dependency_update_tool matches Some(o) && (o.passed || o.exempt)))
                || (id == CheckId::Maintained && (s.maintained matches Some(o) && (o.passed || o.exempt)))
                || (id == CheckId::SecurityPolicySc && (s.security_policy_sc matches Some(o) && (o.passed || o.exempt)))
                || (id == CheckId::LicenseSc && (s.license_sc matches Some(o) && (o.passed || o.exempt)))
                || (id == CheckId::CiiBestPractices && (s.cii_best_practices matches Some(o) && (o.passed || o.exempt)))) by {
        lemma_contains_check_if(CheckId::DependencyUpdateTool, (s.dependency_update_tool matches Some(o) && (o.passed || o.exempt)), id);
        lemma_contains_after(
            check_if(CheckId::DependencyUpdateTool, (s.dependency_update_tool matches Some(o) && (o.passed || o.exempt))),
            CheckId::Maintained,
            (s.maintained matches Some(o) && (o.passed || o.exempt)),
            id,
        );
        lemma_contains_after(
            check_if(CheckId::DependencyUpdateTool, (s.dependency_update_tool matches Some(o) && (o.passed || o.exempt)))
                + check_if(CheckId::Maintained, (s.maintained matches Some(o) && (o.passed || o.exempt))),
            CheckId::SecurityPolicySc,
            (s.security_policy_sc matches Some(o) && (o.passed || o.exempt)),
            id,
        );
        lemma_contains_after(
            check_if(CheckId::DependencyUpdateTool, (s.dependency_update_tool matches Some(o) && (o.passed || o.exempt)))
                + check_if(CheckId::Maintained, (s.maintained matches Some(o) && (o.passed || o.exempt)))
                + check_if(CheckId::SecurityPolicySc, (s.security_policy_sc matches Some(o) && (o.passed || o.exempt))),
            CheckId::LicenseSc,
            (s.license_sc matches Some(o) && (o.passed || o.exempt)),
            id,
        );
        lemma_contains_after(
            check_if(CheckId::DependencyUpdateTool, (s.dependency_update_tool matches Some(o) && (o.passed || o.exempt)))
                + check_if(CheckId::Maintained, (s.maintained matches Some(o) && (o.passed || o.exempt)))
                + check_if(CheckId::SecurityPolicySc, (s.security_policy_sc matches Some(o) && (o.passed || o.exempt)))
                + check_if(CheckId::LicenseSc, (s.license_sc matches Some(o) && (o.passed || o.exempt))),
            CheckId::CiiBestPractices,
            (s.cii_best_practices matches Some(o) && (o.passed || o.exempt)),
            id,
        );
    }
}

/// The checks a Maintenance section lists: as available, in field order, each check
/// whose own field holds an output; as passed or exempt, in field order, each
/// check whose own field holds an output that passed or is exempt. No other
/// field decides whether a check is listed.
pub proof fn maintenance_lists_checks_by_their_own_fields(s: Maintenance)
    ensures
        selected_ids(s.availability()) == check_if(CheckId::DependencyUpdateTool, s.dependency_update_tool is Some)
            + check_if(CheckId::Maintained, s.maintained is Some)
            + check_if(CheckId::SecurityPolicySc, s.security_policy_sc is Some)
            + check_if(CheckId::LicenseSc, s.license_sc is Some)
            + check_if(CheckId::CiiBestPractices, s.cii_best_practices is Some),
        selected_ids(s.passing()) == check_if(CheckId::DependencyUpdateTool, (s.dependency_update_tool matches Some(o) && (o.passed || o.exempt)))
            + check_if(CheckId::Maintained, (s.maintained matches Some(o) && (o.passed || o.exempt)))
            + check_if(CheckId::SecurityPolicySc, (s.security_policy_sc matches Some(o) && (o.passed || o.exempt)))
            + check_if(CheckId::LicenseSc, (s.license_sc matches Some(o) && (o.passed || o.exempt)))
            + check_if(CheckId::CiiBestPractices, (s.cii_best_practices matches Some(o) && (o.passed || o.exempt))),
        forall|id: CheckId|
            #[trigger] selected_ids(s.availability()).contains(id) <==> ((id == CheckId::DependencyUpdateTool && s.dependency_update_tool is Some)
                || (id == CheckId::Maintained && s.maintained is Some)
                || (id == CheckId::SecurityPolicySc && s.security_policy_sc is Some)
                || (id == CheckId::LicenseSc && s.license_sc is Some)
                || (id == CheckId::CiiBestPractices && s.cii_best_practices is Some)),
        forall|id: CheckId|
            #[trigger] selected_ids(s.passing()).contains(id) <==> ((id == CheckId::DependencyUpdateTool && (s.dependency_update_tool matches Some(o) && (o.passed || o.exempt)))
                || (id == CheckId::Maintained && (s.maintained matches Some(o) && (o.passed || o.exempt)))
                || (id == CheckId::SecurityPolicySc && (s.security_policy_sc matches Some(o) && (o.passed || o.exempt)))
                || (id == CheckId::LicenseSc && (s.license_sc matches Some(o) && (o.passed || o.exempt)))
                || (id == CheckId::CiiBestPractices && (s.cii_best_practices matches Some(o) && (o.passed || o.exempt)))),
{
    lemma_maintenance_available_in_order(s);
    lemma_maintenance_passing_in_order(s);
    lemma_maintenance_available_members(s);
    lemma_maintenance_passing_members(s);
}

/// In field order, the checks a ContinuousTesting section lists as available.
pub(crate) proof fn lemma_continuous_testing_available_in_order(s: ContinuousTesting)
    ensures
        selected_ids(s.availability()) == check_if(CheckId::CiTests, s.ci_tests is Some)
            + check_if(CheckId::Fuzzing, s.fuzzing is Some)
            + check_if(CheckId::Sast, s.sast is Some),
{
    let av = s.availability();
    lemma_selected_prefix(av, 0);
    lemma_selected_prefix(av, 3);
    lemma_selected_step(av, 1);
    lemma_selected_step(av, 2);
    lemma_selected_step(av, 3);
}

/// Which checks a ContinuousTesting section lists as available.
proof fn lemma_continuous_testing_available_members(s: ContinuousTesting)
    ensures
        forall|id: CheckId|
            #[trigger] selected_ids(s.availability()).contains(id) <==> ((id == CheckId::CiTests && s.ci_tests is Some)
                || (id == CheckId::Fuzzing && s.fuzzing is Some)
                || (id == CheckId::Sast && s.sast is Some)),
{
    lemma_continuous_testing_available_in_order(s);
    assert forall|id: CheckId|
        #[trigger] selected_ids(s.availability()).contains(id) <==> ((id == CheckId::CiTests && s.ci_tests is Some)
                || (id == CheckId::Fuzzing && s.fuzzing is Some)
                || (id == CheckId::Sast && s.sast is Some)) by {
        lemma_contains_check_if(CheckId::CiTests, s.ci_tests is Some, id);
        lemma_contains_after(
            check_if(CheckId::CiTests, s.ci_tests is Some),
            CheckId::Fuzzing,
            s.fuzzing is Some,
            id,
        );
        lemma_contains_after(
            check_if(CheckId::CiTests, s.ci_tests is Some)
                + check_if(CheckId::Fuzzing, s.fuzzing is Some),
            CheckId::Sast,
            s.sast is Some,
            id,
        );
    }
}

/// In field order, the checks a ContinuousTesting section lists as passed or exempt.
proof fn lemma_continuous_testing_passing_in_order(s: ContinuousTesting)
    ensures
        selected_ids(s.passing()) == check_if(CheckId::CiTests, (s.ci_tests matches Some(o) && (o.passed || o.exempt)))
            + check_if(CheckId::Fuzzing, (s.fuzzing matches Some(o) && (o.passed || o.exempt)))
            + check_if(CheckId::Sast, (s.sast matches Some(o) && (o.passed || o.exempt))),
{
    let pa = s.passing();
    lemma_selected_prefix(pa, 0);
    lemma_selected_prefix(pa, 3);
    lemma_selected_step(pa, 1);
    lemma_selected_step(pa, 2);
    lemma_selected_step(pa, 3);
}

/// Which checks a ContinuousTesting section lists as passed or exempt.
proof fn lemma_continuous_testing_passing_members(s: ContinuousTesting)
    ensures
        forall|id: CheckId|
            #[trigger] selected_ids(s.passing()).contains(id) <==> ((id == CheckId::CiTests && (s.ci_tests matches Some(o) && (o.passed || o.exempt)))
                || (id == CheckId::Fuzzing && (s.fuzzing matches Some(o) && (o.passed || o.exempt)))
                || (id == CheckId::Sast && (s.sast matches Some(o) && (o.passed || o.exempt)))),
{
    lemma_continuous_testing_passing_in_order(s);
    assert forall|id: CheckId|
        #[trigger] selected_ids(s.passing()).contains(id) <==> ((id == CheckId::CiTests && (s.ci_tests matches Some(o) && (o.passed || o.exempt)))
                || (id == CheckId::Fuzzing && (s.fuzzing matches Some(o) && (o.passed || o.exempt)))
                || (id == CheckId::Sast && (s.sast matches Some(o) && (o.passed || o.exempt)))) by {
        lemma_contains_check_if(CheckId::CiTests, (s.ci_tests matches Some(o) && (o.passed || o.exempt)), id);
        lemma_contains_after(
            check_if(CheckId::CiTests, (s.ci_tests matches Some(o) && (o.passed || o.exempt))),
            CheckId::Fuzzing,
            (s.fuzzing matches Some(o) && (o.passed || o.exempt)),
            id,
        );
        lemma_contains_after(
            check_if(CheckId::CiTests, (s.ci_tests matches Some(o) && (o.passed || o.exempt)))
                + check_if(CheckId::Fuzzing, (s.fuzzing matches Some(o) && (o.passed || o.exempt))),
            CheckId::Sast,
            (s.sast matches Some(o) && (o.passed || o.exempt)),
            id,
        );
    }
}

/// The checks a ContinuousTesting section lists: as available, in field order, each check
/// whose own field holds an output; as passed or exempt, in field order, each
/// check whose own field holds an output that passed or is exempt. No other
/// field decides whether a check is listed.
pub proof fn continuous_testing_lists_checks_by_their_own_fields(s: ContinuousTesting)
    ensures
        selected_ids(s.availability()) == check_if(CheckId::CiTests, s.ci_tests is Some)
            + check_if(CheckId::Fuzzing, s.fuzzing is Some)
            + check_if(CheckId::Sast, s.sast is Some),
        selected_ids(s.passing()) == check_if(CheckId::CiTests, (s.ci_tests matches Some(o) && (o.passed || o.exempt)))
            + check_if(CheckId::Fuzzing, (s.fuzzing matches Some(o) && (o.passed || o.exempt)))
            + check_if(CheckId::Sast, (s.sast matches Some(o) && (o.passed || o.exempt))),
        forall|id: CheckId|
            #[trigger] selected_ids(s.availability()).contains(id) <==> ((id == CheckId::CiTests && s.ci_tests is Some)
                || (id == CheckId::Fuzzing && s.fuzzing is Some)
                || (id == CheckId::Sast && s.sast is Some)),
        forall|id: CheckId|
            #[trigger] selected_ids(s.passing()).contains(id) <==> ((id == CheckId::CiTests && (s.ci_tests matches Some(o) && (o.passed || o.exempt)))
                || (id == CheckId::Fuzzing && (s.fuzzing matches Some(o) && (o.passed || o.exempt)))
                || (id == CheckId::Sast && (s.sast matches Some(o) && (o.passed || o.exempt)))),
{
    lemma_continuous_testing_available_in_order(s);
    lemma_continuous_testing_passing_in_order(s);
    lemma_continuous_testing_available_members(s);
    lemma_continuous_testing_passing_members(s);
}

/// In field order, the checks a SourceRisk section lists as available.
pub(crate) proof fn lemma_source_risk_available_in_order(s: SourceRisk)
    ensures
        selected_ids(s.availability()) == check_if(CheckId::BinaryArtifacts, s.binary_artifacts is Some)
            + check_if(CheckId::BranchProtection, s.branch_protection is Some)
            + check_if(CheckId::DangerousWorkflow, s.dangerous_workflow is Some)
            + check_if(CheckId::CodeReview, s.code_review is Some)
            + check_if(CheckId::ContributorsSc, s.contributors_sc is Some),
{
    let av = s.availability();
    lemma_selected_prefix(av, 0);
    lemma_selected_prefix(av, 5);
    lemma_selected_step(av, 1);
    lemma_selected_step(av, 2);
    lemma_selected_step(av, 3);
    lemma_selected_step(av, 4);
    lemma_selected_step(av, 5);
}

/// Which checks a SourceRisk section lists as available.
proof fn lemma_source_risk_available_members(s: SourceRisk)
    ensures
        forall|id: CheckId|
            #[trigger] selected_ids(s.availability()).contains(id) <==> ((id == CheckId::BinaryArtifacts && s.binary_artifacts is Some)
                || (id == CheckId::BranchProtection && s.branch_protection is Some)
                || (id == CheckId::DangerousWorkflow && s.dangerous_workflow is Some)
                || (id == CheckId::CodeReview && s.code_review is Some)
                || (id == CheckId::ContributorsSc && s.contributors_sc is Some)),
{
    lemma_source_risk_available_in_order(s);
    assert forall|id: CheckId|
        #[trigger] selected_ids(s.availability()).contains(id) <==> ((id == CheckId::BinaryArtifacts && s.binary_artifacts is Some)
                || (id == CheckId::BranchProtection && s.branch_protection is Some)
                || (id == CheckId::DangerousWorkflow && s.dangerous_workflow is Some)
                || (id == CheckId::CodeReview && s.code_review is Some)
                || (id == CheckId::ContributorsSc && s.contributors_sc is Some)) by {
        lemma_contains_check_if(CheckId::BinaryArtifacts, s.binary_artifacts is Some, id);
        lemma_contains_after(
            check_if(CheckId::BinaryArtifacts, s.binary_artifacts is Some),
            CheckId::BranchProtection,
            s.branch_protection is Some,
            id,
        );
        lemma_contains_after(
            check_if(CheckId::BinaryArtifacts, s.binary_artifacts is Some)
                + check_if(CheckId::BranchProtection, s.branch_protection is Some),
            CheckId::DangerousWorkflow,
            s.dangerous_workflow is Some,
            id,
        );
        lemma_contains_after(
            check_if(CheckId::BinaryArtifacts, s.binary_artifacts is Some)
                + check_if(CheckId::BranchProtection, s.branch_protection is Some)
                + check_if(CheckId::DangerousWorkflow, s.dangerous_workflow is Some),
            CheckId::CodeReview,
            s.code_review is Some,
            id,
        );
        lemma_contains_after(
            check_if(CheckId::BinaryArtifacts, s.binary_artifacts is Some)
                + check_if(CheckId::BranchProtection, s.branch_protection is Some)
                + check_if(CheckId::DangerousWorkflow, s.dangerous_workflow is Some)
                + check_if(CheckId::CodeReview, s.code_review is Some),
            CheckId::ContributorsSc,
            s.contributors_sc is Some,
            id,
        );
    }
}

/// In field order, the checks a SourceRisk section lists as passed or exempt.
proof fn lemma_source_risk_passing_in_order(s: SourceRisk)
    ensures
        selected_ids(s.passing()) == check_if(CheckId::BinaryArtifacts, (s.binary_artifacts matches Some(o) && (o.passed || o.exempt)))
            + check_if(CheckId::BranchProtection, (s.branch_protection matches Some(o) && (o.passed || o.exempt)))
            + check_if(CheckId::DangerousWorkflow, (s.dangerous_workflow matches Some(o) && (o.passed || o.exempt)))
            + check_if(CheckId::CodeReview, (s.code_review matches Some(o) && (o.passed || o.exempt)))
            + check_if(CheckId::ContributorsSc, (s.contributors_sc matches Some(o) && (o.passed || o.exempt))),
{
    let pa = s.passing();
    lemma_selected_prefix(pa, 0);
    lemma_selected_prefix(pa, 5);
    lemma_selected_step(pa, 1);
    lemma_selected_step(pa, 2);
    lemma_selected_step(pa, 3);
    lemma_selected_step(pa, 4);
    lemma_selected_step(pa, 5);
}

/// Which checks a SourceRisk section lists as passed or exempt.
proof fn lemma_source_risk_passing_members(s: SourceRisk)
    ensures
        forall|id: CheckId|
            #[trigger] selected_ids(s.passing()).contains(id) <==> ((id == CheckId::BinaryArtifacts && (s.binary_artifacts matches Some(o) && (o.passed || o.exempt)))
                || (id == CheckId::BranchProtection && (s.branch_protection matches Some(o) && (o.passed || o.exempt)))
                || (id == CheckId::DangerousWorkflow && (s.dangerous_workflow matches Some(o) && (o.passed || o.exempt)))
                || (id == CheckId::CodeReview && (s.code_review matches Some(o) && (o.passed || o.exempt)))
                || (id == CheckId::ContributorsSc && (s.contributors_sc matches Some(o) && (o.passed || o.exempt)))),
{
    lemma_source_risk_passing_in_order(s);
    assert forall|id: CheckId|
        #[trigger] selected_ids(s.passing()).contains(id) <==> ((id == CheckId::BinaryArtifacts && (s.binary_artifacts matches Some(o) && (o.passed || o.exempt)))
                || (id == CheckId::BranchProtection && (s.branch_protection matches Some(o) && (o.passed || o.exempt)))
                || (id == CheckId::DangerousWorkflow && (s.dangerous_workflow matches Some(o) && (o.passed || o.exempt)))
                || (id == CheckId::CodeReview && (s.code_review matches Some(o) && (o.passed || o.exempt)))
                || (id == CheckId::ContributorsSc && (s.contributors_sc matches Some(o) && (o.passed || o.exempt)))) by {
        lemma_contains_check_if(CheckId::BinaryArtifacts, (s.binary_artifacts matches Some(o) && (o.passed || o.exempt)), id);
        lemma_contains_after(
            check_if(CheckId::BinaryArtifacts, (s.binary_artifacts matches Some(o) && (o.passed || o.exempt))),
            CheckId::BranchProtection,
            (s.branch_protection matches Some(o) && (o.passed || o.exempt)),
            id,
        );
        lemma_contains_after(
            check_if(CheckId::BinaryArtifacts, (s.binary_artifacts matches Some(o) && (o.passed || o.exempt)))
                + check_if(CheckId::BranchProtection, (s.branch_protection matches Some(o) && (o.passed || o.exempt))),
            CheckId::DangerousWorkflow,
            (s.dangerous_workflow matches Some(o) && (o.passed || o.exempt)),
            id,
        );
        lemma_contains_after(
            check_if(CheckId::BinaryArtifacts, (s.binary_artifacts matches Some(o) && (o.passed || o.exempt)))
                + check_if(CheckId::BranchProtection, (s.branch_protection matches Some(o) && (o.passed || o.exempt)))
                + check_if(CheckId::DangerousWorkflow, (s.dangerous_workflow matches Some(o) && (o.passed || o.exempt))),
            CheckId::CodeReview,
            (s.code_review matches Some(o) && (o.passed || o.exempt)),
            id,
        );
        lemma_contains_after(
            check_if(CheckId::BinaryArtifacts, (s.binary_artifacts matches Some(o) && (o.passed || o.exempt)))
                + check_if(CheckId::BranchProtection, (s.branch_protection matches Some(o) && (o.passed || o.exempt)))
                + check_if(CheckId::DangerousWorkflow, (s.dangerous_workflow matches Some(o) && (o.passed || o.exempt)))
                + check_if(CheckId::CodeReview, (s.code_review matches Some(o) && (o.passed || o.exempt))),
            CheckId::ContributorsSc,
            (s.contributors_sc matches Some(o) && (o.passed || o.exempt)),
            id,
        );
    }
}

/// The checks a SourceRisk section lists: as available, in field order, each check
/// whose own field holds an output; as passed or exempt, in field order, each
/// check whose own field holds an output that passed or is exempt. No other
/// field decides whether a check is listed.
pub proof fn source_risk_lists_checks_by_their_own_fields(s: SourceRisk)
    ensures
        selected_ids(s.availability()) == check_if(CheckId::BinaryArtifacts, s.binary_artifacts is Some)
            + check_if(CheckId::BranchProtection, s.branch_protection is Some)
            + check_if(CheckId::DangerousWorkflow, s.dangerous_workflow is Some)
            + check_if(CheckId::CodeReview, s.code_review is Some)
            + check_if(CheckId::ContributorsSc, s.contributors_sc is Some),
        selected_ids(s.passing()) == check_if(CheckId::BinaryArtifacts, (s.binary_artifacts matches Some(o) && (o.passed || o.exempt)))
            + check_if(CheckId::BranchProtection, (s.branch_protection matches Some(o) && (o.passed || o.exempt)))
            + check_if(CheckId::DangerousWorkflow, (s.dangerous_workflow matches Some(o) && (o.passed || o.exempt)))
            + check_if(CheckId::CodeReview, (s.code_review matches Some(o) && (o.passed || o.exempt)))
            + check_if(CheckId::ContributorsSc, (s.contributors_sc matches Some(o) && (o.passed || o.exempt))),
        forall|id: CheckId|
            #[trigger] selected_ids(s.availability()).contains(id) <==> ((id == CheckId::BinaryArtifacts && s.binary_artifacts is Some)
                || (id == CheckId::BranchProtection && s.branch_protection is Some)
                || (id == CheckId::DangerousWorkflow && s.dangerous_workflow is Some)
                || (id == CheckId::CodeReview && s.code_review is Some)
                || (id == CheckId::ContributorsSc && s.contributors_sc is Some)),
        forall|id: CheckId|
            #[trigger] selected_ids(s.passing()).contains(id) <==> ((id == CheckId::BinaryArtifacts && (s.binary_artifacts matches Some(o) && (o.passed || o.exempt)))
                || (id == CheckId::BranchProtection && (s.branch_protection matches Some(o) && (o.passed || o.exempt)))
                || (id == CheckId::DangerousWorkflow && (s.dangerous_workflow matches Some(o) && (o.passed || o.exempt)))
                || (id == CheckId::CodeReview && (s.code_review matches Some(o) && (o.passed || o.exempt)))
                || (id == CheckId::ContributorsSc && (s.contributors_sc matches Some(o) && (o.passed || o.exempt)))),
{
    lemma_source_risk_available_in_order(s);
    lemma_source_risk_passing_in_order(s);
    lemma_source_risk_available_members(s);
    lemma_source_risk_passing_members(s);
}

/// In field order, the checks a BuildRisk section lists as available.
pub(crate) proof fn lemma_build_risk_available_in_order(s: BuildRisk)
    ensures
        selected_ids(s.availability()) == check_if(CheckId::PinnedDependencies, s.pinned_dependencies is Some)
            + check_if(CheckId::TokenPermissions, s.token_permissions is Some)
            + check_if(CheckId::Packaging, s.packaging is Some)
            + check_if(CheckId::SignedReleases, s.signed_releases is Some),
{
    let av = s.availability();
    lemma_selected_prefix(av, 0);
    lemma_selected_prefix(av, 4);
    lemma_selected_step(av, 1);
    lemma_selected_step(av, 2);
    lemma_selected_step(av, 3);
    lemma_selected_step(av, 4);
}

/// Which checks a BuildRisk section lists as available.
proof fn lemma_build_risk_available_members(s: BuildRisk)
    ensures
        forall|id: CheckId|
            #[trigger] selected_ids(s.availability()).contains(id) <==> ((id == CheckId::PinnedDependencies && s.pinned_dependencies is Some)
                || (id == CheckId::TokenPermissions && s.token_permissions is Some)
                || (id == CheckId::Packaging && s.packaging is Some)
                || (id == CheckId::SignedReleases && s.signed_releases is Some)),
{
    lemma_build_risk_available_in_order(s);
    assert forall|id: CheckId|
        #[trigger] selected_ids(s.availability()).contains(id) <==> ((id == CheckId::PinnedDependencies && s.pinned_dependencies is Some)
                || (id == CheckId::TokenPermissions && s.token_permissions is Some)
                || (id == CheckId::Packaging && s.packaging is Some)
                || (id == CheckId::SignedReleases && s.signed_releases is Some)) by {
        lemma_contains_check_if(CheckId::PinnedDependencies, s.pinned_dependencies is Some, id);
        lemma_contains_after(
            check_if(CheckId::PinnedDependencies, s.pinned_dependencies is Some),
            CheckId::TokenPermissions,
            s.token_permissions is Some,
            id,
        );
        lemma_contains_after(
            check_if(CheckId::PinnedDependencies, s.pinned_dependencies is Some)
                + check_if(CheckId::TokenPermissions, s.token_permissions is Some),
            CheckId::Packaging,
            s.packaging is Some,
            id,
        );
        lemma_contains_after(
            check_if(CheckId::PinnedDependencies, s.pinned_dependencies is Some)
                + check_if(CheckId::TokenPermissions, s.token_permissions is Some)
                + check_if(CheckId::Packaging, s.packaging is Some),
            CheckId::SignedReleases,
            s.signed_releases is Some,
            id,
        );
    }
}

/// In field order, the checks a BuildRisk section lists as passed or exempt.
proof fn lemma_build_risk_passing_in_order(s: BuildRisk)
    ensures
        selected_ids(s.passing()) == check_if(CheckId::PinnedDependencies, (s.pinned_dependencies matches Some(o) && (o.passed || o.exempt)))
            + check_if(CheckId::TokenPermissions, (s.token_permissions matches Some(o) && (o.passed || o.exempt)))
            + check_if(CheckId::Packaging, (s.packaging matches Some(o) && (o.passed || o.exempt)))
            + check_if(CheckId::SignedReleases, (s.signed_releases matches Some(o) && (o.passed || o.exempt))),
{
    let pa = s.passing();
    lemma_selected_prefix(pa, 0);
    lemma_selected_prefix(pa, 4);
    lemma_selected_step(pa, 1);
    lemma_selected_step(pa, 2);
    lemma_selected_step(pa, 3);
    lemma_selected_step(pa, 4);
}

/// Which checks a BuildRisk section lists as passed or exempt.
proof fn lemma_build_risk_passing_members(s: BuildRisk)
    ensures
        forall|id: CheckId|
            #[trigger] selected_ids(s.passing()).contains(id) <==> ((id == CheckId::PinnedDependencies && (s.pinned_dependencies matches Some(o) && (o.passed || o.exempt)))
                || (id == CheckId::TokenPermissions && (s.token_permissions matches Some(o) && (o.passed || o.exempt)))
                || (id == CheckId::Packaging && (s.packaging matches Some(o) && (o.passed || o.exempt)))
                || (id == CheckId::SignedReleases && (s.signed_releases matches Some(o) && (o.passed || o.exempt)))),
{
    lemma_build_risk_passing_in_order(s);
    assert forall|id: CheckId|
        #[trigger] selected_ids(s.passing()).contains(id) <==> ((id == CheckId::PinnedDependencies && (s.pinned_dependencies matches Some(o) && (o.passed || o.exempt)))
                || (id == CheckId::TokenPermissions && (s.token_permissions matches Some(o) && (o.passed || o.exempt)))
                || (id == CheckId::Packaging && (s.packaging matches Some(o) && (o.passed || o.exempt)))
                || (id == CheckId::SignedReleases && (s.signed_releases matches Some(o) && (o.passed || o.exempt)))) by {
        lemma_contains_check_if(CheckId::PinnedDependencies, (s.pinned_dependencies matches Some(o) && (o.passed || o.exempt)), id);
        lemma_contains_after(
            check_if(CheckId::PinnedDependencies, (s.pinned_dependencies matches Some(o) && (o.passed || o.exempt))),
            CheckId::TokenPermissions,
            (s.token_permissions matches Some(o) && (o.passed || o.exempt)),
            id,
        );
        lemma_contains_after(
            check_if(CheckId::PinnedDependencies, (s.pinned_dependencies matches Some(o) && (o.passed || o.exempt)))
                + check_if(CheckId::TokenPermissions, (s.token_permissions matches Some(o) && (o.passed || o.exempt))),
            CheckId::Packaging,
            (s.packaging matches Some(o) && (o.passed || o.exempt)),
            id,
        );
        lemma_contains_after(
            check_if(CheckId::PinnedDependencies, (s.pinned_dependencies matches Some(o) && (o.passed || o.exempt)))
                + check_if(CheckId::TokenPermissions, (s.token_permissions matches Some(o) && (o.passed || o.exempt)))
                + check_if(CheckId::Packaging, (s.packaging matches Some(o) && (o.passed || o.exempt))),
            CheckId::SignedReleases,
            (s.signed_releases matches Some(o) && (o.passed || o.exempt)),
            id,
        );
    }
}

/// The checks a BuildRisk section lists: as available, in field order, each check
/// whose own field holds an output; as passed or exempt, in field order, each
/// check whose own field holds an output that passed or is exempt. No other
/// field decides whether a check is listed.
pub proof fn build_risk_lists_checks_by_their_own_fields(s: BuildRisk)
    ensures
        selected_ids(s.availability()) == check_if(CheckId::PinnedDependencies, s.pinned_dependencies is Some)
            + check_if(CheckId::TokenPermissions, s.token_permissions is Some)
            + check_if(CheckId::Packaging, s.packaging is Some)
            + check_if(CheckId::SignedReleases, s.signed_releases is Some),
        selected_ids(s.passing()) == check_if(CheckId::PinnedDependencies, (s.pinned_dependencies matches Some(o) && (o.passed || o.exempt)))
            + check_if(CheckId::TokenPermissions, (s.token_permissions matches Some(o) && (o.passed || o.exempt)))
            + check_if(CheckId::Packaging, (s.packaging matches Some(o) && (o.passed || o.exempt)))
            + check_if(CheckId::SignedReleases, (s.signed_releases matches Some(o) && (o.passed || o.exempt))),
        forall|id: CheckId|
            #[trigger] selected_ids(s.availability()).contains(id) <==> ((id == CheckId::PinnedDependencies && s.pinned_dependencies is Some)
                || (id == CheckId::TokenPermissions && s.token_permissions is Some)
                || (id == CheckId::Packaging && s.packaging is Some)
                || (id == CheckId::SignedReleases && s.signed_releases is Some)),
        forall|id: CheckId|
            #[trigger] selected_ids(s.passing()).contains(id) <==> ((id == CheckId::PinnedDependencies && (s.pinned_dependencies matches Some(o) && (o.passed || o.exempt)))
                || (id == CheckId::TokenPermissions && (s.token_permissions matches Some(o) && (o.passed || o.exempt)))
                || (id == CheckId::Packaging && (s.packaging matches Some(o) && (o.passed || o.exempt)))
                || (id == CheckId::SignedReleases && (s.signed_releases matches Some(o) && (o.passed || o.exempt)))),
{
    lemma_build_risk_available_in_order(s);
    lemma_build_risk_passing_in_order(s);
    lemma_build_risk_available_members(s);
    lemma_build_risk_passing_members(s);
}

/// In field order, the checks a Holistic section lists as available.
pub(crate) proof fn lemma_holistic_available_in_order(s: Holistic)
    ensures
        selected_ids(s.availability()) == check_if(CheckId::Maintained, s.maintained is Some)
            + check_if(CheckId::ContributorsSc, s.contributors_sc is Some)
            + check_if(CheckId::CiiBestPractices, s.cii_best_practices is Some)
            + check_if(CheckId::SecurityPolicySc, s.security_policy_sc is Some)
            + check_if(CheckId::LicenseSc, s.license_sc is Some),
{
    let av = s.availability();
    lemma_selected_prefix(av, 0);
    lemma_selected_prefix(av, 5);
    lemma_selected_step(av, 1);
    lemma_selected_step(av, 2);
    lemma_selected_step(av, 3);
    lemma_selected_step(av, 4);
    lemma_selected_step(av, 5);
}

/// Which checks a Holistic section lists as available.
proof fn lemma_holistic_available_members(s: Holistic)
    ensures
        forall|id: CheckId|
            #[trigger] selected_ids(s.availability()).contains(id) <==> ((id == CheckId::Maintained && s.maintained is Some)
                || (id == CheckId::ContributorsSc && s.contributors_sc is Some)
                || (id == CheckId::CiiBestPractices && s.cii_best_practices is Some)
                || (id == CheckId::SecurityPolicySc && s.security_policy_sc is Some)
                || (id == CheckId::LicenseSc && s.license_sc is Some)),
{
    lemma_holistic_available_in_order(s);
    assert forall|id: CheckId|
        #[trigger] selected_ids(s.availability()).contains(id) <==> ((id == CheckId::Maintained && s.maintained is Some)
                || (id == CheckId::ContributorsSc && s.contributors_sc is Some)
                || (id == CheckId::CiiBestPractices && s.cii_best_practices is Some)
                || (id == CheckId::SecurityPolicySc && s.security_policy_sc is Some)
                || (id == CheckId::LicenseSc && s.license_sc is Some)) by {
        lemma_contains_check_if(CheckId::Maintained, s.maintained is Some, id);
        lemma_contains_after(
            check_if(CheckId::Maintained, s.maintained is Some),
            CheckId::ContributorsSc,
            s.contributors_sc is Some,
            id,
        );
        lemma_contains_after(
            check_if(CheckId::Maintained, s.maintained is Some)
                + check_if(CheckId::ContributorsSc, s.contributors_sc is Some),
            CheckId::CiiBestPractices,
            s.cii_best_practices is Some,
            id,
        );
        lemma_contains_after(
            check_if(CheckId::Maintained, s.maintained is Some)
                + check_if(CheckId::ContributorsSc, s.contributors_sc is Some)
                + check_if(CheckId::CiiBestPractices, s.cii_best_practices is Some),
            CheckId::SecurityPolicySc,
            s.security_policy_sc is Some,
            id,
        );
        lemma_contains_after(
            check_if(CheckId::Maintained, s.maintained is Some)
                + check_if(CheckId::ContributorsSc, s.contributors_sc is Some)
                + check_if(CheckId::CiiBestPractices, s.cii_best_practices is Some)
                + check_if(CheckId::SecurityPolicySc, s.security_policy_sc is Some),
            CheckId::LicenseSc,
            s.license_sc is Some,
            id,
        );
    }
}

/// In field order, the checks a Holistic section lists as passed or exempt.
proof fn lemma_holistic_passing_in_order(s: Holistic)
    ensures
        selected_ids(s.passing()) == check_if(CheckId::Maintained, (s.maintained matches Some(o) && (o.passed || o.exempt)))
            + check_if(CheckId::ContributorsSc, (s.contributors_sc matches Some(o) && (o.passed || o.exempt)))
            + check_if(CheckId::CiiBestPractices, (s.cii_best_practices matches Some(o) && (o.passed || o.exempt)))
            + check_if(CheckId::SecurityPolicySc, (s.security_policy_sc matches Some(o) && (o.passed || o.exempt)))
            + check_if(CheckId::LicenseSc, (s.license_sc matches Some(o) && (o.passed || o.exempt))),
{
    let pa = s.passing();
    lemma_selected_prefix(pa, 0);
    lemma_selected_prefix(pa, 5);
    lemma_selected_step(pa, 1);
    lemma_selected_step(pa, 2);
    lemma_selected_step(pa, 3);
    lemma_selected_step(pa, 4);
    lemma_selected_step(pa, 5);
}

/// Which checks a Holistic section lists as passed or exempt.
proof fn lemma_holistic_passing_members(s: Holistic)
    ensures
        forall|id: CheckId|
            #[trigger] selected_ids(s.passing()).contains(id) <==> ((id == CheckId::Maintained && (s.maintained matches Some(o) && (o.passed || o.exempt)))
                || (id == CheckId::ContributorsSc && (s.contributors_sc matches Some(o) && (o.passed || o.exempt)))
                || (id == CheckId::CiiBestPractices && (s.cii_best_practices matches Some(o) && (o.passed || o.exempt)))
                || (id == CheckId::SecurityPolicySc && (s.security_policy_sc matches Some(o) && (o.passed || o.exempt)))
                || (id == CheckId::LicenseSc && (s.license_sc matches Some(o) && (o.passed || o.exempt)))),
{
    lemma_holistic_passing_in_order(s);
    assert forall|id: CheckId|
        #[trigger] selected_ids(s.passing()).contains(id) <==> ((id == CheckId::Maintained && (s.maintained matches Some(o) && (o.passed || o.exempt)))
                || (id == CheckId::ContributorsSc && (s.contributors_sc matches Some(o) && (o.passed || o.exempt)))
                || (id == CheckId::CiiBestPractices && (s.cii_best_practices matches Some(o) && (o.passed || o.exempt)))
                || (id == CheckId::SecurityPolicySc && (s.security_policy_sc matches Some(o) && (o.passed || o.exempt)))
                || (id == CheckId::LicenseSc && (s.license_sc matches Some(o) && (o.passed || o.exempt)))) by {
        lemma_contains_check_if(CheckId::Maintained, (s.maintained matches Some(o) && (o.passed || o.exempt)), id);
        lemma_contains_after(
            check_if(CheckId::Maintained, (s.maintained matches Some(o) && (o.passed || o.exempt))),
            CheckId::ContributorsSc,
            (s.contributors_sc matches Some(o) && (o.passed || o.exempt)),
            id,
        );
        lemma_contains_after(
            check_if(CheckId::Maintained, (s.maintained matches Some(o) && (o.passed || o.exempt)))
                + check_if(CheckId::ContributorsSc, (s.contributors_sc matches Some(o) && (o.passed || o.exempt))),
            CheckId::CiiBestPractices,
            (s.cii_best_practices matches Some(o) && (o.passed || o.exempt)),
            id,
        );
        lemma_contains_after(
            check_if(CheckId::Maintained, (s.maintained matches Some(o) && (o.passed || o.exempt)))
                + check_if(CheckId::ContributorsSc, (s.contributors_sc matches Some(o) && (o.passed || o.exempt)))
                + check_if(CheckId::CiiBestPractices, (s.cii_best_practices matches Some(o) && (o.passed || o.exempt))),
            CheckId::SecurityPolicySc,
            (s.security_policy_sc matches Some(o) && (o.passed || o.exempt)),
            id,
        );
        lemma_contains_after(
            check_if(CheckId::Maintained, (s.maintained matches Some(o) && (o.passed || o.exempt)))
                + check_if(CheckId::ContributorsSc, (s.contributors_sc matches Some(o) && (o.passed || o.exempt)))
                + check_if(CheckId::CiiBestPractices, (s.cii_best_practices matches Some(o) && (o.passed || o.exempt)))
                + check_if(CheckId::SecurityPolicySc, (s.security_policy_sc matches Some(o) && (o.passed || o.exempt))),
            CheckId::LicenseSc,
            (s.license_sc matches Some(o) && (o.passed || o.exempt)),
            id,
        );
    }
}

/// The checks a Holistic section lists: as available, in field order, each check
/// whose own field holds an output; as passed or exempt, in field order, each
/// check whose own field holds an output that passed or is exempt. No other
/// field decides whether a check is listed.
pub proof fn holistic_lists_checks_by_their_own_fields(s: Holistic)
    ensures
        selected_ids(s.availability()) == check_if(CheckId::Maintained, s.maintained is Some)
            + check_if(CheckId::ContributorsSc, s.contributors_sc is Some)
            + check_if(CheckId::CiiBestPractices, s.cii_best_practices is Some)
            + check_if(CheckId::SecurityPolicySc, s.security_policy_sc is Some)
            + check_if(CheckId::LicenseSc, s.license_sc is Some),
        selected_ids(s.passing()) == check_if(CheckId::Maintained, (s.maintained matches Some(o) && (o.passed || o.exempt)))
            + check_if(CheckId::ContributorsSc, (s.contributors_sc matches Some(o) && (o.passed || o.exempt)))
            + check_if(CheckId::CiiBestPractices, (s.cii_best_practices matches Some(o) && (o.passed || o.exempt)))
            + check_if(CheckId::SecurityPolicySc, (s.security_policy_sc matches Some(o) && (o.passed || o.exempt)))
            + check_if(CheckId::LicenseSc, (s.license_sc matches Some(o) && (o.passed || o.exempt))),
        forall|id: CheckId|
            #[trigger] selected_ids(s.availability()).contains(id) <==> ((id == CheckId::Maintained && s.maintained is Some)
                || (id == CheckId::ContributorsSc && s.contributors_sc is Some)
                || (id == CheckId::CiiBestPractices && s.cii_best_practices is Some)
                || (id == CheckId::SecurityPolicySc && s.security_policy_sc is Some)
                || (id == CheckId::LicenseSc && s.license_sc is Some)),
        forall|id: CheckId|
            #[trigger] selected_ids(s.passing()).contains(id) <==> ((id == CheckId::Maintained && (s.maintained matches Some(o) && (o.passed || o.exempt)))
                || (id == CheckId::ContributorsSc && (s.contributors_sc matches Some(o) && (o.passed || o.exempt)))
                || (id == CheckId::CiiBestPractices && (s.cii_best_practices matches Some(o) && (o.passed || o.exempt)))
                || (id == CheckId::SecurityPolicySc && (s.security_policy_sc matches Some(o) && (o.passed || o.exempt)))
                || (id == CheckId::LicenseSc && (s.license_sc matches Some(o) && (o.passed || o.exempt)))),
{
    lemma_holistic_available_in_order(s);
    lemma_holistic_passing_in_order(s);
    lemma_holistic_available_members(s);
    lemma_holistic_passing_members(s);
}

/// In field order, the checks a SourceCode section lists as available.
pub(crate) proof fn lemma_source_code_available_in_order(s: SourceCode)
    ensures
        selected_ids(s.availability()) == check_if(CheckId::CodeReview, s.code_review is Some)
            + check_if(CheckId::BinaryArtifacts, s.binary_artifacts is Some)
            + check_if(CheckId::DangerousWorkflow, s.dangerous_workflow is Some)
            + check_if(CheckId::Sast, s.sast is Some)
            + check_if(CheckId::Vulnerabilities, s.vulnerabilities is Some),
{
    let av = s.availability();
    lemma_selected_prefix(av, 0);
    lemma_selected_prefix(av, 5);
    lemma_selected_step(av, 1);
    lemma_selected_step(av, 2);
    lemma_selected_step(av, 3);
    lemma_selected_step(av, 4);
    lemma_selected_step(av, 5);
}

/// Which checks a SourceCode section lists as available.
proof fn lemma_source_code_available_members(s: SourceCode)
    ensures
        forall|id: CheckId|
            #[trigger] selected_ids(s.availability()).contains(id) <==> ((id == CheckId::CodeReview && s.code_review is Some)
                || (id == CheckId::BinaryArtifacts && s.binary_artifacts is Some)
                || (id == CheckId::DangerousWorkflow && s.dangerous_workflow is Some)
                || (id == CheckId::Sast && s.sast is Some)
                || (id == CheckId::Vulnerabilities && s.vulnerabilities is Some)),
{
    lemma_source_code_available_in_order(s);
    assert forall|id: CheckId|
        #[trigger] selected_ids(s.availability()).contains(id) <==> ((id == CheckId::CodeReview && s.code_review is Some)
                || (id == CheckId::BinaryArtifacts && s.binary_artifacts is Some)
                || (id == CheckId::DangerousWorkflow && s.dangerous_workflow is Some)
                || (id == CheckId::Sast && s.sast is Some)
                || (id == CheckId::Vulnerabilities && s.vulnerabilities is Some)) by {
        lemma_contains_check_if(CheckId::CodeReview, s.code_review is Some, id);
        lemma_contains_after(
            check_if(CheckId::CodeReview, s.code_review is Some),
            CheckId::BinaryArtifacts,
            s.binary_artifacts is Some,
            id,
        );
        lemma_contains_after(
            check_if(CheckId::CodeReview, s.code_review is Some)
                + check_if(CheckId::BinaryArtifacts, s.binary_artifacts is Some),
            CheckId::DangerousWorkflow,
            s.dangerous_workflow is Some,
            id,
        );
        lemma_contains_after(
            check_if(CheckId::CodeReview, s.code_review is Some)
                + check_if(CheckId::BinaryArtifacts, s.binary_artifacts is Some)
                + check_if(CheckId::DangerousWorkflow, s.dangerous_workflow is Some),
            CheckId::Sast,
            s.sast is Some,
            id,
        );
        lemma_contains_after(
            check_if(CheckId::CodeReview, s.code_review is Some)
                + check_if(CheckId::BinaryArtifacts, s.binary_artifacts is Some)
                + check_if(CheckId::DangerousWorkflow, s.dangerous_workflow is Some)
                + check_if(CheckId::Sast, s.sast is Some),
            CheckId::Vulnerabilities,
            s.vulnerabilities is Some,
            id,
        );
    }
}

/// In field order, the checks a SourceCode section lists as passed or exempt.
proof fn lemma_source_code_passing_in_order(s: SourceCode)
    ensures
        selected_ids(s.passing()) == check_if(CheckId::CodeReview, (s.code_review matches Some(o) && (o.passed || o.exempt)))
            + check_if(CheckId::BinaryArtifacts, (s.binary_artifacts matches Some(o) && (o.passed || o.exempt)))
            + check_if(CheckId::DangerousWorkflow, (s.dangerous_workflow matches Some(o) && (o.passed || o.exempt)))
            + check_if(CheckId::Sast, (s.sast matches Some(o) && (o.passed || o.exempt)))
            + check_if(CheckId::Vulnerabilities, (s.vulnerabilities matches Some(o) && (o.passed || o.exempt))),
{
    let pa = s.passing();
    lemma_selected_prefix(pa, 0);
    lemma_selected_prefix(pa, 5);
    lemma_selected_step(pa, 1);
    lemma_selected_step(pa, 2);
    lemma_selected_step(pa, 3);
    lemma_selected_step(pa, 4);
    lemma_selected_step(pa, 5);
}

/// Which checks a SourceCode section lists as passed or exempt.
proof fn lemma_source_code_passing_members(s: SourceCode)
    ensures
        forall|id: CheckId|
            #[trigger] selected_ids(s.passing()).contains(id) <==> ((id == CheckId::CodeReview && (s.code_review matches Some(o) && (o.passed || o.exempt)))
                || (id == CheckId::BinaryArtifacts && (s.binary_artifacts matches Some(o) && (o.passed || o.exempt)))
                || (id == CheckId::DangerousWorkflow && (s.dangerous_workflow matches Some(o) && (o.passed || o.exempt)))
                || (id == CheckId::Sast && (s.sast matches Some(o) && (o.passed || o.exempt)))
                || (id == CheckId::Vulnerabilities && (s.vulnerabilities matches Some(o) && (o.passed || o.exempt)))),
{
    lemma_source_code_passing_in_order(s);
    assert forall|id: CheckId|
        #[trigger] selected_ids(s.passing()).contains(id) <==> ((id == CheckId::CodeReview && (s.code_review matches Some(o) && (o.passed || o.exempt)))
                || (id == CheckId::BinaryArtifacts && (s.binary_artifacts matches Some(o) && (o.passed || o.exempt)))
                || (id == CheckId::DangerousWorkflow && (s.dangerous_workflow matches Some(o) && (o.passed || o.exempt)))
                || (id == CheckId::Sast && (s.sast matches Some(o) && (o.passed || o.exempt)))
                || (id == CheckId::Vulnerabilities && (s.vulnerabilities matches Some(o) && (o.passed || o.exempt)))) by {
        lemma_contains_check_if(CheckId::CodeReview, (s.code_review matches Some(o) && (o.passed || o.exempt)), id);
        lemma_contains_after(
            check_if(CheckId::CodeReview, (s.code_review matches Some(o) && (o.passed || o.exempt))),
            CheckId::BinaryArtifacts,
            (s.binary_artifacts matches Some(o) && (o.passed || o.exempt)),
            id,
        );
        lemma_contains_after(
            check_if(CheckId::CodeReview, (s.code_review matches Some(o) && (o.passed || o.exempt)))
                + check_if(CheckId::BinaryArtifacts, (s.binary_artifacts matches Some(o) && (o.passed || o.exempt))),
            CheckId::DangerousWorkflow,
            (s.dangerous_workflow matches Some(o) && (o.passed || o.exempt)),
            id,
        );
        lemma_contains_after(
            check_if(CheckId::CodeReview, (s.code_review matches Some(o) && (o.passed || o.exempt)))
                + check_if(CheckId::BinaryArtifacts, (s.binary_artifacts matches Some(o) && (o.passed || o.exempt)))
                + check_if(CheckId::DangerousWorkflow, (s.dangerous_workflow matches Some(o) && (o.passed || o.exempt))),
            CheckId::Sast,
            (s.sast matches Some(o) && (o.passed || o.exempt)),
            id,
        );
        lemma_contains_after(
            check_if(CheckId::CodeReview, (s.code_review matches Some(o) && (o.passed || o.exempt)))
                + check_if(CheckId::BinaryArtifacts, (s.binary_artifacts matches Some(o) && (o.passed || o.exempt)))
                + check_if(CheckId::DangerousWorkflow, (s.dangerous_workflow matches Some(o) && (o.passed || o.exempt)))
                + check_if(CheckId::Sast, (s.sast matches Some(o) && (o.passed || o.exempt))),
            CheckId::Vulnerabilities,
            (s.vulnerabilities matches Some(o) && (o.passed || o.exempt)),
            id,
        );
    }
}

/// The checks a SourceCode section lists: as available, in field order, each check
/// whose own field holds an output; as passed or exempt, in field order, each
/// check whose own field holds an output that passed or is exempt. No other
/// field decides whether a check is listed.
pub proof fn source_code_lists_checks_by_their_own_fields(s: SourceCode)
    ensures
        selected_ids(s.availability()) == check_if(CheckId::CodeReview, s.code_review is Some)
            + check_if(CheckId::BinaryArtifacts, s.binary_artifacts is Some)
            + check_if(CheckId::DangerousWorkflow, s.dangerous_workflow is Some)
            + check_if(CheckId::Sast, s.sast is Some)
            + check_if(CheckId::Vulnerabilities, s.vulnerabilities is Some),
        selected_ids(s.passing()) == check_if(CheckId::CodeReview, (s.code_review matches Some(o) && (o.passed || o.exempt)))
            + check_if(CheckId::BinaryArtifacts, (s.binary_artifacts matches Some(o) && (o.passed || o.exempt)))
            + check_if(CheckId::DangerousWorkflow, (s.dangerous_workflow matches Some(o) && (o.passed || o.exempt)))
            + check_if(CheckId::Sast, (s.sast matches Some(o) && (o.passed || o.exempt)))
            + check_if(CheckId::Vulnerabilities, (s.vulnerabilities matches Some(o) && (o.passed || o.exempt))),
        forall|id: CheckId|
            #[trigger] selected_ids(s.availability()).contains(id) <==> ((id == CheckId::CodeReview && s.code_review is Some)
                || (id == CheckId::BinaryArtifacts && s.binary_artifacts is Some)
                || (id == CheckId::DangerousWorkflow && s.dangerous_workflow is Some)
                || (id == CheckId::Sast && s.sast is Some)
                || (id == CheckId::Vulnerabilities && s.vulnerabilities is Some)),
        forall|id: CheckId|
            #[trigger] selected_ids(s.passing()).contains(id) <==> ((id == CheckId::CodeReview && (s.code_review matches Some(o) && (o.passed || o.exempt)))
                || (id == CheckId::BinaryArtifacts && (s.binary_artifacts matches Some(o) && (o.passed || o.exempt)))
                || (id == CheckId::DangerousWorkflow && (s.dangerous_workflow matches Some(o) && (o.passed || o.exempt)))
                || (id == CheckId::Sast && (s.sast matches Some(o) && (o.passed || o.exempt)))
                || (id == CheckId::Vulnerabilities && (s.vulnerabilities matches Some(o) && (o.passed || o.exempt)))),
{
    lemma_source_code_available_in_order(s);
    lemma_source_code_passing_in_order(s);
    lemma_source_code_available_members(s);
    lemma_source_code_passing_members(s);
}

/// In field order, the checks a BuildProcess section lists as available.
pub(crate) proof fn lemma_build_process_available_in_order(s: BuildProcess)
    ensures
        selected_ids(s.availability()) == check_if(CheckId::BranchProtection, s.branch_protection is Some)
            + check_if(CheckId::CiTests, s.ci_tests is Some)
            + check_if(CheckId::DependencyUpdateTool, s.dependency_update_tool is Some)
            + check_if(CheckId::Fuzzing, s.fuzzing is Some)
            + check_if(CheckId::PinnedDependencies, s.pinned_dependencies is Some)
            + check_if(CheckId::SignedReleases, s.signed_releases is Some)
            + check_if(CheckId::TokenPermissions, s.token_permissions is Some)
            + check_if(CheckId::Packaging, s.packaging is Some)
            + check_if(CheckId::SbomSc, s.sbom_sc is Some),
{
    let av = s.availability();
    lemma_selected_prefix(av, 0);
    lemma_selected_prefix(av, 9);
    lemma_selected_step(av, 1);
    lemma_selected_step(av, 2);
    lemma_selected_step(av, 3);
    lemma_selected_step(av, 4);
    lemma_selected_step(av, 5);
    lemma_selected_step(av, 6);
    lemma_selected_step(av, 7);
    lemma_selected_step(av, 8);
    lemma_selected_step(av, 9);
}

/// Which checks a BuildProcess section lists as available.
proof fn lemma_build_process_available_members(s: BuildProcess)
    ensures
        forall|id: CheckId|
            #[trigger] selected_ids(s.availability()).contains(id) <==> ((id == CheckId::BranchProtection && s.branch_protection is Some)
                || (id == CheckId::CiTests && s.ci_tests is Some)
                || (id == CheckId::DependencyUpdateTool && s.dependency_update_tool is Some)
                || (id == CheckId::Fuzzing && s.fuzzing is Some)
                || (id == CheckId::PinnedDependencies && s.pinned_dependencies is Some)
                || (id == CheckId::SignedReleases && s.signed_releases is Some)
                || (id == CheckId::TokenPermissions && s.token_permissions is Some)
                || (id == CheckId::Packaging && s.packaging is Some)
                || (id == CheckId::SbomSc && s.sbom_sc is Some)),
{
    lemma_build_process_available_in_order(s);
    assert forall|id: CheckId|
        #[trigger] selected_ids(s.availability()).contains(id) <==> ((id == CheckId::BranchProtection && s.branch_protection is Some)
                || (id == CheckId::CiTests && s.ci_tests is Some)
                || (id == CheckId::DependencyUpdateTool && s.dependency_update_tool is Some)
                || (id == CheckId::Fuzzing && s.fuzzing is Some)
                || (id == CheckId::PinnedDependencies && s.pinned_dependencies is Some)
                || (id == CheckId::SignedReleases && s.signed_releases is Some)
                || (id == CheckId::TokenPermissions && s.token_permissions is Some)
                || (id == CheckId::Packaging && s.packaging is Some)
                || (id == CheckId::SbomSc && s.sbom_sc is Some)) by {
        lemma_contains_check_if(CheckId::BranchProtection, s.branch_protection is Some, id);
        lemma_contains_after(
            check_if(CheckId::BranchProtection, s.branch_protection is Some),
            CheckId::CiTests,
            s.ci_tests is Some,
            id,
        );
        lemma_contains_after(
            check_if(CheckId::BranchProtection, s.branch_protection is Some)
                + check_if(CheckId::CiTests, s.ci_tests is Some),
            CheckId::DependencyUpdateTool,
            s.dependency_update_tool is Some,
            id,
        );
        lemma_contains_after(
            check_if(CheckId::BranchProtection, s.branch_protection is Some)
                + check_if(CheckId::CiTests, s.ci_tests is Some)
                + check_if(CheckId::DependencyUpdateTool, s.dependency_update_tool is Some),
            CheckId::Fuzzing,
            s.fuzzing is Some,
            id,
        );
        lemma_contains_after(
            check_if(CheckId::BranchProtection, s.branch_protection is Some)
                + check_if(CheckId::CiTests, s.ci_tests is Some)
                + check_if(CheckId::DependencyUpdateTool, s.dependency_update_tool is Some)
                + check_if(CheckId::Fuzzing, s.fuzzing is Some),
            CheckId::PinnedDependencies,
            s.pinned_dependencies is Some,
            id,
        );
        lemma_contains_after(
            check_if(CheckId::BranchProtection, s.branch_protection is Some)
                + check_if(CheckId::CiTests, s.ci_tests is Some)
                + check_if(CheckId::DependencyUpdateTool, s.dependency_update_tool is Some)
                + check_if(CheckId::Fuzzing, s.fuzzing is Some)
                + check_if(CheckId::PinnedDependencies, s.pinned_dependencies is Some),
            CheckId::SignedReleases,
            s.signed_releases is Some,
            id,
        );
        lemma_contains_after(
            check_if(CheckId::BranchProtection, s.branch_protection is Some)
                + check_if(CheckId::CiTests, s.ci_tests is Some)
                + check_if(CheckId::DependencyUpdateTool, s.dependency_update_tool is Some)
                + check_if(CheckId::Fuzzing, s.fuzzing is Some)
                + check_if(CheckId::PinnedDependencies, s.pinned_dependencies is Some)
                + check_if(CheckId::SignedReleases, s.signed_releases is Some),
            CheckId::TokenPermissions,
            s.token_permissions is Some,
            id,
        );
        lemma_contains_after(
            check_if(CheckId::BranchProtection, s.branch_protection is Some)
                + check_if(CheckId::CiTests, s.ci_tests is Some)
                + check_if(CheckId::DependencyUpdateTool, s.dependency_update_tool is Some)
                + check_if(CheckId::Fuzzing, s.fuzzing is Some)
                + check_if(CheckId::PinnedDependencies, s.pinned_dependencies is Some)
                + check_if(CheckId::SignedReleases, s.signed_releases is Some)
                + check_if(CheckId::TokenPermissions, s.token_permissions is Some),
            CheckId::Packaging,
            s.packaging is Some,
            id,
        );
        lemma_contains_after(
            check_if(CheckId::BranchProtection, s.branch_protection is Some)
                + check_if(CheckId::CiTests, s.ci_tests is Some)
                + check_if(CheckId::DependencyUpdateTool, s.dependency_update_tool is Some)
                + check_if(CheckId::Fuzzing, s.fuzzing is Some)
                + check_if(CheckId::PinnedDependencies, s.pinned_dependencies is Some)
                + check_if(CheckId::SignedReleases, s.signed_releases is Some)
                + check_if(CheckId::TokenPermissions, s.token_permissions is Some)
                + check_if(CheckId::Packaging, s.packaging is Some),
            CheckId::SbomSc,
            s.sbom_sc is Some,
            id,
        );
    }
}

/// In field order, the checks a BuildProcess section lists as passed or exempt.
proof fn lemma_build_process_passing_in_order(s: BuildProcess)
    ensures
        selected_ids(s.passing()) == check_if(CheckId::BranchProtection, (s.branch_protection matches Some(o) && (o.passed || o.exempt)))
            + check_if(CheckId::CiTests, (s.ci_tests matches Some(o) && (o.passed || o.exempt)))
            + check_if(CheckId::DependencyUpdateTool, (s.dependency_update_tool matches Some(o) && (o.passed || o.exempt)))
            + check_if(CheckId::Fuzzing, (s.fuzzing matches Some(o) && (o.passed || o.exempt)))
            + check_if(CheckId::PinnedDependencies, (s.pinned_dependencies matches Some(o) && (o.passed || o.exempt)))
            + check_if(CheckId::SignedReleases, (s.signed_releases matches Some(o) && (o.passed || o.exempt)))
            + check_if(CheckId::TokenPermissions, (s.token_permissions matches Some(o) && (o.passed || o.exempt)))
            + check_if(CheckId::Packaging, (s.packaging matches Some(o) && (o.passed || o.exempt)))
            + check_if(CheckId::SbomSc, (s.sbom_sc matches Some(o) && (o.passed || o.exempt))),
{
    let pa = s.passing();
    lemma_selected_prefix(pa, 0);
    lemma_selected_prefix(pa, 9);
    lemma_selected_step(pa, 1);
    lemma_selected_step(pa, 2);
    lemma_selected_step(pa, 3);
    lemma_selected_step(pa, 4);
    lemma_selected_step(pa, 5);
    lemma_selected_step(pa, 6);
    lemma_selected_step(pa, 7);
    lemma_selected_step(pa, 8);
    lemma_selected_step(pa, 9);
}

/// Which checks a BuildProcess section lists as passed or exempt.
proof fn lemma_build_process_passing_members(s: BuildProcess)
    ensures
        forall|id: CheckId|
            #[trigger] selected_ids(s.passing()).contains(id) <==> ((id == CheckId::BranchProtection && (s.branch_protection matches Some(o) && (o.passed || o.exempt)))
                || (id == CheckId::CiTests && (s.ci_tests matches Some(o) && (o.passed || o.exempt)))
                || (id == CheckId::DependencyUpdateTool && (s.dependency_update_tool matches Some(o) && (o.passed || o.exempt)))
                || (id == CheckId::Fuzzing && (s.fuzzing matches Some(o) && (o.passed || o.exempt)))
                || (id == CheckId::PinnedDependencies && (s.pinned_dependencies matches Some(o) && (o.passed || o.exempt)))
                || (id == CheckId::SignedReleases && (s.signed_releases matches Some(o) && (o.passed || o.exempt)))
                || (id == CheckId::TokenPermissions && (s.token_permissions matches Some(o) && (o.passed || o.exempt)))
                || (id == CheckId::Packaging && (s.packaging matches Some(o) && (o.passed || o.exempt)))
                || (id == CheckId::SbomSc && (s.sbom_sc matches Some(o) && (o.passed || o.exempt)))),
{
    lemma_build_process_passing_in_order(s);
    assert forall|id: CheckId|
        #[trigger] selected_ids(s.passing()).contains(id) <==> ((id == CheckId::BranchProtection && (s.branch_protection matches Some(o) && (o.passed || o.exempt)))
                || (id == CheckId::CiTests && (s.ci_tests matches Some(o) && (o.passed || o.exempt)))
                || (id == CheckId::DependencyUpdateTool && (s.dependency_update_tool matches Some(o) && (o.passed || o.exempt)))
                || (id == CheckId::Fuzzing && (s.fuzzing matches Some(o) && (o.passed || o.exempt)))
                || (id == CheckId::PinnedDependencies && (s.pinned_dependencies matches Some(o) && (o.passed || o.exempt)))
                || (id == CheckId::SignedReleases && (s.signed_releases matches Some(o) && (o.passed || o.exempt)))
                || (id == CheckId::TokenPermissions && (s.token_permissions matches Some(o) && (o.passed || o.exempt)))
                || (id == CheckId::Packaging && (s.packaging matches Some(o) && (o.passed || o.exempt)))
                || (id == CheckId::SbomSc && (s.sbom_sc matches Some(o) && (o.passed || o.exempt)))) by {
        lemma_contains_check_if(CheckId::BranchProtection, (s.branch_protection matches Some(o) && (o.passed || o.exempt)), id);
        lemma_contains_after(
            check_if(CheckId::BranchProtection, (s.branch_protection matches Some(o) && (o.passed || o.exempt))),
            CheckId::CiTests,
            (s.ci_tests matches Some(o) && (o.passed || o.exempt)),
            id,
        );
        lemma_contains_after(
            check_if(CheckId::BranchProtection, (s.branch_protection matches Some(o) && (o.passed || o.exempt)))
                + check_if(CheckId::CiTests, (s.ci_tests matches Some(o) && (o.passed || o.exempt))),
            CheckId::DependencyUpdateTool,
            (s.dependency_update_tool matches Some(o) && (o.passed || o.exempt)),
            id,
        );
        lemma_contains_after(
            check_if(CheckId::BranchProtection, (s.branch_protection matches Some(o) && (o.passed || o.exempt)))
                + check_if(CheckId::CiTests, (s.ci_tests matches Some(o) && (o.passed || o.exempt)))
                + check_if(CheckId::DependencyUpdateTool, (s.dependency_update_tool matches Some(o) && (o.passed || o.exempt))),
            CheckId::Fuzzing,
            (s.fuzzing matches Some(o) && (o.passed || o.exempt)),
            id,
        );
        lemma_contains_after(
            check_if(CheckId::BranchProtection, (s.branch_protection matches Some(o) && (o.passed || o.exempt)))
                + check_if(CheckId::CiTests, (s.ci_tests matches Some(o) && (o.passed || o.exempt)))
                + check_if(CheckId::DependencyUpdateTool, (s.dependency_update_tool matches Some(o) && (o.passed || o.exempt)))
                + check_if(CheckId::Fuzzing, (s.fuzzing matches Some(o) && (o.passed || o.exempt))),
            CheckId::PinnedDependencies,
            (s.pinned_dependencies matches Some(o) && (o.passed || o.exempt)),
            id,
        );
        lemma_contains_after(
            check_if(CheckId::BranchProtection, (s.branch_protection matches Some(o) && (o.passed || o.exempt)))
                + check_if(CheckId::CiTests, (s.ci_tests matches Some(o) && (o.passed || o.exempt)))
                + check_if(CheckId::DependencyUpdateTool, (s.dependency_update_tool matches Some(o) && (o.passed || o.exempt)))
                + check_if(CheckId::Fuzzing, (s.fuzzing matches Some(o) && (o.passed || o.exempt)))
                + check_if(CheckId::PinnedDependencies, (s.pinned_dependencies matches Some(o) && (o.passed || o.exempt))),
            CheckId::SignedReleases,
            (s.signed_releases matches Some(o) && (o.passed || o.exempt)),
            id,
        );
        lemma_contains_after(
            check_if(CheckId::BranchProtection, (s.branch_protection matches Some(o) && (o.passed || o.exempt)))
                + check_if(CheckId::CiTests, (s.ci_tests matches Some(o) && (o.passed || o.exempt)))
                + check_if(CheckId::DependencyUpdateTool, (s.dependency_update_tool matches Some(o) && (o.passed || o.exempt)))
                + check_if(CheckId::Fuzzing, (s.fuzzing matches Some(o) && (o.passed || o.exempt)))
                + check_if(CheckId::PinnedDependencies, (s.pinned_dependencies matches Some(o) && (o.passed || o.exempt)))
                + check_if(CheckId::SignedReleases, (s.signed_releases matches Some(o) && (o.passed || o.exempt))),
            CheckId::TokenPermissions,
            (s.token_permissions matches Some(o) && (o.passed || o.exempt)),
            id,
        );
        lemma_contains_after(
            check_if(CheckId::BranchProtection, (s.branch_protection matches Some(o) && (o.passed || o.exempt)))
                + check_if(CheckId::CiTests, (s.ci_tests matches Some(o) && (o.passed || o.exempt)))
                + check_if(CheckId::DependencyUpdateTool, (s.dependency_update_tool matches Some(o) && (o.passed || o.exempt)))
                + check_if(CheckId::Fuzzing, (s.fuzzing matches Some(o) && (o.passed || o.exempt)))
                + check_if(CheckId::PinnedDependencies, (s.pinned_dependencies matches Some(o) && (o.passed || o.exempt)))
                + check_if(CheckId::SignedReleases, (s.signed_releases matches Some(o) && (o.passed || o.exempt)))
                + check_if(CheckId::TokenPermissions, (s.token_permissions matches Some(o) && (o.passed || o.exempt))),
            CheckId::Packaging,
            (s.packaging matches Some(o) && (o.passed || o.exempt)),
            id,
        );
        lemma_contains_after(
            check_if(CheckId::BranchProtection, (s.branch_protection matches Some(o) && (o.passed || o.exempt)))
                + check_if(CheckId::CiTests, (s.ci_tests matches Some(o) && (o.passed || o.exempt)))
                + check_if(CheckId::DependencyUpdateTool, (s.dependency_update_tool matches Some(o) && (o.passed || o.exempt)))
                + check_if(CheckId::Fuzzing, (s.fuzzing matches Some(o) && (o.passed || o.exempt)))
                + check_if(CheckId::PinnedDependencies, (s.pinned_dependencies matches Some(o) && (o.passed || o.exempt)))
                + check_if(CheckId::SignedReleases, (s.signed_releases matches Some(o) && (o.passed || o.exempt)))
                + check_if(CheckId::TokenPermissions, (s.token_permissions matches Some(o) && (o.passed || o.exempt)))
                + check_if(CheckId::Packaging, (s.packaging matches Some(o) && (o.passed || o.exempt))),
            CheckId::SbomSc,
            (s.sbom_sc matches Some(o) && (o.passed || o.exempt)),
            id,
        );
    }
}

/// The checks a BuildProcess section lists: as available, in field order, each check
/// whose own field holds an output; as passed or exempt, in field order, each
/// check whose own field holds an output that passed or is exempt. No other
/// field decides whether a check is listed.
pub proof fn build_process_lists_checks_by_their_own_fields(s: BuildProcess)
    ensures
        selected_ids(s.availability()) == check_if(CheckId::BranchProtection, s.branch_protection is Some)
            + check_if(CheckId::CiTests, s.ci_tests is Some)
            + check_if(CheckId::DependencyUpdateTool, s.dependency_update_tool is Some)
            + check_if(CheckId::Fuzzing, s.fuzzing is Some)
            + check_if(CheckId::PinnedDependencies, s.pinned_dependencies is Some)
            + check_if(CheckId::SignedReleases, s.signed_releases is Some)
            + check_if(CheckId::TokenPermissions, s.token_permissions is Some)
            + check_if(CheckId::Packaging, s.packaging is Some)
            + check_if(CheckId::SbomSc, s.sbom_sc is Some),
        selected_ids(s.passing()) == check_if(CheckId::BranchProtection, (s.branch_protection matches Some(o) && (o.passed || o.exempt)))
            + check_if(CheckId::CiTests, (s.ci_tests matches Some(o) && (o.passed || o.exempt)))
            + check_if(CheckId::DependencyUpdateTool, (s.dependency_update_tool matches Some(o) && (o.passed || o.exempt)))
            + check_if(CheckId::Fuzzing, (s.fuzzing matches Some(o) && (o.passed || o.exempt)))
            + check_if(CheckId::PinnedDependencies, (s.pinned_dependencies matches Some(o) && (o.passed || o.exempt)))
            + check_if(CheckId::SignedReleases, (s.signed_releases matches Some(o) && (o.passed || o.exempt)))
            + check_if(CheckId::TokenPermissions, (s.token_permissions matches Some(o) && (o.passed || o.exempt)))
            + check_if(CheckId::Packaging, (s.packaging matches Some(o) && (o.passed || o.exempt)))
            + check_if(CheckId::SbomSc, (s.sbom_sc matches Some(o) && (o.passed || o.exempt))),
        forall|id: CheckId|
            #[trigger] selected_ids(s.availability()).contains(id) <==> ((id == CheckId::BranchProtection && s.branch_protection is Some)
                || (id == CheckId::CiTests && s.ci_tests is Some)
                || (id == CheckId::DependencyUpdateTool && s.dependency_update_tool is Some)
                || (id == CheckId::Fuzzing && s.fuzzing is Some)
                || (id == CheckId::PinnedDependencies && s.pinned_dependencies is Some)
                || (id == CheckId::SignedReleases && s.signed_releases is Some)
                || (id == CheckId::TokenPermissions && s.token_permissions is Some)
                || (id == CheckId::Packaging && s.packaging is Some)
                || (id == CheckId::SbomSc && s.sbom_sc is Some)),
        forall|id: CheckId|
            #[trigger] selected_ids(s.passing()).contains(id) <==> ((id == CheckId::BranchProtection && (s.branch_protection matches Some(o) && (o.passed || o.exempt)))
                || (id == CheckId::CiTests && (s.ci_tests matches Some(o) && (o.passed || o.exempt)))
                || (id == CheckId::DependencyUpdateTool && (s.dependency_update_tool matches Some(o) && (o.passed || o.exempt)))
                || (id == CheckId::Fuzzing && (s.fuzzing matches Some(o) && (o.passed || o.exempt)))
                || (id == CheckId::PinnedDependencies && (s.pinned_dependencies matches Some(o) && (o.passed || o.exempt)))
                || (id == CheckId::SignedReleases && (s.signed_releases matches Some(o) && (o.passed || o.exempt)))
                || (id == CheckId::TokenPermissions && (s.token_permissions matches Some(o) && (o.passed || o.exempt)))
                || (id == CheckId::Packaging && (s.packaging matches Some(o) && (o.passed || o.exempt)))
                || (id == CheckId::SbomSc && (s.sbom_sc matches Some(o) && (o.passed || o.exempt)))),
{
    lemma_build_process_available_in_order(s);
    lemma_build_process_passing_in_order(s);
    lemma_build_process_available_members(s);
    lemma_build_process_passing_members(s);
}

} // verus!
