//! The linter's input, check sets and report types.
pub mod check;
pub mod report;

pub use self::check::{CheckId, CheckOutput};
pub use self::report::{
    passed_or_exempt, passed_or_exempt_checks_are_available, selected_ids, BuildProcess,
    BuildRisk, CheckSection, CodeVulnerabilities, ContinuousTesting, Holistic, Maintenance, Report,
    SourceCode, SourceRisk,
};

use std::path::PathBuf;

use time::Date;
use vstd::prelude::*;

verus! {

/// A calendar date, as the `time` crate represents it; carried through, never
/// inspected.
#[verifier::external_type_specification]
#[verifier::external_body]
pub struct ExDate(Date);

/// A filesystem path, as std represents it; carried through, never inspected.
#[verifier::external_type_specification]
#[verifier::external_body]
pub struct ExPathBuf(PathBuf);

/// `<PathBuf as Clone>::clone`: makes a copy of a path. Nothing is claimed of the
/// copy, which the library only carries through.
pub assume_specification[ <PathBuf as Clone>::clone ](path: &PathBuf) -> PathBuf;

/// Input used by the linter to perform its operations.
#[derive(Debug, Clone, Default)]
pub struct LinterInput {
    pub project: Option<Project>,
    pub root: PathBuf,
    pub url: String,
    pub check_sets: Vec<CheckSet>,
    pub github_token: String,
}

/// Project's details
#[derive(Debug, Clone, Default)]
pub struct Project {
    pub name: String,
    pub accepted_at: Option<Date>,
    pub maturity: Option<String>,
    pub foundation: Foundation,
}

/// Foundation's details
#[derive(Debug, Clone, Default)]
pub struct Foundation {
    pub foundation_id: String,
    pub landscape_url: Option<String>,
}

/// Check sets define a set of checks that will be run on a given repository.
/// Multiple check sets can be assigned to a repository.
#[derive(Debug, Clone, Copy, PartialEq, Eq, Structural, Hash)]
pub enum CheckSet {
    Code,
    CodeLite,
    Community,
    Docs,
}

impl CheckSet {
    /// The name under which a check set is displayed.
    pub open spec fn display_name(self) -> Seq<char> {
        match self {
            CheckSet::Code => "CODE"@,
            CheckSet::CodeLite => "CODE-LITE"@,
            CheckSet::Community => "COMMUNITY"@,
            CheckSet::Docs => "DOCS"@,
        }
    }

    /// Return the name under which the check set is displayed.
    pub fn to_string(&self) -> (s: String)
        ensures
            s@ == self.display_name(),
    {
        let name = match self {
            CheckSet::Code => "CODE",
            CheckSet::CodeLite => "CODE-LITE",
            CheckSet::Community => "COMMUNITY",
            CheckSet::Docs => "DOCS",
        };
        name.to_owned()
    }
}

/// Different check sets are displayed under different names.
pub proof fn check_set_names_are_distinct(a: CheckSet, b: CheckSet)
    requires
        a != b,
    ensures
        a.display_name() != b.display_name(),
{
    reveal_strlit("CODE");
    reveal_strlit("CODE-LITE");
    reveal_strlit("COMMUNITY");
    reveal_strlit("DOCS");
    assert(a.display_name().len() != b.display_name().len() || a.display_name()[0]
        != b.display_name()[0] || a.display_name()[2] != b.display_name()[2]);
}

/// CLOMonitor core linter.
pub struct CoreLinter;

impl CoreLinter {
    /// Create a new CoreLinter instance.
    pub fn new() -> (l: Self)
        ensures
            l == CoreLinter,
    {
        CoreLinter
    }
}

} // verus!
