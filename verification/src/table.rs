//! What each cell of the linter's results tables shows.
use vstd::prelude::*;

use crate::linter::check::{CheckId, CheckOutput};
use crate::linter::report::Report;
use crate::score::rating_letter;

verus! {

/// Colour of a table cell.
#[derive(Debug, Clone, Copy, PartialEq, Eq, Structural)]
pub enum CellColor {
    Green,
    Yellow,
    DarkYellow,
    Red,
    Grey,
}

/// What a check's cell shows about its output.
#[derive(Debug, Clone, Copy, PartialEq, Eq, Structural)]
pub enum CheckStatus {
    /// The check passed.
    Passed,
    /// The check did not pass, but the repository is exempt from it.
    Exempt,
    /// The check ran and did not pass.
    NotPassed,
    /// The check did not pass because it could not be run.
    Failed,
    /// The check has no output.
    NotApplicable,
}

/// The status shown for a check's output: passing wins over an exemption, which
/// wins over a failure to run.
pub open spec fn status_of(output: Option<CheckOutput>) -> CheckStatus {
    match output {
        Some(o) => if o.passed {
            CheckStatus::Passed
        } else if o.exempt {
            CheckStatus::Exempt
        } else if o.failed {
            CheckStatus::Failed
        } else {
            CheckStatus::NotPassed
        },
        None => CheckStatus::NotApplicable,
    }
}

/// Return the status shown in the cell of a check with the output given.
pub fn check_status(output: Option<&CheckOutput>) -> (s: CheckStatus)
    ensures
        s == status_of(match output {
            Some(o) => Some(*o),
            None => None,
        }),
{
    match output {
        Some(r) => {
            if r.passed {
                CheckStatus::Passed
            } else if r.exempt {
                CheckStatus::Exempt
            } else if !r.failed {
                CheckStatus::NotPassed
            } else {
                CheckStatus::Failed
            }
        },
        None => CheckStatus::NotApplicable,
    }
}

impl CheckStatus {
    /// The text shown for a status.
    pub open spec fn text(self) -> Seq<char> {
        match self {
            CheckStatus::Passed => "✓"@,
            CheckStatus::Exempt => "Exempt"@,
            CheckStatus::NotPassed => "✗"@,
            CheckStatus::Failed => "!"@,
            CheckStatus::NotApplicable => "n/a"@,
        }
    }

    /// The colour a status is shown in.
    pub open spec fn spec_color(self) -> CellColor {
        match self {
            CheckStatus::Passed => CellColor::Green,
            CheckStatus::Exempt => CellColor::Grey,
            CheckStatus::NotPassed => CellColor::Red,
            CheckStatus::Failed => CellColor::Yellow,
            CheckStatus::NotApplicable => CellColor::Grey,
        }
    }

    /// Return the text shown for the status.
    pub fn symbol(&self) -> (s: &'static str)
        ensures
            s@ == self.text(),
    {
        match self {
            CheckStatus::Passed => "✓",
            CheckStatus::Exempt => "Exempt",
            CheckStatus::NotPassed => "✗",
            CheckStatus::Failed => "!",
            CheckStatus::NotApplicable => "n/a",
        }
    }

    /// Return the colour the status is shown in.
    pub fn color(&self) -> (c: CellColor)
        ensures
            c == self.spec_color(),
    {
        match self {
            CheckStatus::Passed => CellColor::Green,
            CheckStatus::Exempt => CellColor::Grey,
            CheckStatus::NotPassed => CellColor::Red,
            CheckStatus::Failed => CellColor::Yellow,
            CheckStatus::NotApplicable => CellColor::Grey,
        }
    }
}

/// The colour of a score's cell, from the score's whole points (the fraction cut
/// off); none above 100 points, where the score is shown as unknown.
pub open spec fn score_color_of(points: int) -> Option<CellColor> {
    if 75 <= points <= 100 {
        Some(CellColor::Green)
    } else if 50 <= points <= 74 {
        Some(CellColor::Yellow)
    } else if 25 <= points <= 49 {
        Some(CellColor::DarkYellow)
    } else if 0 <= points <= 24 {
        Some(CellColor::Red)
    } else {
        None
    }
}

/// Return the colour of a score's cell from the score's whole points, or `None`
/// when the score is above 100 and shown as unknown.
pub fn score_cell_color(points: usize) -> (c: Option<CellColor>)
    ensures
        c == score_color_of(points as int),
{
    if points >= 75 && points <= 100 {
        Some(CellColor::Green)
    } else if points >= 50 && points <= 74 {
        Some(CellColor::Yellow)
    } else if points >= 25 && points <= 49 {
        Some(CellColor::DarkYellow)
    } else if points <= 24 {
        Some(CellColor::Red)
    } else {
        None
    }
}

/// Horizontal alignment of a cell's text.
#[derive(Debug, Clone, Copy, PartialEq, Eq, Structural)]
pub enum CellAlignment {
    Left,
    Center,
}

/// A cell of a results table: its text and how the text is shown.
#[derive(Debug, Clone, PartialEq, Eq)]
pub struct TableCell {
    pub text: String,
    pub alignment: CellAlignment,
    pub bold: bool,
    /// The text's colour; `None` keeps the table's own.
    pub color: Option<CellColor>,
}

/// `cell` shows `text` left-aligned, in plain type and the table's own colour.
pub open spec fn is_entry_cell(cell: TableCell, text: Seq<char>) -> bool {
    &&& cell.text@ == text
    &&& cell.alignment == CellAlignment::Left
    &&& !cell.bold
    &&& cell.color is None
}

/// `cell` shows `text` centred, in bold and the table's own colour.
pub open spec fn is_header_cell(cell: TableCell, text: Seq<char>) -> bool {
    &&& cell.text@ == text
    &&& cell.alignment == CellAlignment::Center
    &&& cell.bold
    &&& cell.color is None
}

/// `cell` shows, centred and in bold, the status of a check with `output`, in
/// the status's colour.
pub open spec fn is_check_cell(cell: TableCell, output: Option<CheckOutput>) -> bool {
    &&& cell.text@ == status_of(output).text()
    &&& cell.alignment == CellAlignment::Center
    &&& cell.bold
    &&& cell.color == Some(status_of(output).spec_color())
}

/// `cell` shows, centred and in bold, a score given by its whole points and its
/// rounded text: that text in the colour of the points' band; `?` in grey above
/// 100 points; `n/a` in grey where there is no score.
pub open spec fn is_score_cell(cell: TableCell, score: Option<(usize, Seq<char>)>) -> bool {
    &&& cell.alignment == CellAlignment::Center
    &&& cell.bold
    &&& match score {
        None => cell.text@ == "n/a"@ && cell.color == Some(CellColor::Grey),
        Some((points, rounded)) => match score_color_of(points as int) {
            Some(c) => cell.text@ == rounded && cell.color == Some(c),
            None => cell.text@ == "?"@ && cell.color == Some(CellColor::Grey),
        },
    }
}

/// Build a cell for a regular entry's text.
pub fn entry_cell(title: &str) -> (cell: TableCell)
    ensures
        is_entry_cell(cell, title@),
{
    TableCell { text: title.to_owned(), alignment: CellAlignment::Left, bold: false, color: None }
}

/// Build a cell for a header's text.
pub fn header_cell(title: &str) -> (cell: TableCell)
    ensures
        is_header_cell(cell, title@),
{
    TableCell { text: title.to_owned(), alignment: CellAlignment::Center, bold: true, color: None }
}

/// Build the cell that shows the status of a check with the output given.
pub fn check_cell(output: Option<&CheckOutput>) -> (cell: TableCell)
    ensures
        is_check_cell(
            cell,
            match output {
                Some(o) => Some(*o),
                None => None,
            },
        ),
{
    let status = check_status(output);
    TableCell {
        text: status.symbol().to_owned(),
        alignment: CellAlignment::Center,
        bold: true,
        color: Some(status.color()),
    }
}

/// Build the cell that shows a score, given by its whole points (the fraction
/// cut off) and its text rounded to a whole number, or `None` where there is no
/// score.
pub fn score_cell(score: Option<(usize, String)>) -> (cell: TableCell)
    ensures
        is_score_cell(
            cell,
            match score {
                Some((points, rounded)) => Some((points, rounded@)),
                None => None,
            },
        ),
{
    let (text, color) = match score {
        Some((points, rounded)) => match score_cell_color(points) {
            Some(c) => (rounded, c),
            None => ("?".to_owned(), CellColor::Grey),
        },
        None => ("n/a".to_owned(), CellColor::Grey),
    };
    TableCell { text, alignment: CellAlignment::Center, bold: true, color: Some(color) }
}

/// The rows of the checks summary table, in order: each check's label, and the
/// output whose status the row shows.
pub open spec fn checks_summary_rows(report: Report) -> Seq<(Seq<char>, Option<CheckOutput>)> {
    seq![
        ("Code Vulnerabilities / Vulnerabilities"@, report.code_vulnerabilities.vulnerabilities),
        ("Maintenance / Dependency update tool"@, report.maintenance.dependency_update_tool),
        ("Maintenance / Maintained"@, report.maintenance.maintained),
        ("Maintenance / Security policy"@, report.maintenance.security_policy_sc),
        ("Maintenance / License"@, report.maintenance.license_sc),
        ("Maintenance / CII Best Practices"@, report.maintenance.cii_best_practices),
        ("Continuous Testing / CI tests"@, report.testing.ci_tests),
        ("Continuous Testing / Fuzzing"@, report.testing.fuzzing),
        ("Continuous Testing / SAST"@, report.testing.sast),
        ("Source Risk / Binary artifacts"@, report.source.binary_artifacts),
        ("Source Risk / Branch protection"@, report.source.branch_protection),
        ("Source Risk / Dangerous workflow"@, report.source.dangerous_workflow),
        ("Source Risk / Code review"@, report.source.code_review),
        ("Source Risk / Contributors"@, report.source.contributors_sc),
        ("Build Risk / Pinned dependencies"@, report.build.pinned_dependencies),
        ("Build Risk / Token permissions"@, report.build.token_permissions),
        ("Build Risk / Packaging"@, report.build.packaging),
        ("Build Risk / Signed releases"@, report.build.signed_releases),
    ]
}

/// Build a row of the checks summary table.
fn check_row(label: &str, output: Option<&CheckOutput>) -> (row: (TableCell, TableCell))
    ensures
        is_entry_cell(row.0, label@),
        is_check_cell(
            row.1,
            match output {
                Some(o) => Some(*o),
                None => None,
            },
        ),
{
    (entry_cell(label), check_cell(output))
}

/// Build the rows of the checks summary table: one per check of the report, in
/// the order of `checks_summary_rows`, with the check's label in an entry cell
/// and its status in a check cell.
pub fn checks_summary(report: &Report) -> (rows: Vec<(TableCell, TableCell)>)
    ensures
        rows@.len() == checks_summary_rows(*report).len(),
        forall|i: int|
            0 <= i < rows@.len() ==> is_entry_cell(
                #[trigger] rows@[i].0,
                checks_summary_rows(*report)[i].0,
            ) && is_check_cell(rows@[i].1, checks_summary_rows(*report)[i].1),
{
    let rows = vec![
        check_row("Code Vulnerabilities / Vulnerabilities", report.code_vulnerabilities.vulnerabilities.as_ref()),
        check_row("Maintenance / Dependency update tool", report.maintenance.dependency_update_tool.as_ref()),
        check_row("Maintenance / Maintained", report.maintenance.maintained.as_ref()),
        check_row("Maintenance / Security policy", report.maintenance.security_policy_sc.as_ref()),
        check_row("Maintenance / License", report.maintenance.license_sc.as_ref()),
        check_row("Maintenance / CII Best Practices", report.maintenance.cii_best_practices.as_ref()),
        check_row("Continuous Testing / CI tests", report.testing.ci_tests.as_ref()),
        check_row("Continuous Testing / Fuzzing", report.testing.fuzzing.as_ref()),
        check_row("Continuous Testing / SAST", report.testing.sast.as_ref()),
        check_row("Source Risk / Binary artifacts", report.source.binary_artifacts.as_ref()),
        check_row("Source Risk / Branch protection", report.source.branch_protection.as_ref()),
        check_row("Source Risk / Dangerous workflow", report.source.dangerous_workflow.as_ref()),
        check_row("Source Risk / Code review", report.source.code_review.as_ref()),
        check_row("Source Risk / Contributors", report.source.contributors_sc.as_ref()),
        check_row("Build Risk / Pinned dependencies", report.build.pinned_dependencies.as_ref()),
        check_row("Build Risk / Token permissions", report.build.token_permissions.as_ref()),
        check_row("Build Risk / Packaging", report.build.packaging.as_ref()),
        check_row("Build Risk / Signed releases", report.build.signed_releases.as_ref()),
    ];
    let ghost spec_rows = checks_summary_rows(*report);
    assert forall|i: int| 0 <= i < rows@.len() implies is_entry_cell(
        #[trigger] rows@[i].0,
        spec_rows[i].0,
    ) && is_check_cell(rows@[i].1, spec_rows[i].1) by {
    }
    rows
}

/// The label of a check's row in the checks summary table: its section, then its
/// name. The SBOM check has no row, and no label.
pub open spec fn summary_label(id: CheckId) -> Seq<char> {
    match id {
        CheckId::Vulnerabilities => "Code Vulnerabilities / Vulnerabilities"@,
        CheckId::DependencyUpdateTool => "Maintenance / Dependency update tool"@,
        CheckId::Maintained => "Maintenance / Maintained"@,
        CheckId::SecurityPolicySc => "Maintenance / Security policy"@,
        CheckId::LicenseSc => "Maintenance / License"@,
        CheckId::CiiBestPractices => "Maintenance / CII Best Practices"@,
        CheckId::CiTests => "Continuous Testing / CI tests"@,
        CheckId::Fuzzing => "Continuous Testing / Fuzzing"@,
        CheckId::Sast => "Continuous Testing / SAST"@,
        CheckId::BinaryArtifacts => "Source Risk / Binary artifacts"@,
        CheckId::BranchProtection => "Source Risk / Branch protection"@,
        CheckId::DangerousWorkflow => "Source Risk / Dangerous workflow"@,
        CheckId::CodeReview => "Source Risk / Code review"@,
        CheckId::ContributorsSc => "Source Risk / Contributors"@,
        CheckId::PinnedDependencies => "Build Risk / Pinned dependencies"@,
        CheckId::TokenPermissions => "Build Risk / Token permissions"@,
        CheckId::Packaging => "Build Risk / Packaging"@,
        CheckId::SignedReleases => "Build Risk / Signed releases"@,
        CheckId::SbomSc => Seq::empty(),
    }
}

/// The checks in the order the checks summary table shows them: by section, and
/// within a section in the order of its fields.
pub open spec fn summary_order() -> Seq<CheckId> {
    seq![
        CheckId::Vulnerabilities,
        CheckId::DependencyUpdateTool,
        CheckId::Maintained,
        CheckId::SecurityPolicySc,
        CheckId::LicenseSc,
        CheckId::CiiBestPractices,
        CheckId::CiTests,
        CheckId::Fuzzing,
        CheckId::Sast,
        CheckId::BinaryArtifacts,
        CheckId::BranchProtection,
        CheckId::DangerousWorkflow,
        CheckId::CodeReview,
        CheckId::ContributorsSc,
        CheckId::PinnedDependencies,
        CheckId::TokenPermissions,
        CheckId::Packaging,
        CheckId::SignedReleases,
    ]
}

/// Each row of the checks summary table shows one check: its label and the
/// output the report holds for that same check. The rows follow
/// `summary_order`, which holds every check of the report once and nothing
/// else.
pub proof fn checks_summary_shows_each_check_with_its_own_output(report: Report)
    ensures
        checks_summary_rows(report).len() == summary_order().len(),
        forall|i: int|
            0 <= i < summary_order().len() ==> #[trigger] checks_summary_rows(report)[i] == (
                summary_label(summary_order()[i]),
                report.output_of(summary_order()[i]),
            ),
        summary_order().no_duplicates(),
        forall|id: CheckId| #[trigger] summary_order().contains(id) <==> id != CheckId::SbomSc,
{
    let order = summary_order();
    assert forall|id: CheckId| #[trigger] order.contains(id) <==> id != CheckId::SbomSc by {
        match id {
            CheckId::Vulnerabilities => {
                assert(summary_order()[0] == id);
            },
            CheckId::DependencyUpdateTool => {
                assert(summary_order()[1] == id);
            },
            CheckId::Maintained => {
                assert(summary_order()[2] == id);
            },
            CheckId::SecurityPolicySc => {
                assert(summary_order()[3] == id);
            },
            CheckId::LicenseSc => {
                assert(summary_order()[4] == id);
            },
            CheckId::CiiBestPractices => {
                assert(summary_order()[5] == id);
            },
            CheckId::CiTests => {
                assert(summary_order()[6] == id);
            },
            CheckId::Fuzzing => {
                assert(summary_order()[7] == id);
            },
            CheckId::Sast => {
                assert(summary_order()[8] == id);
            },
            CheckId::BinaryArtifacts => {
                assert(summary_order()[9] == id);
            },
            CheckId::BranchProtection => {
                assert(summary_order()[10] == id);
            },
            CheckId::DangerousWorkflow => {
                assert(summary_order()[11] == id);
            },
            CheckId::CodeReview => {
                assert(summary_order()[12] == id);
            },
            CheckId::ContributorsSc => {
                assert(summary_order()[13] == id);
            },
            CheckId::PinnedDependencies => {
                assert(summary_order()[14] == id);
            },
            CheckId::TokenPermissions => {
                assert(summary_order()[15] == id);
            },
            CheckId::Packaging => {
                assert(summary_order()[16] == id);
            },
            CheckId::SignedReleases => {
                assert(summary_order()[17] == id);
            },
            CheckId::SbomSc => {
                if order.contains(id) {
                    let i = choose|i: int| 0 <= i < order.len() && order[i] == id;
                    assert(0 <= i < 18);
                }
            },
        }
    }
}

/// What a check's cell shows depends on its output's `passed`, `exempt` and
/// `failed` flags alone: passed wins; then an exemption shows as exempt; then a
/// check that could not run shows as failed; any other output as not passed; no
/// output as not applicable.
pub proof fn check_status_follows_flags(output: Option<CheckOutput>)
    ensures
        output is None ==> status_of(output) == CheckStatus::NotApplicable,
        output matches Some(o) && o.passed ==> status_of(output) == CheckStatus::Passed,
        output matches Some(o) && !o.passed && o.exempt ==> status_of(output)
            == CheckStatus::Exempt,
        output matches Some(o) && !o.passed && !o.exempt && o.failed ==> status_of(output)
            == CheckStatus::Failed,
        output matches Some(o) && !o.passed && !o.exempt && !o.failed ==> status_of(output)
            == CheckStatus::NotPassed,
{
}

/// Two outputs with the same `passed`, `exempt` and `failed` flags show the same
/// status, whatever their reasons, link or details.
pub proof fn check_status_ignores_other_fields(a: CheckOutput, b: CheckOutput)
    requires
        a.passed == b.passed,
        a.exempt == b.exempt,
        a.failed == b.failed,
    ensures
        status_of(Some(a)) == status_of(Some(b)),
{
}

/// A score's cell colour follows its rating on the same whole points: green for
/// `a`, yellow for `b`, dark yellow for `c`, red for `d`, and no colour exactly
/// where the rating is unknown.
pub proof fn score_color_follows_rating(points: int)
    ensures
        score_color_of(points) is None <==> rating_letter(points) == '?',
        rating_letter(points) == 'a' <==> score_color_of(points) == Some(CellColor::Green),
        rating_letter(points) == 'b' <==> score_color_of(points) == Some(CellColor::Yellow),
        rating_letter(points) == 'c' <==> score_color_of(points) == Some(CellColor::DarkYellow),
        rating_letter(points) == 'd' <==> score_color_of(points) == Some(CellColor::Red),
{
}

/// A check's cell shows it as passed exactly when its output passed, and in green
/// exactly when it passed.
pub proof fn passed_checks_show_green(output: Option<CheckOutput>)
    ensures
        status_of(output) == CheckStatus::Passed <==> (output matches Some(o) && o.passed),
        status_of(output).spec_color() == CellColor::Green <==> status_of(output)
            == CheckStatus::Passed,
{
}

} // verus!
