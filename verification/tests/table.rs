use clomonitor_core::linter::{CheckOutput, Report};
use clomonitor_core::score::rating_from_points;
use clomonitor_core::table::{
    check_cell, check_status, checks_summary, entry_cell, header_cell, score_cell, score_cell_color,
    CellAlignment, CellColor, CheckStatus,
};

#[test]
fn check_status_of_outputs() {
    let passed = CheckOutput { passed: true, exempt: true, failed: true, ..CheckOutput::default() };
    assert_eq!(check_status(Some(&passed)), CheckStatus::Passed);
    let exempt = CheckOutput { exempt: true, failed: true, ..CheckOutput::default() };
    assert_eq!(check_status(Some(&exempt)), CheckStatus::Exempt);
    let failed = CheckOutput { failed: true, ..CheckOutput::default() };
    assert_eq!(check_status(Some(&failed)), CheckStatus::Failed);
    assert_eq!(check_status(Some(&CheckOutput::default())), CheckStatus::NotPassed);
    assert_eq!(check_status(None), CheckStatus::NotApplicable);
}

#[test]
fn check_status_symbols_and_colors() {
    assert_eq!(CheckStatus::Passed.symbol(), "✓");
    assert_eq!(CheckStatus::Passed.color(), CellColor::Green);
    assert_eq!(CheckStatus::Exempt.symbol(), "Exempt");
    assert_eq!(CheckStatus::Exempt.color(), CellColor::Grey);
    assert_eq!(CheckStatus::NotPassed.symbol(), "✗");
    assert_eq!(CheckStatus::NotPassed.color(), CellColor::Red);
    assert_eq!(CheckStatus::Failed.symbol(), "!");
    assert_eq!(CheckStatus::Failed.color(), CellColor::Yellow);
    assert_eq!(CheckStatus::NotApplicable.symbol(), "n/a");
    assert_eq!(CheckStatus::NotApplicable.color(), CellColor::Grey);
}

#[test]
fn score_cell_colors_by_band() {
    assert_eq!(score_cell_color(100), Some(CellColor::Green));
    assert_eq!(score_cell_color(75), Some(CellColor::Green));
    assert_eq!(score_cell_color(74), Some(CellColor::Yellow));
    assert_eq!(score_cell_color(50), Some(CellColor::Yellow));
    assert_eq!(score_cell_color(49), Some(CellColor::DarkYellow));
    assert_eq!(score_cell_color(25), Some(CellColor::DarkYellow));
    assert_eq!(score_cell_color(24), Some(CellColor::Red));
    assert_eq!(score_cell_color(0), Some(CellColor::Red));
    assert_eq!(score_cell_color(101), None);
}

#[test]
fn score_cell_color_follows_rating() {
    for p in 0..=120usize {
        let expected = match rating_from_points(p) {
            'a' => Some(CellColor::Green),
            'b' => Some(CellColor::Yellow),
            'c' => Some(CellColor::DarkYellow),
            'd' => Some(CellColor::Red),
            _ => None,
        };
        assert_eq!(score_cell_color(p), expected);
    }
}

#[test]
fn check_cells_are_centred_and_bold() {
    let exempt = CheckOutput { exempt: true, ..CheckOutput::default() };
    let cell = check_cell(Some(&exempt));
    assert_eq!(cell.text, "Exempt");
    assert_eq!(cell.alignment, CellAlignment::Center);
    assert!(cell.bold);
    assert_eq!(cell.color, Some(CellColor::Grey));
    let cell = check_cell(Some(&CheckOutput::passed()));
    assert_eq!((cell.text.as_str(), cell.color), ("✓", Some(CellColor::Green)));
    let failed = CheckOutput { failed: true, ..CheckOutput::default() };
    let cell = check_cell(Some(&failed));
    assert_eq!((cell.text.as_str(), cell.color), ("!", Some(CellColor::Yellow)));
    let cell = check_cell(Some(&CheckOutput::default()));
    assert_eq!((cell.text.as_str(), cell.color), ("✗", Some(CellColor::Red)));
    let cell = check_cell(None);
    assert_eq!((cell.text.as_str(), cell.color), ("n/a", Some(CellColor::Grey)));
}

#[test]
fn header_and_entry_cells() {
    let header = header_cell("Section");
    assert_eq!(header.text, "Section");
    assert_eq!(header.alignment, CellAlignment::Center);
    assert!(header.bold);
    assert_eq!(header.color, None);
    let entry = entry_cell("Global");
    assert_eq!(entry.text, "Global");
    assert_eq!(entry.alignment, CellAlignment::Left);
    assert!(!entry.bold);
    assert_eq!(entry.color, None);
}

#[test]
fn score_cells() {
    let cell = score_cell(Some((99, "100".to_string())));
    assert_eq!((cell.text.as_str(), cell.color), ("100", Some(CellColor::Green)));
    assert_eq!(cell.alignment, CellAlignment::Center);
    assert!(cell.bold);
    let cell = score_cell(Some((30, "30".to_string())));
    assert_eq!((cell.text.as_str(), cell.color), ("30", Some(CellColor::DarkYellow)));
    let cell = score_cell(Some((150, "150".to_string())));
    assert_eq!((cell.text.as_str(), cell.color), ("?", Some(CellColor::Grey)));
    let cell = score_cell(None);
    assert_eq!((cell.text.as_str(), cell.color), ("n/a", Some(CellColor::Grey)));
}

#[test]
fn checks_summary_lists_every_check_in_order() {
    let mut report = Report::default();
    report.maintenance.maintained = Some(CheckOutput::passed());
    report.build.signed_releases = Some(CheckOutput { failed: true, ..CheckOutput::default() });
    let rows = checks_summary(&report);
    assert_eq!(rows.len(), 18);
    assert_eq!(rows[0].0.text, "Code Vulnerabilities / Vulnerabilities");
    assert_eq!(rows[0].1.text, "n/a");
    assert_eq!(rows[2].0.text, "Maintenance / Maintained");
    assert_eq!(rows[2].1.text, "✓");
    assert_eq!(rows[8].0.text, "Continuous Testing / SAST");
    assert_eq!(rows[13].0.text, "Source Risk / Contributors");
    assert_eq!(rows[17].0.text, "Build Risk / Signed releases");
    assert_eq!(rows[17].1.text, "!");
    assert_eq!(rows[17].1.color, Some(CellColor::Yellow));
    assert!(rows.iter().all(|(l, c)| l.alignment == CellAlignment::Left
        && c.alignment == CellAlignment::Center
        && c.bold));
}
