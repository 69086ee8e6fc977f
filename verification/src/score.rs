//! The integer side of scoring: how much each section and the whole report
//! weigh, and which rating a score earns.
use vstd::prelude::*;

use crate::linter::check::{CheckId, CheckOutput};
use crate::linter::report::{
    lemma_build_risk_available_in_order, lemma_code_vulnerabilities_available_in_order,
    lemma_continuous_testing_available_in_order, lemma_maintenance_available_in_order,
    lemma_source_risk_available_in_order, selected_ids, CheckSection, Report,
};

verus! {

/// The summed weight of the given checks.
pub open spec fn total_weight(checks: Seq<CheckId>) -> nat
    decreases checks.len(),
{
    if checks.len() == 0 {
        0
    } else {
        total_weight(checks.drop_last()) + checks.last().spec_weight()
    }
}

/// The weight of a section whose scored checks are `checks`: none when they weigh
/// nothing, their summed weight otherwise.
pub open spec fn section_weight_of(checks: Seq<CheckId>) -> Option<usize> {
    if total_weight(checks) == 0 {
        None
    } else {
        Some(total_weight(checks) as usize)
    }
}

/// A missing weight counts as zero.
pub open spec fn weight_or_zero(weight: Option<usize>) -> nat {
    match weight {
        Some(w) => w as nat,
        None => 0,
    }
}

/// The summed weight of a list of optional weights, a missing one counting as
/// zero.
pub open spec fn sum_of_weights(weights: Seq<Option<usize>>) -> nat
    decreases weights.len(),
{
    if weights.len() == 0 {
        0
    } else {
        sum_of_weights(weights.drop_last()) + weight_or_zero(weights.last())
    }
}

/// Every check weighs one, so the checks weigh as much as there are of them.
pub proof fn lemma_total_weight_is_count(checks: Seq<CheckId>)
    ensures
        total_weight(checks) == checks.len(),
    decreases checks.len(),
{
    if checks.len() > 0 {
        lemma_total_weight_is_count(checks.drop_last());
    }
}

/// Return the weight of a section whose scored checks are `checks`: `None` when
/// they weigh nothing (there are none), their summed weight otherwise.
pub fn section_weight(checks: &Vec<CheckId>) -> (w: Option<usize>)
    ensures
        w == section_weight_of(checks@),
        w is None <==> checks@.len() == 0,
{
    proof {
        lemma_total_weight_is_count(checks@);
    }
    let mut weight: usize = 0;
    let mut i: usize = 0;
    while i < checks.len()
        invariant
            i <= checks.len(),
            weight == total_weight(checks@.take(i as int)),
        decreases checks.len() - i,
    {
        proof {
            assert(checks@.take(i + 1).drop_last() =~= checks@.take(i as int));
            lemma_total_weight_is_count(checks@.take(i + 1));
        }
        weight = weight + checks[i].weight();
        i += 1;
    }
    assert(checks@.take(checks.len() as int) =~= checks@);
    if weight == 0 {
        None
    } else {
        Some(weight)
    }
}

/// Sum the weights given, a missing one counting as zero: `None` when the sum
/// does not fit in a `usize`.
pub fn sum_weights(weights: &Vec<Option<usize>>) -> (total: Option<usize>)
    ensures
        total == (if sum_of_weights(weights@) <= usize::MAX {
            Some(sum_of_weights(weights@) as usize)
        } else {
            None
        }),
{
    let mut total: usize = 0;
    let mut i: usize = 0;
    while i < weights.len()
        invariant
            i <= weights.len(),
            total == sum_of_weights(weights@.take(i as int)),
        decreases weights.len() - i,
    {
        assert(weights@.take(i + 1).drop_last() =~= weights@.take(i as int));
        let w: usize = match weights[i] {
            Some(w) => w,
            None => 0,
        };
        match total.checked_add(w) {
            Some(t) => {
                total = t;
            },
            None => {
                proof {
                    lemma_sum_of_weights_prefix(weights@, i + 1);
                }
                return None;
            },
        }
        i += 1;
    }
    assert(weights@.take(weights.len() as int) =~= weights@);
    Some(total)
}

/// A prefix of a list of weights sums to no more than the whole list.
proof fn lemma_sum_of_weights_prefix(weights: Seq<Option<usize>>, n: int)
    requires
        0 <= n <= weights.len(),
    ensures
        sum_of_weights(weights.take(n)) <= sum_of_weights(weights),
    decreases weights.len(),
{
    if n < weights.len() {
        lemma_sum_of_weights_prefix(weights.drop_last(), n);
        assert(weights.drop_last().take(n) =~= weights.take(n));
    } else {
        assert(weights.take(n) =~= weights);
    }
}

/// The weights of a report: that of each section, and the global one.
#[derive(Debug, Clone, Copy, PartialEq, Eq)]
pub struct ScoreWeights {
    pub global: usize,
    pub code_vulnerabilities: Option<usize>,
    pub maintenance: Option<usize>,
    pub testing: Option<usize>,
    pub source: Option<usize>,
    pub build: Option<usize>,
}

/// The weights of a linter report. A section is scored on its checks that have an
/// output; the global weight adds up the sections' weights.
pub open spec fn report_weights(report: Report) -> ScoreWeights {
    let code_vulnerabilities = section_weight_of(
        selected_ids(report.code_vulnerabilities.availability()),
    );
    let maintenance = section_weight_of(selected_ids(report.maintenance.availability()));
    let testing = section_weight_of(selected_ids(report.testing.availability()));
    let source = section_weight_of(selected_ids(report.source.availability()));
    let build = section_weight_of(selected_ids(report.build.availability()));
    ScoreWeights {
        global: (weight_or_zero(code_vulnerabilities) + weight_or_zero(maintenance)
            + weight_or_zero(testing) + weight_or_zero(source) + weight_or_zero(
            build,
        )) as usize,
        code_vulnerabilities,
        maintenance,
        testing,
        source,
        build,
    }
}

/// Calculate the weights of a linter report: that of each section, from its
/// checks that have an output, and the global one, which adds them up.
pub fn calculate_weights(report: &Report) -> (w: ScoreWeights)
    ensures
        w == report_weights(*report),
{
    let code_vulnerabilities = section_weight(&report.code_vulnerabilities.available());
    let maintenance = section_weight(&report.maintenance.available());
    let testing = section_weight(&report.testing.available());
    let source = section_weight(&report.source.available());
    let build = section_weight(&report.build.available());
    proof {
        lemma_section_weight_bound(report.code_vulnerabilities.availability());
        lemma_section_weight_bound(report.maintenance.availability());
        lemma_section_weight_bound(report.testing.availability());
        lemma_section_weight_bound(report.source.availability());
        lemma_section_weight_bound(report.build.availability());
    }
    let global = unwrap_weight(code_vulnerabilities) + unwrap_weight(maintenance) + unwrap_weight(
        testing,
    ) + unwrap_weight(source) + unwrap_weight(build);
    ScoreWeights { global, code_vulnerabilities, maintenance, testing, source, build }
}

/// A section weighs as many as its checks that have an output, and has a weight
/// exactly when it has such a check; the global weight is the number of the
/// report's checks that have an output.
pub proof fn weights_count_available_checks(report: Report)
    ensures
        ({
            let w = report_weights(report);
            &&& weight_or_zero(w.code_vulnerabilities) == selected_ids(
                report.code_vulnerabilities.availability(),
            ).len()
            &&& weight_or_zero(w.maintenance) == selected_ids(
                report.maintenance.availability(),
            ).len()
            &&& weight_or_zero(w.testing) == selected_ids(report.testing.availability()).len()
            &&& weight_or_zero(w.source) == selected_ids(report.source.availability()).len()
            &&& weight_or_zero(w.build) == selected_ids(report.build.availability()).len()
            &&& (w.code_vulnerabilities is None <==> selected_ids(report.code_vulnerabilities.availability()).len() == 0)
            &&& (w.maintenance is None <==> selected_ids(report.maintenance.availability()).len() == 0)
            &&& (w.testing is None <==> selected_ids(report.testing.availability()).len() == 0)
            &&& (w.source is None <==> selected_ids(report.source.availability()).len() == 0)
            &&& (w.build is None <==> selected_ids(report.build.availability()).len() == 0)
            &&& w.global == selected_ids(report.code_vulnerabilities.availability()).len()
                + selected_ids(report.maintenance.availability()).len() + selected_ids(
                report.testing.availability(),
            ).len() + selected_ids(report.source.availability()).len() + selected_ids(
                report.build.availability(),
            ).len()
        }),
{
    lemma_section_weight_bound(report.code_vulnerabilities.availability());
    lemma_section_weight_bound(report.maintenance.availability());
    lemma_section_weight_bound(report.testing.availability());
    lemma_section_weight_bound(report.source.availability());
    lemma_section_weight_bound(report.build.availability());
}

/// One where a check has an output, zero where it has none.
pub open spec fn has_output(output: Option<CheckOutput>) -> nat {
    if output is Some {
        1
    } else {
        0
    }
}

/// The code_vulnerabilities section weighs as many as its checks whose own field holds an
/// output.
proof fn lemma_code_vulnerabilities_weight_counts_outputs(report: Report)
    ensures
        weight_or_zero(report_weights(report).code_vulnerabilities) == has_output(report.code_vulnerabilities.vulnerabilities),
{
    lemma_code_vulnerabilities_available_in_order(report.code_vulnerabilities);
    lemma_section_weight_bound(report.code_vulnerabilities.availability());
}

/// The maintenance section weighs as many as its checks whose own field holds an
/// output.
proof fn lemma_maintenance_weight_counts_outputs(report: Report)
    ensures
        weight_or_zero(report_weights(report).maintenance) == has_output(report.maintenance.dependency_update_tool)
            + has_output(report.maintenance.maintained)
            + has_output(report.maintenance.security_policy_sc)
            + has_output(report.maintenance.license_sc)
            + has_output(report.maintenance.cii_best_practices),
{
    lemma_maintenance_available_in_order(report.maintenance);
    lemma_section_weight_bound(report.maintenance.availability());
}

/// The testing section weighs as many as its checks whose own field holds an
/// output.
proof fn lemma_testing_weight_counts_outputs(report: Report)
    ensures
        weight_or_zero(report_weights(report).testing) == has_output(report.testing.ci_tests)
            + has_output(report.testing.fuzzing) + has_output(report.testing.sast),
{
    lemma_continuous_testing_available_in_order(report.testing);
    lemma_section_weight_bound(report.testing.availability());
}

/// The source section weighs as many as its checks whose own field holds an
/// output.
proof fn lemma_source_weight_counts_outputs(report: Report)
    ensures
        weight_or_zero(report_weights(report).source) == has_output(report.source.binary_artifacts)
            + has_output(report.source.branch_protection)
            + has_output(report.source.dangerous_workflow)
            + has_output(report.source.code_review) + has_output(report.source.contributors_sc),
{
    lemma_source_risk_available_in_order(report.source);
    lemma_section_weight_bound(report.source.availability());
}

/// The build section weighs as many as its checks whose own field holds an
/// output.
proof fn lemma_build_weight_counts_outputs(report: Report)
    ensures
        weight_or_zero(report_weights(report).build) == has_output(report.build.pinned_dependencies)
            + has_output(report.build.token_permissions) + has_output(report.build.packaging)
            + has_output(report.build.signed_releases),
{
    lemma_build_risk_available_in_order(report.build);
    lemma_section_weight_bound(report.build.availability());
}

/// Each section of a report weighs as many as its checks whose own field holds
/// an output, and the report as many as all such checks together.
pub proof fn weights_count_checks_with_output(report: Report)
    ensures
        weight_or_zero(report_weights(report).code_vulnerabilities) == has_output(report.code_vulnerabilities.vulnerabilities),
        weight_or_zero(report_weights(report).maintenance) == has_output(report.maintenance.dependency_update_tool)
            + has_output(report.maintenance.maintained)
            + has_output(report.maintenance.security_policy_sc)
            + has_output(report.maintenance.license_sc)
            + has_output(report.maintenance.cii_best_practices),
        weight_or_zero(report_weights(report).testing) == has_output(report.testing.ci_tests)
            + has_output(report.testing.fuzzing) + has_output(report.testing.sast),
        weight_or_zero(report_weights(report).source) == has_output(report.source.binary_artifacts)
            + has_output(report.source.branch_protection)
            + has_output(report.source.dangerous_workflow)
            + has_output(report.source.code_review) + has_output(report.source.contributors_sc),
        weight_or_zero(report_weights(report).build) == has_output(report.build.pinned_dependencies)
            + has_output(report.build.token_permissions) + has_output(report.build.packaging)
            + has_output(report.build.signed_releases),
        report_weights(report).global == has_output(report.code_vulnerabilities.vulnerabilities)
            + has_output(report.maintenance.dependency_update_tool)
            + has_output(report.maintenance.maintained)
            + has_output(report.maintenance.security_policy_sc)
            + has_output(report.maintenance.license_sc)
            + has_output(report.maintenance.cii_best_practices)
            + has_output(report.testing.ci_tests) + has_output(report.testing.fuzzing)
            + has_output(report.testing.sast) + has_output(report.source.binary_artifacts)
            + has_output(report.source.branch_protection)
            + has_output(report.source.dangerous_workflow)
            + has_output(report.source.code_review) + has_output(report.source.contributors_sc)
            + has_output(report.build.pinned_dependencies)
            + has_output(report.build.token_permissions) + has_output(report.build.packaging)
            + has_output(report.build.signed_releases),
{
    lemma_code_vulnerabilities_weight_counts_outputs(report);
    lemma_maintenance_weight_counts_outputs(report);
    lemma_testing_weight_counts_outputs(report);
    lemma_source_weight_counts_outputs(report);
    lemma_build_weight_counts_outputs(report);
}

/// A section weighs no more than it has checks.
proof fn lemma_section_weight_bound(flags: Seq<(CheckId, bool)>)
    requires
        flags.len() <= usize::MAX,
    ensures
        weight_or_zero(section_weight_of(selected_ids(flags))) == selected_ids(flags).len(),
        selected_ids(flags).len() <= flags.len(),
{
    crate::linter::report::lemma_selected_len(flags);
    lemma_total_weight_is_count(selected_ids(flags));
}

/// Return a weight, or zero when there is none.
fn unwrap_weight(weight: Option<usize>) -> (w: usize)
    ensures
        w == weight_or_zero(weight),
{
    match weight {
        Some(w) => w,
        None => 0,
    }
}

/// The rating (a, b, c or d) of a score rounded to a whole number of points;
/// `?` above 100.
pub open spec fn rating_letter(points: int) -> char {
    if 75 <= points <= 100 {
        'a'
    } else if 50 <= points <= 74 {
        'b'
    } else if 25 <= points <= 49 {
        'c'
    } else if 0 <= points <= 24 {
        'd'
    } else {
        '?'
    }
}

/// Return the rating (a, b, c or d) of a score rounded to a whole number of
/// points, or `?` when it is above 100.
pub fn rating_from_points(points: usize) -> (r: char)
    ensures
        r == rating_letter(points as int),
{
    if points >= 75 && points <= 100 {
        'a'
    } else if points >= 50 && points <= 74 {
        'b'
    } else if points >= 25 && points <= 49 {
        'c'
    } else if points <= 24 {
        'd'
    } else {
        '?'
    }
}

/// The rank of a rating: `a` is the best, `?` ranks below every letter.
pub open spec fn rating_rank(r: char) -> int {
    if r == 'a' {
        4
    } else if r == 'b' {
        3
    } else if r == 'c' {
        2
    } else if r == 'd' {
        1
    } else {
        0
    }
}

/// A higher score never earns a worse rating, up to 100 points.
pub proof fn rating_is_monotonic(p: nat, q: nat)
    requires
        p <= q <= 100,
    ensures
        rating_rank(rating_letter(p as int)) <= rating_rank(rating_letter(q as int)),
{
}

/// The rating bands: 75 to 100 points earn `a`, 50 to 74 `b`, 25 to 49 `c`,
/// 0 to 24 `d`, and more than 100 points `?`.
pub proof fn rating_bands(points: nat)
    ensures
        rating_letter(points as int) == 'a' <==> 75 <= points <= 100,
        rating_letter(points as int) == 'b' <==> 50 <= points <= 74,
        rating_letter(points as int) == 'c' <==> 25 <= points <= 49,
        rating_letter(points as int) == 'd' <==> points <= 24,
        rating_letter(points as int) == '?' <==> points > 100,
{
}

/// Summing weights adds up the present ones and skips the missing ones: the sum
/// of two lists joined is the sum of their sums; a lone weight sums to itself,
/// a lone missing weight to zero.
pub proof fn sum_of_weights_adds_up(a: Seq<Option<usize>>, b: Seq<Option<usize>>, w: usize)
    ensures
        sum_of_weights(a + b) == sum_of_weights(a) + sum_of_weights(b),
        sum_of_weights(seq![Some(w)]) == w,
        sum_of_weights(seq![None]) == 0,
        sum_of_weights(Seq::empty()) == 0,
    decreases b.len(),
{
    let one = seq![Some(w)];
    let none = seq![None::<usize>];
    assert(one.drop_last() =~= Seq::<Option<usize>>::empty());
    assert(none.drop_last() =~= Seq::<Option<usize>>::empty());
    assert(sum_of_weights(one) == sum_of_weights(one.drop_last()) + weight_or_zero(one.last()));
    assert(sum_of_weights(none) == sum_of_weights(none.drop_last()) + weight_or_zero(
        none.last(),
    ));
    if b.len() == 0 {
        assert(a + b =~= a);
    } else {
        sum_of_weights_adds_up(a, b.drop_last(), w);
        assert((a + b).drop_last() =~= a + b.drop_last());
        assert((a + b).last() == b.last());
    }
}

/// Every score from 0 to 100 points has a letter rating; above 100 the rating
/// is unknown.
pub proof fn rating_is_known_up_to_100(points: nat)
    ensures
        rating_letter(points as int) == '?' <==> points > 100,
        points <= 100 ==> rating_rank(rating_letter(points as int)) >= 1,
{
}

} // verus!
