//! What a report says of its submissions.

use crate::json::JsonValue;
use crate::report::transactions::{ExpectedOutcome, GeneratedTransaction};
use crate::time::UtcTime;
use vstd::prelude::*;

verus! {

/// The slots of a submission.
#[derive(Clone, Copy, Debug, PartialEq, Eq, Structural)]
pub struct SlotNumbers {
    pub submitted_slot: Option<u64>,
    pub leader_slot: Option<u64>,
    pub processed_slot: Option<u64>,
    pub confirmed_slot: Option<u64>,
    pub finalized_slot: Option<u64>,
}

/// How a submission went, by its lifecycle record.
#[derive(Debug)]
pub struct SubmissionValidation {
    pub matched_lifecycle_record: bool,
    pub observed_success: bool,
    pub observed_failure: bool,
    pub expected_outcome_met: bool,
    pub slot_numbers: SlotNumbers,
    pub commitment_progression: Vec<String>,
    pub failure_classification: Option<String>,
    pub failure_detail: Option<String>,
    pub notes: Vec<String>,
}

/// How the agent's host ran.
#[derive(Debug)]
pub struct AgentRunReport {
    pub started_at: UtcTime,
    pub finished_at: UtcTime,
    pub duration_ms: u128,
    pub exit_code: Option<i32>,
    pub success: bool,
    pub stdout: String,
    pub stderr: String,
}

/// One submission of a report.
#[derive(Debug)]
pub struct SubmissionReport {
    pub request_id: String,
    pub transaction: GeneratedTransaction,
    pub agent: AgentRunReport,
    pub lifecycle: Option<JsonValue>,
    pub validation: Option<SubmissionValidation>,
}

/// What a report says of its surroundings.
#[derive(Debug)]
pub struct ReportEnvironment {
    pub solana_rpc_url: String,
    pub yellowstone_endpoint: String,
    pub jito_block_engine_url: Option<String>,
    pub mcp_url: String,
    pub lifecycle_log_path: String,
    pub agent_log_path: String,
}

/// The counts of a report.
#[derive(Clone, Copy, Debug, PartialEq, Eq, Structural)]
pub struct ReportSummary {
    pub total_submissions: usize,
    pub expected_successes: usize,
    pub expected_failures: usize,
    pub observed_successes: usize,
    pub observed_failures: usize,
    pub records_with_slots: usize,
    pub records_with_commitment_progression: usize,
    pub expected_outcomes_met: usize,
}

/// A report.
#[derive(Debug)]
pub struct HackathonReport {
    pub run_id: String,
    pub generated_at: UtcTime,
    pub run_started_at: UtcTime,
    pub run_finished_at: UtcTime,
    pub environment: ReportEnvironment,
    pub summary: ReportSummary,
    pub submissions: Vec<SubmissionReport>,
    pub lifecycle_records: Vec<JsonValue>,
}

/// A property of a submission that a summary counts.
#[derive(Clone, Copy, Debug, PartialEq, Eq, Structural)]
pub enum Property {
    ExpectedSuccess,
    ExpectedFailure,
    ObservedSuccess,
    ObservedFailure,
    HasSlot,
    HasProgression,
    OutcomeMet,
}

/// Whether a submission has a property. One that was not validated has none of
/// those that a validation shows.
pub open spec fn has_property(submission: SubmissionReport, wanted: Property) -> bool {
    match wanted {
        Property::ExpectedSuccess => submission.transaction.expected_outcome
            == ExpectedOutcome::Success,
        Property::ExpectedFailure => submission.transaction.expected_outcome
            == ExpectedOutcome::Failure,
        Property::ObservedSuccess => submission.validation matches Some(v) && v.observed_success,
        Property::ObservedFailure => submission.validation matches Some(v) && v.observed_failure,
        Property::HasSlot => submission.validation matches Some(v)
            && v.slot_numbers.submitted_slot is Some,
        Property::HasProgression => submission.validation matches Some(v)
            && v.commitment_progression@.len() > 1,
        Property::OutcomeMet => submission.validation matches Some(v) && v.expected_outcome_met,
    }
}

/// How many submissions have a property.
pub open spec fn count_of(submissions: Seq<SubmissionReport>, wanted: Property) -> nat {
    submissions.filter(|s: SubmissionReport| has_property(s, wanted)).len()
}

/// Whether a submission has a property.
fn check_property(submission: &SubmissionReport, wanted: Property) -> (has: bool)
    ensures
        has == has_property(*submission, wanted),
{
    match wanted {
        Property::ExpectedSuccess => matches!(
            submission.transaction.expected_outcome,
            ExpectedOutcome::Success
        ),
        Property::ExpectedFailure => matches!(
            submission.transaction.expected_outcome,
            ExpectedOutcome::Failure
        ),
        Property::ObservedSuccess => match &submission.validation {
            Some(v) => v.observed_success,
            None => false,
        },
        Property::ObservedFailure => match &submission.validation {
            Some(v) => v.observed_failure,
            None => false,
        },
        Property::HasSlot => match &submission.validation {
            Some(v) => v.slot_numbers.submitted_slot.is_some(),
            None => false,
        },
        Property::HasProgression => match &submission.validation {
            Some(v) => v.commitment_progression.len() > 1,
            None => false,
        },
        Property::OutcomeMet => match &submission.validation {
            Some(v) => v.expected_outcome_met,
            None => false,
        },
    }
}

/// Counts the submissions that have a property.
fn count(submissions: &Vec<SubmissionReport>, wanted: Property) -> (n: usize)
    ensures
        n == count_of(submissions@, wanted),
        n <= submissions@.len(),
{
    let ghost has = |s: SubmissionReport| has_property(s, wanted);
    let mut n: usize = 0;
    assert(submissions@.take(0).filter(has).len() == 0) by {
        reveal(Seq::filter);
    }
    for i in 0..submissions.len()
        invariant
            n <= i,
            has == (|s: SubmissionReport| has_property(s, wanted)),
            n == submissions@.take(i as int).filter(has).len(),
    {
        proof {
            let next = submissions@.take(i + 1);
            assert(next.drop_last() =~= submissions@.take(i as int));
            assert(next.last() == submissions@[i as int]);
            reveal(Seq::filter);
        }
        if check_property(&submissions[i], wanted) {
            n = n + 1;
        }
    }
    assert(submissions@.take(submissions@.len() as int) =~= submissions@);
    n
}

/// Whether a summary counts some submissions.
pub open spec fn is_summary_of(summary: ReportSummary, submissions: Seq<SubmissionReport>) -> bool {
    &&& summary.total_submissions == submissions.len()
    &&& summary.expected_successes == count_of(submissions, Property::ExpectedSuccess)
    &&& summary.expected_failures == count_of(submissions, Property::ExpectedFailure)
    &&& summary.observed_successes == count_of(submissions, Property::ObservedSuccess)
    &&& summary.observed_failures == count_of(submissions, Property::ObservedFailure)
    &&& summary.records_with_slots == count_of(submissions, Property::HasSlot)
    &&& summary.records_with_commitment_progression == count_of(submissions, Property::HasProgression)
    &&& summary.expected_outcomes_met == count_of(submissions, Property::OutcomeMet)
}

impl ReportSummary {
    /// The counts of some submissions.
    pub fn from_submissions(submissions: &Vec<SubmissionReport>) -> (summary: ReportSummary)
        ensures
            is_summary_of(summary, submissions@),
    {
        ReportSummary {
            total_submissions: submissions.len(),
            expected_successes: count(submissions, Property::ExpectedSuccess),
            expected_failures: count(submissions, Property::ExpectedFailure),
            observed_successes: count(submissions, Property::ObservedSuccess),
            observed_failures: count(submissions, Property::ObservedFailure),
            records_with_slots: count(submissions, Property::HasSlot),
            records_with_commitment_progression: count(submissions, Property::HasProgression),
            expected_outcomes_met: count(submissions, Property::OutcomeMet),
        }
    }

    /// Whether the report has the submissions and the failures that it must.
    pub open spec fn is_enough(self) -> bool {
        self.total_submissions == 10 && self.observed_failures >= 2
    }

    /// Whether the report has the submissions and the failures that it must.
    pub fn meets_requirement(&self) -> (met: bool)
        ensures
            met == self.is_enough(),
    {
        self.total_submissions == 10 && self.observed_failures >= 2
    }
}

/// What is said of a report that falls short.
pub const REQUIREMENT_MISSED: &'static str =
    "report did not satisfy lifecycle requirement: expected 10 submissions and at least 2 failures";

/// The counts of two properties that exclude each other add up to no more than
/// all submissions, and to all where each submission has one of them.
proof fn exclusive_counts(submissions: Seq<SubmissionReport>, a: Property, b: Property)
    requires
        forall|i: int|
            0 <= i < submissions.len() ==> !(has_property(#[trigger] submissions[i], a) && has_property(
                submissions[i],
                b,
            )),
    ensures
        count_of(submissions, a) + count_of(submissions, b) <= submissions.len(),
        (forall|i: int|
            0 <= i < submissions.len() ==> has_property(#[trigger] submissions[i], a) || has_property(
                submissions[i],
                b,
            )) ==> count_of(submissions, a) + count_of(submissions, b) == submissions.len(),
    decreases submissions.len(),
{
    reveal(Seq::filter);
    if submissions.len() > 0 {
        let rest = submissions.drop_last();
        assert forall|i: int| 0 <= i < rest.len() implies !(has_property(#[trigger] rest[i], a)
            && has_property(rest[i], b)) by {
            assert(rest[i] == submissions[i]);
        }
        exclusive_counts(rest, a, b);
        let last = submissions.last();
        assert(submissions[submissions.len() - 1] == last);
        assert forall|i: int|
            (forall|j: int|
                0 <= j < submissions.len() ==> has_property(#[trigger] submissions[j], a) || has_property(
                    submissions[j],
                    b,
                )) && 0 <= i < rest.len() implies has_property(#[trigger] rest[i], a) || has_property(
            rest[i],
            b,
        ) by {
            assert(rest[i] == submissions[i]);
        }
    }
}

/// A property that brings another along is no more frequent.
proof fn counts_are_monotonic(submissions: Seq<SubmissionReport>, a: Property, b: Property)
    requires
        forall|i: int|
            0 <= i < submissions.len() && has_property(#[trigger] submissions[i], a)
                ==> has_property(submissions[i], b),
    ensures
        count_of(submissions, a) <= count_of(submissions, b),
    decreases submissions.len(),
{
    reveal(Seq::filter);
    if submissions.len() > 0 {
        let rest = submissions.drop_last();
        assert forall|i: int| 0 <= i < rest.len() && has_property(#[trigger] rest[i], a) implies
            has_property(rest[i], b) by {
            assert(rest[i] == submissions[i]);
        }
        counts_are_monotonic(rest, a, b);
        assert(submissions[submissions.len() - 1] == submissions.last());
    }
}

/// A summary of as many submissions as there must be, where every one that was
/// meant to fail was seen to and enough were meant to, meets the requirement.
pub proof fn seen_failures_meet_the_requirement(
    submissions: Seq<SubmissionReport>,
    summary: ReportSummary,
)
    requires
        is_summary_of(summary, submissions),
        submissions.len() == 10,
        count_of(submissions, Property::ExpectedFailure) >= 2,
        forall|i: int|
            0 <= i < submissions.len() && has_property(
                #[trigger] submissions[i],
                Property::ExpectedFailure,
            ) ==> has_property(submissions[i], Property::ObservedFailure),
    ensures
        summary.total_submissions == 10,
        summary.observed_failures >= 2,
{
    counts_are_monotonic(submissions, Property::ExpectedFailure, Property::ObservedFailure);
}

/// Every submission is expected either to succeed or to fail.
pub proof fn expectations_add_up(submissions: Seq<SubmissionReport>, summary: ReportSummary)
    requires
        is_summary_of(summary, submissions),
    ensures
        summary.expected_successes + summary.expected_failures == summary.total_submissions,
{
    exclusive_counts(submissions, Property::ExpectedSuccess, Property::ExpectedFailure);
}

/// Where no validation shows both, successes and failures add up to no more than
/// all submissions.
pub proof fn observations_exclude_each_other(
    submissions: Seq<SubmissionReport>,
    summary: ReportSummary,
)
    requires
        is_summary_of(summary, submissions),
        forall|i: int|
            0 <= i < submissions.len() ==> !(has_property(
                #[trigger] submissions[i],
                Property::ObservedSuccess,
            ) && has_property(submissions[i], Property::ObservedFailure)),
    ensures
        summary.observed_successes + summary.observed_failures <= summary.total_submissions,
{
    exclusive_counts(submissions, Property::ObservedSuccess, Property::ObservedFailure);
}

/// Each property is what its name says: an expectation is that of the transaction,
/// and the rest is what a validation shows. A progression has two stages or more.
pub proof fn properties_are_what_was_seen(submission: SubmissionReport)
    ensures
        has_property(submission, Property::ExpectedSuccess)
            <==> submission.transaction.expected_outcome == ExpectedOutcome::Success,
        has_property(submission, Property::ExpectedFailure)
            <==> submission.transaction.expected_outcome == ExpectedOutcome::Failure,
        submission.validation is None ==> !has_property(submission, Property::ObservedSuccess)
            && !has_property(submission, Property::ObservedFailure) && !has_property(
            submission,
            Property::HasSlot,
        ) && !has_property(submission, Property::HasProgression) && !has_property(
            submission,
            Property::OutcomeMet,
        ),
        submission.validation matches Some(v) ==> {
            &&& has_property(submission, Property::ObservedSuccess) == v.observed_success
            &&& has_property(submission, Property::ObservedFailure) == v.observed_failure
            &&& has_property(submission, Property::HasSlot) == v.slot_numbers.submitted_slot is Some
            &&& has_property(submission, Property::HasProgression) == (
            v.commitment_progression@.len() >= 2)
            &&& has_property(submission, Property::OutcomeMet) == v.expected_outcome_met
        },
{
}

/// One more submission adds one to the count of each property that it has, and
/// nothing to the others.
pub proof fn counts_grow_by_one(
    submissions: Seq<SubmissionReport>,
    one: SubmissionReport,
    wanted: Property,
)
    ensures
        count_of(submissions.push(one), wanted) == count_of(submissions, wanted) + (
        if has_property(one, wanted) {
            1nat
        } else {
            0nat
        }),
        count_of(Seq::empty(), wanted) == 0,
{
    reveal(Seq::filter);
    assert(submissions.push(one).drop_last() =~= submissions);
}

/// A summary counts all submissions, and under each name the ones that have the
/// property of that name.
pub proof fn summaries_count_what_they_name(
    summary: ReportSummary,
    submissions: Seq<SubmissionReport>,
)
    requires
        is_summary_of(summary, submissions),
    ensures
        summary.total_submissions == submissions.len(),
        summary.expected_successes == count_of(submissions, Property::ExpectedSuccess),
        summary.expected_failures == count_of(submissions, Property::ExpectedFailure),
        summary.observed_successes == count_of(submissions, Property::ObservedSuccess),
        summary.observed_failures == count_of(submissions, Property::ObservedFailure),
        summary.records_with_slots == count_of(submissions, Property::HasSlot),
        summary.records_with_commitment_progression == count_of(
            submissions,
            Property::HasProgression,
        ),
        summary.expected_outcomes_met == count_of(submissions, Property::OutcomeMet),
{
}

/// A report has enough with ten submissions of which two were seen to fail, and
/// with no other number of submissions or fewer failures.
pub proof fn ten_submissions_and_two_failures_are_enough(summary: ReportSummary)
    ensures
        summary.total_submissions == 10 && summary.observed_failures >= 2 ==> summary.is_enough(),
        summary.total_submissions != 10 ==> !summary.is_enough(),
        summary.observed_failures < 2 ==> !summary.is_enough(),
{
}

} // verus!
