//! The run of a report: what it submits, and what it makes of the records.

use crate::config;
use crate::config::Environment;
use crate::json;
use crate::json::JsonValue;
use crate::report::config::ReportConfig;
use crate::report::transactions::ExpectedOutcome;
use crate::report::types;
use crate::report::types::{
    HackathonReport, ReportEnvironment, ReportSummary, SlotNumbers, SubmissionReport,
    SubmissionValidation,
};
use crate::text;
use crate::text::{decimal_two_text, join3, same_text};
use crate::time::{utc_now, UtcTime};
use vstd::prelude::*;

verus! {

// ---------------------------------------------------------------------------
// What is submitted
// ---------------------------------------------------------------------------

/// A submission that is to be made.
#[derive(Debug)]
pub struct PlannedRequest {
    pub request_id: String,
    pub expected_outcome: ExpectedOutcome,
}

/// The name of a submission that is meant to succeed, by its number.
pub open spec fn success_id(prefix: Seq<char>, index: nat) -> Seq<char> {
    prefix + "-success-"@ + text::decimal_two(index)
}

/// The name of a submission that is meant to fail, by its number.
pub open spec fn failure_id(prefix: Seq<char>, index: nat) -> Seq<char> {
    prefix + "-failure-unfunded-"@ + text::decimal_two(index)
}

/// The submissions of a report: first those that are meant to succeed, then
/// those that are meant to fail, each numbered from 1.
pub open spec fn planned(prefix: Seq<char>, successes: nat, failures: nat) -> Seq<
    (Seq<char>, ExpectedOutcome),
> {
    Seq::new(
        successes + failures,
        |i: int|
            if i < successes {
                (success_id(prefix, (i + 1) as nat), ExpectedOutcome::Success)
            } else {
                (failure_id(prefix, (i - successes + 1) as nat), ExpectedOutcome::Failure)
            },
    )
}

/// What a list of planned submissions holds.
pub open spec fn plan_views(plan: Seq<PlannedRequest>) -> Seq<(Seq<char>, ExpectedOutcome)> {
    plan.map_values(|p: PlannedRequest| (p.request_id@, p.expected_outcome))
}

/// The submissions of a report.
pub fn plan_requests(config: &ReportConfig) -> (plan: Vec<PlannedRequest>)
    requires
        config.wf(),
    ensures
        plan_views(plan@) == planned(
            config.request_prefix@,
            config.success_count as nat,
            config.failure_count as nat,
        ),
        plan@.len() == 10,
{
    let mut plan: Vec<PlannedRequest> = Vec::new();
    let ghost all = planned(
        config.request_prefix@,
        config.success_count as nat,
        config.failure_count as nat,
    );
    for i in 0..config.success_count
        invariant
            config.wf(),
            all == planned(
                config.request_prefix@,
                config.success_count as nat,
                config.failure_count as nat,
            ),
            plan@.len() == i,
            forall|j: int|
                0 <= j < i ==> ((#[trigger] plan@[j]).request_id@, plan@[j].expected_outcome)
                    == all[j],
    {
        let request_id = join3(
            config.request_prefix.as_str(),
            "-success-",
            decimal_two_text(i + 1).as_str(),
        );
        plan.push(PlannedRequest { request_id, expected_outcome: ExpectedOutcome::Success });
    }
    for i in 0..config.failure_count
        invariant
            config.wf(),
            all == planned(
                config.request_prefix@,
                config.success_count as nat,
                config.failure_count as nat,
            ),
            plan@.len() == config.success_count + i,
            forall|j: int|
                0 <= j < config.success_count + i ==> (
                    (#[trigger] plan@[j]).request_id@,
                    plan@[j].expected_outcome,
                ) == all[j],
    {
        let request_id = join3(
            config.request_prefix.as_str(),
            "-failure-unfunded-",
            decimal_two_text(i + 1).as_str(),
        );
        plan.push(PlannedRequest { request_id, expected_outcome: ExpectedOutcome::Failure });
    }
    assert(plan_views(plan@) =~= all);
    plan
}

/// Numbers in decimal do not start with a zero, but for zero itself.
proof fn decimal_has_no_leading_zero(n: nat)
    ensures
        text::decimal(n).len() > 0,
        text::decimal(n)[0] == '0' <==> n == 0,
    decreases n,
{
    if n >= 10 {
        decimal_has_no_leading_zero(n / 10);
    }
}

/// Numbers in two digits differ where the numbers do.
proof fn decimal_two_is_injective(a: nat, b: nat)
    requires
        text::decimal_two(a) == text::decimal_two(b),
        a <= u64::MAX,
        b <= u64::MAX,
    ensures
        a == b,
{
    decimal_has_no_leading_zero(a);
    decimal_has_no_leading_zero(b);
    text::decimal_reads_back(a, u64::MAX as nat);
    text::decimal_reads_back(b, u64::MAX as nat);
    if a < 10 && b < 10 {
        assert((seq!['0'] + text::decimal(a)).skip(1) =~= text::decimal(a));
        assert((seq!['0'] + text::decimal(b)).skip(1) =~= text::decimal(b));
    } else if a < 10 {
        assert((seq!['0'] + text::decimal(a))[0] == '0');
    } else if b < 10 {
        assert((seq!['0'] + text::decimal(b))[0] == '0');
    }
}

/// Texts with the same start differ where their ends do.
proof fn same_start_same_end(start: Seq<char>, a: Seq<char>, b: Seq<char>)
    requires
        start + a == start + b,
    ensures
        a == b,
{
    assert((start + a).skip(start.len() as int) =~= a);
    assert((start + b).skip(start.len() as int) =~= b);
}

/// No two submissions of a report share a name, so each lifecycle record belongs
/// to one of them.
pub proof fn planned_names_differ(
    prefix: Seq<char>,
    successes: nat,
    failures: nat,
    i: int,
    j: int,
)
    requires
        0 <= i < j < successes + failures,
        successes + failures <= u64::MAX,
    ensures
        planned(prefix, successes, failures)[i].0 != planned(prefix, successes, failures)[j].0,
{
    let a = planned(prefix, successes, failures)[i].0;
    let b = planned(prefix, successes, failures)[j].0;
    if a == b {
        reveal_strlit("-success-");
        reveal_strlit("-failure-unfunded-");
        if j < successes {
            same_start_same_end(
                prefix + "-success-"@,
                text::decimal_two((i + 1) as nat),
                text::decimal_two((j + 1) as nat),
            );
            decimal_two_is_injective((i + 1) as nat, (j + 1) as nat);
        } else if i >= successes {
            same_start_same_end(
                prefix + "-failure-unfunded-"@,
                text::decimal_two((i - successes + 1) as nat),
                text::decimal_two((j - successes + 1) as nat),
            );
            decimal_two_is_injective((i - successes + 1) as nat, (j - successes + 1) as nat);
        } else {
            assert(a[prefix.len() as int + 1] == 's');
            assert(b[prefix.len() as int + 1] == 'f');
        }
        assert(false);
    }
}

// ---------------------------------------------------------------------------
// What the records say
// ---------------------------------------------------------------------------

/// What a validation holds.
pub ghost struct ValidationView {
    pub matched_lifecycle_record: bool,
    pub observed_success: bool,
    pub observed_failure: bool,
    pub expected_outcome_met: bool,
    pub slot_numbers: SlotNumbers,
    pub commitment_progression: Seq<Seq<char>>,
    pub failure_classification: Option<Seq<char>>,
    pub failure_detail: Option<Seq<char>>,
    pub notes: Seq<Seq<char>>,
}

impl View for SubmissionValidation {
    type V = ValidationView;

    open spec fn view(&self) -> ValidationView {
        ValidationView {
            matched_lifecycle_record: self.matched_lifecycle_record,
            observed_success: self.observed_success,
            observed_failure: self.observed_failure,
            expected_outcome_met: self.expected_outcome_met,
            slot_numbers: self.slot_numbers,
            commitment_progression: text::texts(self.commitment_progression@),
            failure_classification: text::opt_text(self.failure_classification),
            failure_detail: text::opt_text(self.failure_detail),
            notes: text::texts(self.notes@),
        }
    }
}

/// The stages that a list of events names.
pub open spec fn stages_of(events: Seq<json::JsonView>) -> Seq<Seq<char>>
    decreases events.len(),
{
    if events.len() == 0 {
        Seq::empty()
    } else {
        match events.last().member("stage"@).text() {
            Some(stage) => stages_of(events.drop_last()).push(stage),
            None => stages_of(events.drop_last()),
        }
    }
}

/// A note, where it applies.
pub open spec fn note_if(applies: bool, note: Seq<char>) -> Seq<Seq<char>> {
    if applies {
        seq![note]
    } else {
        Seq::empty()
    }
}

/// The slots that a record names.
pub open spec fn slots_of(record: json::JsonView) -> SlotNumbers {
    SlotNumbers {
        submitted_slot: record.member("submitted_slot"@).unsigned(),
        leader_slot: record.member("leader_slot"@).unsigned(),
        processed_slot: record.member("processed_slot"@).unsigned(),
        confirmed_slot: record.member("confirmed_slot"@).unsigned(),
        finalized_slot: record.member("finalized_slot"@).unsigned(),
    }
}

/// Whether a record tells of a failure.
pub open spec fn shows_failure(record: json::JsonView) -> bool {
    record.member("failure"@).text() is Some
}

/// Whether a record tells of a bundle that did not fail.
pub open spec fn shows_success(record: json::JsonView) -> bool {
    !shows_failure(record) && record.member("bundle_id"@).text() is Some
}

/// Whether a record tells of what was expected.
pub open spec fn meets(record: json::JsonView, expected: ExpectedOutcome) -> bool {
    match expected {
        ExpectedOutcome::Success => shows_success(record),
        ExpectedOutcome::Failure => shows_failure(record),
    }
}

/// What is noted of a record.
pub open spec fn notes_on(submission: SubmissionReport, record: json::JsonView) -> Seq<Seq<char>> {
    let tx = submission.transaction;
    note_if(record.member("signature"@).text() != Some(tx.signature@), "signature mismatch"@)
        + note_if(record.member("blockhash"@).text() != Some(tx.blockhash@), "blockhash mismatch"@)
        + note_if(
        record.member("tip_lamports"@).unsigned() != Some(tx.tip_lamports),
        "tip_lamports mismatch"@,
    ) + note_if(slots_of(record).submitted_slot is None, "missing submitted_slot"@) + note_if(
        stages_of(record.member("events"@).items()).len() == 0,
        "missing commitment events"@,
    ) + note_if(!meets(record, tx.expected_outcome), "expected outcome was not observed"@)
}

/// How a submission went, by its lifecycle record.
pub open spec fn validation_of(
    submission: SubmissionReport,
    lifecycle: Option<json::JsonView>,
) -> ValidationView {
    match lifecycle {
        None => ValidationView {
            matched_lifecycle_record: false,
            observed_success: false,
            observed_failure: false,
            expected_outcome_met: false,
            slot_numbers: SlotNumbers {
                submitted_slot: None,
                leader_slot: None,
                processed_slot: None,
                confirmed_slot: None,
                finalized_slot: None,
            },
            commitment_progression: Seq::empty(),
            failure_classification: None,
            failure_detail: None,
            notes: seq!["missing lifecycle record"@],
        },
        Some(record) => ValidationView {
            matched_lifecycle_record: true,
            observed_success: shows_success(record),
            observed_failure: shows_failure(record),
            expected_outcome_met: meets(record, submission.transaction.expected_outcome),
            slot_numbers: slots_of(record),
            commitment_progression: stages_of(record.member("events"@).items()),
            failure_classification: record.member("failure"@).text(),
            failure_detail: record.member("failure_detail"@).text(),
            notes: notes_on(submission, record),
        },
    }
}

/// The stages that a list of events names.
fn collect_stages(events: &Vec<JsonValue>) -> (stages: Vec<String>)
    ensures
        text::texts(stages@) == stages_of(json::json_views(events@)),
{
    let mut stages: Vec<String> = Vec::new();
    assert(text::texts(stages@) =~= Seq::<Seq<char>>::empty());
    assert(json::json_views(events@.take(0)) =~= Seq::<json::JsonView>::empty());
    for i in 0..events.len()
        invariant
            text::texts(stages@) == stages_of(json::json_views(events@.take(i as int))),
    {
        proof {
            let next = json::json_views(events@.take(i + 1));
            assert(next.drop_last() =~= json::json_views(events@.take(i as int)));
            assert(next.last() == events@[i as int]@);
        }
        match events[i].text_member("stage") {
            Some(stage) => {
                let ghost before = stages@;
                stages.push(stage);
                assert(text::texts(stages@) =~= text::texts(before).push(stage@));
            },
            None => {},
        }
    }
    assert(events@.take(events@.len() as int) =~= events@);
    stages
}

/// The stages that a record's events name.
fn progression(record: &JsonValue) -> (stages: Vec<String>)
    ensures
        text::texts(stages@) == stages_of(record@.member("events"@).items()),
{
    match record.get("events") {
        Some(value) => match value {
            JsonValue::Array(events) => {
                assert(json::json_views(events@) =~= record@.member("events"@).items());
                collect_stages(events)
            },
            _ => {
                let stages: Vec<String> = Vec::new();
                assert(text::texts(stages@) =~= Seq::<Seq<char>>::empty());
                stages
            },
        },
        None => {
            let stages: Vec<String> = Vec::new();
            assert(text::texts(stages@) =~= Seq::<Seq<char>>::empty());
            stages
        },
    }
}

/// Adds a note, where it applies.
fn add_note(notes: &mut Vec<String>, applies: bool, note: &str)
    ensures
        text::texts(final(notes)@) == text::texts(old(notes)@) + note_if(applies, note@),
{
    if applies {
        let ghost before = notes@;
        notes.push(note.to_owned());
        assert(text::texts(notes@) =~= text::texts(before) + seq![note@]);
    } else {
        assert(text::texts(notes@) =~= text::texts(notes@) + Seq::<Seq<char>>::empty());
    }
}

/// Whether an optional text is the given one.
fn is_text(found: &Option<String>, wanted: &str) -> (is: bool)
    ensures
        is == (text::opt_text(*found) == Some(wanted@)),
{
    match found {
        Some(words) => same_text(words.as_str(), wanted),
        None => false,
    }
}

/// How a submission went, by its lifecycle record.
pub fn validate_submission(submission: &SubmissionReport, lifecycle: Option<&JsonValue>) -> (out:
    SubmissionValidation)
    ensures
        out@ == validation_of(
            *submission,
            match lifecycle {
                Some(record) => Some(record@),
                None => None,
            },
        ),
{
    let record = match lifecycle {
        Some(record) => record,
        None => {
            let mut notes: Vec<String> = Vec::new();
            notes.push("missing lifecycle record".to_owned());
            let out = SubmissionValidation {
                matched_lifecycle_record: false,
                observed_success: false,
                observed_failure: false,
                expected_outcome_met: false,
                slot_numbers: SlotNumbers {
                    submitted_slot: None,
                    leader_slot: None,
                    processed_slot: None,
                    confirmed_slot: None,
                    finalized_slot: None,
                },
                commitment_progression: Vec::new(),
                failure_classification: None,
                failure_detail: None,
                notes,
            };
            assert(out@.notes =~= seq!["missing lifecycle record"@]);
            assert(out@.commitment_progression =~= Seq::<Seq<char>>::empty());
            return out;
        },
    };
    let tx = &submission.transaction;
    let slot_numbers = SlotNumbers {
        submitted_slot: record.u64_member("submitted_slot"),
        leader_slot: record.u64_member("leader_slot"),
        processed_slot: record.u64_member("processed_slot"),
        confirmed_slot: record.u64_member("confirmed_slot"),
        finalized_slot: record.u64_member("finalized_slot"),
    };
    let commitment_progression = progression(record);
    let failure_classification = record.text_member("failure");
    let failure_detail = record.text_member("failure_detail");
    let observed_failure = failure_classification.is_some();
    let observed_success = !observed_failure && record.text_member("bundle_id").is_some();
    let expected_outcome_met = match tx.expected_outcome {
        ExpectedOutcome::Success => observed_success,
        ExpectedOutcome::Failure => observed_failure,
    };
    let signature_differs = !is_text(&record.text_member("signature"), tx.signature.as_str());
    let blockhash_differs = !is_text(&record.text_member("blockhash"), tx.blockhash.as_str());
    let tip_differs = match record.u64_member("tip_lamports") {
        Some(tip) => tip != tx.tip_lamports,
        None => true,
    };
    let mut notes: Vec<String> = Vec::new();
    assert(text::texts(notes@) =~= Seq::<Seq<char>>::empty());
    add_note(&mut notes, signature_differs, "signature mismatch");
    add_note(&mut notes, blockhash_differs, "blockhash mismatch");
    add_note(&mut notes, tip_differs, "tip_lamports mismatch");
    add_note(&mut notes, slot_numbers.submitted_slot.is_none(), "missing submitted_slot");
    assert(text::texts(commitment_progression@).len() == commitment_progression@.len());
    add_note(&mut notes, commitment_progression.len() == 0, "missing commitment events");
    add_note(&mut notes, !expected_outcome_met, "expected outcome was not observed");
    assert(text::texts(notes@) =~= notes_on(*submission, record@));
    SubmissionValidation {
        matched_lifecycle_record: true,
        observed_success,
        observed_failure,
        expected_outcome_met,
        slot_numbers,
        commitment_progression,
        failure_classification,
        failure_detail,
        notes,
    }
}

/// The first record of a submission.
pub open spec fn record_of(records: Seq<json::JsonView>, request_id: Seq<char>) -> Option<
    json::JsonView,
>
    decreases records.len(),
{
    if records.len() == 0 {
        None
    } else if records[0].member("submission_id"@).text() == Some(request_id) {
        Some(records[0])
    } else {
        record_of(records.drop_first(), request_id)
    }
}

/// The first record of a submission.
fn find_record(records: &Vec<JsonValue>, request_id: &str) -> (found: Option<JsonValue>)
    ensures
        record_of(json::json_views(records@), request_id@) == match found {
            Some(record) => Some(record@),
            None => None,
        },
{
    let ghost all = json::json_views(records@);
    assert(all.skip(0) =~= all);
    for i in 0..records.len()
        invariant
            all == json::json_views(records@),
            record_of(all, request_id@) == record_of(all.skip(i as int), request_id@),
    {
        assert(all.skip(i as int)[0] == records@[i as int]@);
        assert(all.skip(i as int).drop_first() =~= all.skip(i + 1));
        if is_text(&records[i].text_member("submission_id"), request_id) {
            return Some(records[i].copy());
        }
    }
    None
}

/// Whether a submission is another with its lifecycle record attached.
pub open spec fn is_attached(
    before: SubmissionReport,
    after: SubmissionReport,
    records: Seq<json::JsonView>,
) -> bool {
    let found = record_of(records, before.request_id@);
    &&& after.request_id == before.request_id
    &&& after.transaction == before.transaction
    &&& after.agent == before.agent
    &&& match (after.lifecycle, found) {
        (Some(kept), Some(record)) => kept@ == record,
        (None, None) => true,
        _ => false,
    }
    &&& after.validation matches Some(validation) && validation@ == validation_of(before, found)
}

/// Attaches to each submission its lifecycle record, and says how it went.
pub fn attach_lifecycle_records(
    submissions: &mut Vec<SubmissionReport>,
    records: &Vec<JsonValue>,
)
    ensures
        final(submissions)@.len() == old(submissions)@.len(),
        forall|i: int|
            0 <= i < old(submissions)@.len() ==> is_attached(
                old(submissions)@[i],
                #[trigger] final(submissions)@[i],
                json::json_views(records@),
            ),
{
    let ghost before = submissions@;
    let total: usize = submissions.len();
    for i in 0..total
        invariant
            before == old(submissions)@,
            total == before.len(),
            submissions@.len() == before.len(),
            forall|j: int| i <= j < before.len() ==> submissions@[j] == before[j],
            forall|j: int|
                0 <= j < i ==> is_attached(
                    before[j],
                    #[trigger] submissions@[j],
                    json::json_views(records@),
                ),
    {
        let record = find_record(records, submissions[i].request_id.as_str());
        let validation = match &record {
            Some(record) => validate_submission(&submissions[i], Some(record)),
            None => validate_submission(&submissions[i], None),
        };
        let submission = &mut submissions[i];
        submission.validation = Some(validation);
        submission.lifecycle = record;
    }
}

/// No validation shows both a success and a failure, and what is shown is what
/// was expected or the reverse.
pub proof fn outcomes_exclude_each_other(
    submission: SubmissionReport,
    lifecycle: Option<json::JsonView>,
)
    ensures
        !(validation_of(submission, lifecycle).observed_success && validation_of(
            submission,
            lifecycle,
        ).observed_failure),
        validation_of(submission, lifecycle).expected_outcome_met ==> lifecycle is Some,
{
}

/// Of the planned submissions so far, those past the successes are meant to fail.
proof fn planned_failures_count(
    submissions: Seq<SubmissionReport>,
    prefix: Seq<char>,
    successes: nat,
    failures: nat,
    n: int,
)
    requires
        submissions.len() == successes + failures,
        0 <= n <= submissions.len(),
        forall|i: int|
            0 <= i < submissions.len() ==> (
            #[trigger] submissions[i]).transaction.expected_outcome == planned(
                prefix,
                successes,
                failures,
            )[i].1,
    ensures
        types::count_of(submissions.take(n), types::Property::ExpectedFailure) == if n < successes {
            0
        } else {
            n - successes
        },
    decreases n,
{
    reveal(Seq::filter);
    if n > 0 {
        planned_failures_count(submissions, prefix, successes, failures, n - 1);
        assert(submissions.take(n).drop_last() =~= submissions.take(n - 1));
        assert(submissions.take(n).last() == submissions[n - 1]);
    }
}

/// A report whose submissions were planned and all went as expected meets the
/// requirement.
pub proof fn expected_runs_meet_the_requirement(
    before: Seq<SubmissionReport>,
    after: Seq<SubmissionReport>,
    records: Seq<json::JsonView>,
    summary: ReportSummary,
    prefix: Seq<char>,
    successes: nat,
    failures: nat,
)
    requires
        successes + failures == 10,
        failures >= 2,
        before.len() == 10,
        after.len() == 10,
        forall|i: int|
            0 <= i < 10 ==> (#[trigger] after[i]).transaction.expected_outcome == planned(
                prefix,
                successes,
                failures,
            )[i].1,
        forall|i: int| 0 <= i < 10 ==> is_attached(before[i], #[trigger] after[i], records),
        forall|i: int|
            0 <= i < 10 ==> types::has_property(
                #[trigger] after[i],
                types::Property::OutcomeMet,
            ),
        types::is_summary_of(summary, after),
    ensures
        summary.total_submissions == 10,
        summary.observed_failures >= 2,
{
    planned_failures_count(after, prefix, successes, failures, 10);
    assert(after.take(10) =~= after);
    assert forall|i: int|
        0 <= i < after.len() && types::has_property(
            #[trigger] after[i],
            types::Property::ExpectedFailure,
        ) implies types::has_property(after[i], types::Property::ObservedFailure) by {
        assert(is_attached(before[i], after[i], records));
        assert(types::has_property(after[i], types::Property::OutcomeMet));
    }
    types::seen_failures_meet_the_requirement(after, summary);
}

/// The records of a log: one JSON document for each line that is not blank.
pub fn lifecycle_lines(contents: &str) -> (lines: Vec<String>)
    ensures
        text::texts(lines@) == text::non_blank_lines_of(contents@),
{
    text::non_blank_lines(contents)
}

/// Whether a report tells of a run: the submissions with their records attached,
/// the counts, and the surroundings without what must not be told.
pub open spec fn is_assembled(
    report: HackathonReport,
    config: ReportConfig,
    env: Seq<(Seq<char>, Seq<char>)>,
    submissions: Seq<SubmissionReport>,
    lifecycle_records: Vec<JsonValue>,
    run_started_at: UtcTime,
) -> bool {
    &&& report.run_id@ == config.request_prefix@
    &&& report.run_started_at == run_started_at
    &&& report.environment.solana_rpc_url@ == "REDACTED"@
    &&& report.environment.yellowstone_endpoint@ == "REDACTED"@
    &&& text::opt_text(report.environment.jito_block_engine_url) == match config::non_empty(
        config::lookup(env, "JITO_BLOCK_ENGINE_URL"@),
    ) {
        Some(_) => Some("REDACTED"@),
        None => None,
    }
    &&& report.environment.mcp_url@ == "http://"@ + config.mcp_bind_addr@ + "/mcp"@
    &&& report.environment.lifecycle_log_path@ == config.lifecycle_log_path@
    &&& report.environment.agent_log_path@ == config.agent_log_path@
    &&& report.lifecycle_records == lifecycle_records
    &&& report.submissions@.len() == submissions.len()
    &&& forall|i: int|
        0 <= i < submissions.len() ==> is_attached(
            submissions[i],
            #[trigger] report.submissions@[i],
            json::json_views(lifecycle_records@),
        )
    &&& types::is_summary_of(report.summary, report.submissions@)
    &&& report.summary.observed_successes + report.summary.observed_failures
        <= report.summary.total_submissions
}

/// The report on a run: the submissions with their records attached, the counts,
/// and the surroundings without what must not be told.
pub fn assemble_report(
    config: ReportConfig,
    env: &Environment,
    submissions: Vec<SubmissionReport>,
    lifecycle_records: Vec<JsonValue>,
    run_started_at: UtcTime,
) -> (report: HackathonReport)
    ensures
        is_assembled(report, config, env@, submissions@, lifecycle_records, run_started_at),
{
    let mut submissions = submissions;
    let ghost given = submissions@;
    attach_lifecycle_records(&mut submissions, &lifecycle_records);
    let summary = ReportSummary::from_submissions(&submissions);
    proof {
        assert forall|i: int| 0 <= i < submissions@.len() implies !(types::has_property(
            #[trigger] submissions@[i],
            types::Property::ObservedSuccess,
        ) && types::has_property(submissions@[i], types::Property::ObservedFailure)) by {
            assert(is_attached(given[i], submissions@[i], json::json_views(lifecycle_records@)));
            outcomes_exclude_each_other(
                given[i],
                record_of(json::json_views(lifecycle_records@), given[i].request_id@),
            );
        }
        types::observations_exclude_each_other(submissions@, summary);
    }
    let mcp_url = config.mcp_url();
    let jito_block_engine_url = match env.get_non_empty("JITO_BLOCK_ENGINE_URL") {
        Some(_) => Some("REDACTED".to_owned()),
        None => None,
    };
    HackathonReport {
        run_id: config.request_prefix,
        generated_at: utc_now(),
        run_started_at,
        run_finished_at: utc_now(),
        environment: ReportEnvironment {
            solana_rpc_url: "REDACTED".to_owned(),
            yellowstone_endpoint: "REDACTED".to_owned(),
            jito_block_engine_url,
            mcp_url,
            lifecycle_log_path: config.lifecycle_log_path,
            agent_log_path: config.agent_log_path,
        },
        summary,
        submissions,
        lifecycle_records,
    }
}

// ---------------------------------------------------------------------------
// What the validation is for
// ---------------------------------------------------------------------------

/// A validation observes a failure exactly where it names a failure, whatever that
/// is, and a success exactly where it names none and the record has a bundle.
pub proof fn observations_follow_the_named_failure(
    submission: SubmissionReport,
    record: json::JsonView,
)
    ensures
        ({
            let out = validation_of(submission, Some(record));
            &&& out.observed_failure <==> out.failure_classification is Some
            &&& out.observed_success <==> out.failure_classification is None && record.member(
                "bundle_id"@,
            ) is Text
            &&& out.failure_classification is Some <==> record.member("failure"@) is Text
            &&& record.member("failure"@) matches json::JsonView::Text(kind)
                ==> out.failure_classification == Some(kind)
        }),
{
}

/// An expectation is met exactly where what was expected was observed.
pub proof fn expectations_are_met_by_observation(
    submission: SubmissionReport,
    lifecycle: Option<json::JsonView>,
)
    ensures
        ({
            let out = validation_of(submission, lifecycle);
            &&& submission.transaction.expected_outcome == ExpectedOutcome::Success ==> (
            out.expected_outcome_met <==> out.observed_success)
            &&& submission.transaction.expected_outcome == ExpectedOutcome::Failure ==> (
            out.expected_outcome_met <==> out.observed_failure)
        }),
{
}

/// A validation tells what the record says under the names of the record: the
/// slots, the failure and its detail.
pub proof fn validations_tell_what_records_say(
    submission: SubmissionReport,
    record: json::JsonView,
)
    ensures
        ({
            let out = validation_of(submission, Some(record));
            &&& out.matched_lifecycle_record
            &&& out.slot_numbers.submitted_slot == record.member("submitted_slot"@).unsigned()
            &&& out.slot_numbers.leader_slot == record.member("leader_slot"@).unsigned()
            &&& out.slot_numbers.processed_slot == record.member("processed_slot"@).unsigned()
            &&& out.slot_numbers.confirmed_slot == record.member("confirmed_slot"@).unsigned()
            &&& out.slot_numbers.finalized_slot == record.member("finalized_slot"@).unsigned()
            &&& out.failure_classification == record.member("failure"@).text()
            &&& out.failure_detail == record.member("failure_detail"@).text()
            &&& out.commitment_progression == stages_of(record.member("events"@).items())
        }),
{
}

/// A submission without a record is seen neither to succeed nor to fail, and this
/// is noted.
pub proof fn missing_records_show_nothing(submission: SubmissionReport)
    ensures
        ({
            let out = validation_of(submission, None);
            &&& !out.matched_lifecycle_record
            &&& !out.observed_success
            &&& !out.observed_failure
            &&& !out.expected_outcome_met
            &&& out.failure_classification is None && out.failure_detail is None
            &&& out.slot_numbers.submitted_slot is None
            &&& out.commitment_progression.len() == 0
            &&& out.notes == seq!["missing lifecycle record"@]
        }),
{
}

/// The stages of two runs of events are those of the first and then those of the
/// second; an event gives the stage that it names, and none where it names none.
pub proof fn stages_keep_their_order(first: Seq<json::JsonView>, second: Seq<json::JsonView>)
    ensures
        stages_of(first + second) == stages_of(first) + stages_of(second),
        second.len() == 1 ==> stages_of(second) == match second[0].member("stage"@).text() {
            Some(stage) => seq![stage],
            None => Seq::<Seq<char>>::empty(),
        },
        second.len() == 0 ==> stages_of(second).len() == 0,
    decreases second.len(),
{
    if second.len() == 0 {
        assert(first + second =~= first);
        assert(stages_of(first) + stages_of(second) =~= stages_of(first));
    } else {
        assert((first + second).drop_last() =~= first + second.drop_last());
        assert((first + second).last() == second.last());
        stages_keep_their_order(first, second.drop_last());
        assert(stages_of(first + second) =~= stages_of(first) + stages_of(second));
        if second.len() == 1 {
            reveal_with_fuel(stages_of, 2);
            assert(second.drop_last() =~= Seq::<json::JsonView>::empty());
            if let Some(stage) = second[0].member("stage"@).text() {
                assert(Seq::<Seq<char>>::empty().push(stage) =~= seq![stage]);
            }
        }
    }
}

/// Nothing is noted of a record that agrees with its transaction, tells of the
/// slot and of stages, and shows what was expected.
pub proof fn good_records_are_not_noted(submission: SubmissionReport, record: json::JsonView)
    ensures
        ({
            let tx = submission.transaction;
            let out = validation_of(submission, Some(record));
            out.notes.len() == 0 <==> {
                &&& record.member("signature"@) == json::JsonView::Text(tx.signature@)
                &&& record.member("blockhash"@) == json::JsonView::Text(tx.blockhash@)
                &&& record.member("tip_lamports"@) == json::JsonView::Unsigned(tx.tip_lamports)
                &&& record.member("submitted_slot"@) is Unsigned
                &&& out.commitment_progression.len() > 0
                &&& out.expected_outcome_met
            }
        }),
{
}

/// A fault of a record is noted under its own words.
pub proof fn faults_are_noted(submission: SubmissionReport, record: json::JsonView)
    ensures
        ({
            let tx = submission.transaction;
            let out = validation_of(submission, Some(record));
            &&& record.member("signature"@) != json::JsonView::Text(tx.signature@)
                ==> out.notes.contains("signature mismatch"@)
            &&& record.member("blockhash"@) != json::JsonView::Text(tx.blockhash@)
                ==> out.notes.contains("blockhash mismatch"@)
            &&& record.member("tip_lamports"@) != json::JsonView::Unsigned(tx.tip_lamports)
                ==> out.notes.contains("tip_lamports mismatch"@)
            &&& !(record.member("submitted_slot"@) is Unsigned) ==> out.notes.contains(
                "missing submitted_slot"@,
            )
            &&& out.commitment_progression.len() == 0 ==> out.notes.contains(
                "missing commitment events"@,
            )
            &&& !out.expected_outcome_met ==> out.notes.contains(
                "expected outcome was not observed"@,
            )
        }),
{
    let tx = submission.transaction;
    let out = validation_of(submission, Some(record));
    let a = note_if(
        record.member("signature"@).text() != Some(tx.signature@),
        "signature mismatch"@,
    );
    let b = a + note_if(
        record.member("blockhash"@).text() != Some(tx.blockhash@),
        "blockhash mismatch"@,
    );
    let c = b + note_if(
        record.member("tip_lamports"@).unsigned() != Some(tx.tip_lamports),
        "tip_lamports mismatch"@,
    );
    let d = c + note_if(slots_of(record).submitted_slot is None, "missing submitted_slot"@);
    let e = d + note_if(
        stages_of(record.member("events"@).items()).len() == 0,
        "missing commitment events"@,
    );
    let f = e + note_if(!meets(record, tx.expected_outcome), "expected outcome was not observed"@);
    assert(out.notes == f);
    if a.len() > 0 {
        assert(f[0] == "signature mismatch"@);
    }
    if b.len() > a.len() {
        assert(f[a.len() as int] == "blockhash mismatch"@);
    }
    if c.len() > b.len() {
        assert(f[b.len() as int] == "tip_lamports mismatch"@);
    }
    if d.len() > c.len() {
        assert(f[c.len() as int] == "missing submitted_slot"@);
    }
    if e.len() > d.len() {
        assert(f[d.len() as int] == "missing commitment events"@);
    }
    if f.len() > e.len() {
        assert(f[e.len() as int] == "expected outcome was not observed"@);
    }
}

/// A submission has the first record that bears its name, behind records of
/// others.
pub proof fn records_are_matched_by_name(
    before: Seq<json::JsonView>,
    record: json::JsonView,
    after: Seq<json::JsonView>,
    request_id: Seq<char>,
)
    requires
        forall|i: int|
            0 <= i < before.len() ==> (#[trigger] before[i]).member("submission_id"@)
                != json::JsonView::Text(request_id),
    ensures
        record.member("submission_id"@) == json::JsonView::Text(request_id) ==> record_of(
            before + seq![record] + after,
            request_id,
        ) == Some(record),
        record_of(before, request_id) is None,
    decreases before.len(),
{
    let all = before + seq![record] + after;
    if before.len() == 0 {
        assert(all[0] == record);
    } else {
        assert(all[0] == before[0]);
        let rest = before.drop_first();
        assert forall|i: int| 0 <= i < rest.len() implies (#[trigger] rest[i]).member(
            "submission_id"@,
        ) != json::JsonView::Text(request_id) by {
            assert(rest[i] == before[i + 1]);
        }
        records_are_matched_by_name(rest, record, after, request_id);
        assert(all.drop_first() =~= rest + seq![record] + after);
    }
}

/// A submission keeps its name, its transaction and how the host ran, and gets the
/// record that bears its name with what that shows.
pub proof fn attached_records_are_validated(
    before: SubmissionReport,
    after: SubmissionReport,
    records: Seq<json::JsonView>,
)
    requires
        is_attached(before, after, records),
    ensures
        after.request_id == before.request_id,
        after.transaction == before.transaction,
        after.agent == before.agent,
        after.lifecycle is Some <==> record_of(records, before.request_id@) is Some,
        after.lifecycle is Some ==> after.lifecycle->0@ == record_of(
            records,
            before.request_id@,
        )->0,
        after.validation is Some,
        after.validation->0@ == validation_of(before, record_of(records, before.request_id@)),
{
}

/// As many submissions are planned to succeed and to fail as were asked for, the
/// former first, and each is named by the prefix, what is expected and its number
/// from 1.
pub proof fn plans_have_what_was_asked(
    prefix: Seq<char>,
    successes: nat,
    failures: nat,
    i: int,
)
    requires
        0 <= i < successes + failures,
    ensures
        ({
            let plan = planned(prefix, successes, failures);
            &&& plan.len() == successes + failures
            &&& i < successes ==> plan[i].1 == ExpectedOutcome::Success && plan[i].0 == prefix
                + "-success-"@ + text::decimal_two((i + 1) as nat)
            &&& i >= successes ==> plan[i].1 == ExpectedOutcome::Failure && plan[i].0 == prefix
                + "-failure-unfunded-"@ + text::decimal_two((i - successes + 1) as nat)
        }),
{
}

/// A validation shows what it holds.
pub proof fn validations_show_what_they_hold(validation: SubmissionValidation)
    ensures
        validation@.matched_lifecycle_record == validation.matched_lifecycle_record,
        validation@.observed_success == validation.observed_success,
        validation@.observed_failure == validation.observed_failure,
        validation@.expected_outcome_met == validation.expected_outcome_met,
        validation@.slot_numbers == validation.slot_numbers,
        validation@.commitment_progression.len() == validation.commitment_progression@.len(),
        forall|i: int|
            0 <= i < validation.commitment_progression@.len()
                ==> #[trigger] validation@.commitment_progression[i]
                == validation.commitment_progression@[i]@,
        validation@.failure_classification == text::opt_text(validation.failure_classification),
        validation@.failure_detail == text::opt_text(validation.failure_detail),
        validation@.notes.len() == validation.notes@.len(),
        forall|i: int|
            0 <= i < validation.notes@.len() ==> #[trigger] validation@.notes[i]
                == validation.notes@[i]@,
{
}

/// A report names its run and keeps every submission and every record; it tells
/// where its own files are, and of the nodes only that there are some.
pub proof fn reports_hide_the_nodes(
    report: HackathonReport,
    config: ReportConfig,
    env: Seq<(Seq<char>, Seq<char>)>,
    submissions: Seq<SubmissionReport>,
    lifecycle_records: Vec<JsonValue>,
    run_started_at: UtcTime,
)
    requires
        is_assembled(report, config, env, submissions, lifecycle_records, run_started_at),
    ensures
        report.run_id@ == config.request_prefix@,
        report.run_started_at == run_started_at,
        report.environment.solana_rpc_url@ == "REDACTED"@,
        report.environment.yellowstone_endpoint@ == "REDACTED"@,
        report.environment.jito_block_engine_url is Some <==> config::lookup(
            env,
            "JITO_BLOCK_ENGINE_URL"@,
        ) is Some && config::lookup(env, "JITO_BLOCK_ENGINE_URL"@)->0.len() > 0,
        report.environment.jito_block_engine_url is Some
            ==> report.environment.jito_block_engine_url->0@ == "REDACTED"@,
        report.environment.mcp_url@ == "http://"@ + config.mcp_bind_addr@ + "/mcp"@,
        report.environment.lifecycle_log_path@ == config.lifecycle_log_path@,
        report.environment.agent_log_path@ == config.agent_log_path@,
        report.lifecycle_records == lifecycle_records,
        report.submissions@.len() == submissions.len(),
        forall|i: int|
            0 <= i < submissions.len() ==> (#[trigger] report.submissions@[i]).request_id@
                == submissions[i].request_id@,
{
    assert forall|i: int| 0 <= i < submissions.len() implies (#[trigger] report.submissions@[i]).request_id@
        == submissions[i].request_id@ by {
        assert(is_attached(
            submissions[i],
            report.submissions@[i],
            json::json_views(lifecycle_records@),
        ));
    }
}

} // verus!
