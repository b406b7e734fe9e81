//! What became of a submission: its commitment stages, its latencies and its
//! failure.

use crate::agent;
use crate::agent::OperationalDecision;
use crate::json::JsonValue;
use crate::solana;
use crate::solana::{signature_to_text, Signature};
use crate::text;
use crate::text::{contains_chars, to_lower};
use crate::time;
use crate::time::{delta_ms, utc_now, UtcTime};
use vstd::prelude::*;

verus! {

/// How far a submission has come.
#[derive(Clone, Copy, Debug, PartialEq, Eq, Structural)]
pub enum CommitmentStage {
    Submitted,
    Accepted,
    Processed,
    Confirmed,
    Finalized,
}

/// Why a submission failed.
#[derive(Clone, Copy, Debug, PartialEq, Eq, Structural)]
pub enum FailureKind {
    ExpiredBlockhash,
    /// The payer has no funds.
    InsufficientFunds,
    FeeTooLow,
    ComputeExceeded,
    BundleFailure,
    JitoRateLimited,
    SimulationFailure,
    Timeout,
    Unknown,
}

/// Whether a message holds a phrase, whatever the case of its ASCII letters.
pub open spec fn mentions(raw: Seq<char>, phrase: Seq<char>) -> bool {
    text::contains_text(text::lower(raw), phrase)
}

/// The failure that a message tells of: the first kind in the given order whose
/// phrases it mentions.
pub open spec fn failure_of(raw: Seq<char>) -> FailureKind {
    if mentions(raw, "blockhash"@) || mentions(raw, "block height exceeded"@) {
        FailureKind::ExpiredBlockhash
    } else if mentions(raw, "prior credit"@) {
        FailureKind::InsufficientFunds
    } else if mentions(raw, "bid"@) || mentions(raw, "tip"@) || mentions(raw, "fee"@) {
        FailureKind::FeeTooLow
    } else if mentions(raw, "compute"@) || mentions(raw, "cu"@) {
        FailureKind::ComputeExceeded
    } else if mentions(raw, "simulation"@) {
        FailureKind::SimulationFailure
    } else if mentions(raw, "rate"@) || mentions(raw, "resource exhausted"@) {
        FailureKind::JitoRateLimited
    } else if mentions(raw, "timeout"@) {
        FailureKind::Timeout
    } else if raw.len() > 0 {
        FailureKind::BundleFailure
    } else {
        FailureKind::Unknown
    }
}

impl FailureKind {
    /// The failure that a message tells of.
    pub fn classify(raw: &str) -> (kind: FailureKind)
        ensures
            kind == failure_of(raw@),
    {
        let lower = to_lower(raw);
        if contains_chars(&lower, "blockhash") || contains_chars(&lower, "block height exceeded") {
            FailureKind::ExpiredBlockhash
        } else if contains_chars(&lower, "prior credit") {
            FailureKind::InsufficientFunds
        } else if contains_chars(&lower, "bid") || contains_chars(&lower, "tip") || contains_chars(
            &lower,
            "fee",
        ) {
            FailureKind::FeeTooLow
        } else if contains_chars(&lower, "compute") || contains_chars(&lower, "cu") {
            FailureKind::ComputeExceeded
        } else if contains_chars(&lower, "simulation") {
            FailureKind::SimulationFailure
        } else if contains_chars(&lower, "rate") || contains_chars(&lower, "resource exhausted") {
            FailureKind::JitoRateLimited
        } else if contains_chars(&lower, "timeout") {
            FailureKind::Timeout
        } else if !raw.is_empty() {
            FailureKind::BundleFailure
        } else {
            FailureKind::Unknown
        }
    }
}

/// The case of a message's ASCII letters does not matter to its class.
pub proof fn classification_ignores_case(one: Seq<char>, other: Seq<char>)
    requires
        text::lower(one) == text::lower(other),
    ensures
        failure_of(one) == failure_of(other),
{
    assert(one.len() == text::lower(one).len());
    assert(other.len() == text::lower(other).len());
}

/// Only a message that says nothing is left unclassified.
pub proof fn only_silence_is_unknown(raw: Seq<char>)
    ensures
        failure_of(raw) == FailureKind::Unknown <==> raw.len() == 0,
{
    if raw.len() == 0 {
        reveal_strlit("blockhash");
        reveal_strlit("block height exceeded");
        reveal_strlit("prior credit");
        reveal_strlit("bid");
        reveal_strlit("tip");
        reveal_strlit("fee");
        reveal_strlit("compute");
        reveal_strlit("cu");
        reveal_strlit("simulation");
        reveal_strlit("rate");
        reveal_strlit("resource exhausted");
        reveal_strlit("timeout");
        assert(text::lower(raw).len() == 0);
    }
}

/// A debit without a prior credit is told apart from every other failure but an
/// expired blockhash, also where it is reported inside one.
pub proof fn missing_funds_are_told_apart(raw: Seq<char>)
    requires
        mentions(raw, "prior credit"@),
        !mentions(raw, "blockhash"@),
        !mentions(raw, "block height exceeded"@),
    ensures
        failure_of(raw) == FailureKind::InsufficientFunds,
{
}

/// Something that was seen of a submission.
#[derive(Clone, Debug)]
pub struct StageEvent {
    pub stage: CommitmentStage,
    pub at: UtcTime,
    pub slot: Option<u64>,
    pub detail: Option<String>,
}

/// What a stage event holds.
pub ghost struct EventView {
    pub stage: CommitmentStage,
    pub at: UtcTime,
    pub slot: Option<u64>,
    pub detail: Option<Seq<char>>,
}

impl View for StageEvent {
    type V = EventView;

    open spec fn view(&self) -> EventView {
        EventView {
            stage: self.stage,
            at: self.at,
            slot: self.slot,
            detail: text::opt_text(self.detail),
        }
    }
}

/// What is known of one attempt to submit a transaction.
#[derive(Clone, Debug)]
pub struct LifecycleRecord {
    pub submission_id: String,
    pub attempt: u32,
    pub bundle_id: Option<String>,
    pub signature: String,
    pub tip_lamports: u64,
    pub submitted_slot: Option<u64>,
    pub leader_slot: Option<u64>,
    pub blockhash: String,
    pub last_valid_block_height: Option<u64>,
    pub submitted_at: UtcTime,
    pub processed_at: Option<UtcTime>,
    pub confirmed_at: Option<UtcTime>,
    pub finalized_at: Option<UtcTime>,
    pub processed_slot: Option<u64>,
    pub confirmed_slot: Option<u64>,
    pub finalized_slot: Option<u64>,
    pub processed_latency_ms: Option<u128>,
    pub confirmed_latency_ms: Option<u128>,
    pub finalized_latency_ms: Option<u128>,
    pub failure: Option<FailureKind>,
    pub failure_detail: Option<String>,
    /// What was decided about another attempt, once that was.
    pub agent_decision: Option<OperationalDecision>,
    pub events: Vec<StageEvent>,
}

/// What a lifecycle record holds.
pub ghost struct RecordView {
    pub submission_id: Seq<char>,
    pub attempt: u32,
    pub bundle_id: Option<Seq<char>>,
    pub signature: Seq<char>,
    pub tip_lamports: u64,
    pub submitted_slot: Option<u64>,
    pub leader_slot: Option<u64>,
    pub blockhash: Seq<char>,
    pub last_valid_block_height: Option<u64>,
    pub submitted_at: UtcTime,
    pub processed_at: Option<UtcTime>,
    pub confirmed_at: Option<UtcTime>,
    pub finalized_at: Option<UtcTime>,
    pub processed_slot: Option<u64>,
    pub confirmed_slot: Option<u64>,
    pub finalized_slot: Option<u64>,
    pub processed_latency_ms: Option<nat>,
    pub confirmed_latency_ms: Option<nat>,
    pub finalized_latency_ms: Option<nat>,
    pub failure: Option<FailureKind>,
    pub failure_detail: Option<Seq<char>>,
    pub agent_decision: Option<agent::DecisionView>,
    pub events: Seq<EventView>,
}

/// What an optional decision holds.
pub open spec fn opt_decision(decision: Option<OperationalDecision>) -> Option<
    agent::DecisionView,
> {
    match decision {
        Some(d) => Some(d@),
        None => None,
    }
}

/// An optional count of milliseconds as a number.
pub open spec fn opt_ms(ms: Option<u128>) -> Option<nat> {
    match ms {
        Some(n) => Some(n as nat),
        None => None,
    }
}

impl View for LifecycleRecord {
    type V = RecordView;

    open spec fn view(&self) -> RecordView {
        RecordView {
            submission_id: self.submission_id@,
            attempt: self.attempt,
            bundle_id: text::opt_text(self.bundle_id),
            signature: self.signature@,
            tip_lamports: self.tip_lamports,
            submitted_slot: self.submitted_slot,
            leader_slot: self.leader_slot,
            blockhash: self.blockhash@,
            last_valid_block_height: self.last_valid_block_height,
            submitted_at: self.submitted_at,
            processed_at: self.processed_at,
            confirmed_at: self.confirmed_at,
            finalized_at: self.finalized_at,
            processed_slot: self.processed_slot,
            confirmed_slot: self.confirmed_slot,
            finalized_slot: self.finalized_slot,
            processed_latency_ms: opt_ms(self.processed_latency_ms),
            confirmed_latency_ms: opt_ms(self.confirmed_latency_ms),
            finalized_latency_ms: opt_ms(self.finalized_latency_ms),
            failure: self.failure,
            failure_detail: text::opt_text(self.failure_detail),
            agent_decision: opt_decision(self.agent_decision),
            events: self.events@.map_values(|e: StageEvent| e@),
        }
    }
}

/// The first of two values that is there.
pub open spec fn either<T>(first: Option<T>, second: Option<T>) -> Option<T> {
    if first is Some {
        first
    } else {
        second
    }
}

/// The first event of a stage.
pub open spec fn first_of(events: Seq<EventView>, stage: CommitmentStage) -> Option<EventView>
    decreases events.len(),
{
    if events.len() == 0 {
        None
    } else {
        either(
            first_of(events.drop_last(), stage),
            if events.last().stage == stage {
                Some(events.last())
            } else {
                None
            },
        )
    }
}

/// When an optional event came.
pub open spec fn time_of(event: Option<EventView>) -> Option<UtcTime> {
    match event {
        Some(e) => Some(e.at),
        None => None,
    }
}

/// The delay from one moment to an optional second.
pub open spec fn latency_of(start: UtcTime, end: Option<UtcTime>) -> Option<nat> {
    match end {
        Some(at) => Some(time::elapsed_ms(start, at)),
        None => None,
    }
}

impl RecordView {
    /// The record after one more stage.
    ///
    /// The first event of a stage stamps its time, its latency and its slot. A
    /// confirmation without a slot takes the processed one; a finalization
    /// without a slot takes the confirmed one, or else the processed one.
    pub open spec fn with_stage(
        self,
        stage: CommitmentStage,
        slot: Option<u64>,
        detail: Option<Seq<char>>,
        at: UtcTime,
    ) -> RecordView {
        let latency = Some(time::elapsed_ms(self.submitted_at, at));
        let events = self.events.push(EventView { stage, at, slot, detail });
        if stage == CommitmentStage::Processed && self.processed_at is None {
            RecordView {
                processed_at: Some(at),
                processed_slot: slot,
                processed_latency_ms: latency,
                events,
                ..self
            }
        } else if stage == CommitmentStage::Confirmed && self.confirmed_at is None {
            RecordView {
                confirmed_at: Some(at),
                confirmed_slot: either(slot, self.processed_slot),
                confirmed_latency_ms: latency,
                events,
                ..self
            }
        } else if stage == CommitmentStage::Finalized && self.finalized_at is None {
            RecordView {
                finalized_at: Some(at),
                finalized_slot: either(either(slot, self.confirmed_slot), self.processed_slot),
                finalized_latency_ms: latency,
                events,
                ..self
            }
        } else {
            RecordView { events, ..self }
        }
    }

    /// The record after a failure.
    pub open spec fn with_failure(self, kind: FailureKind, detail: Seq<char>) -> RecordView {
        RecordView { failure: Some(kind), failure_detail: Some(detail), ..self }
    }

    /// The record after a decision about another attempt.
    pub open spec fn with_decision(self, decision: agent::DecisionView) -> RecordView {
        RecordView { agent_decision: Some(decision), ..self }
    }

    /// Whether the record's fields agree with each other and with its events.
    pub open spec fn wf(self) -> bool {
        &&& self.events.len() > 0
        &&& self.events[0].stage == CommitmentStage::Submitted
        &&& self.events[0].at == self.submitted_at
        &&& self.events[0].slot == self.submitted_slot
        &&& self.processed_at == time_of(first_of(self.events, CommitmentStage::Processed))
        &&& self.confirmed_at == time_of(first_of(self.events, CommitmentStage::Confirmed))
        &&& self.finalized_at == time_of(first_of(self.events, CommitmentStage::Finalized))
        &&& self.processed_latency_ms == latency_of(self.submitted_at, self.processed_at)
        &&& self.confirmed_latency_ms == latency_of(self.submitted_at, self.confirmed_at)
        &&& self.finalized_latency_ms == latency_of(self.submitted_at, self.finalized_at)
        &&& self.processed_slot is Some ==> self.processed_at is Some
        &&& self.confirmed_slot is Some ==> self.confirmed_at is Some
        &&& self.finalized_slot is Some ==> self.finalized_at is Some
        &&& self.failure is Some <==> self.failure_detail is Some
    }

    /// Whether the submission was confirmed or finalized.
    pub open spec fn succeeded(self) -> bool {
        self.finalized_at is Some || self.confirmed_at is Some
    }
}

/// The record of an attempt that has just been submitted.
pub open spec fn fresh_record(
    submission_id: Seq<char>,
    attempt: u32,
    signature: Seq<char>,
    tip_lamports: u64,
    submitted_slot: Option<u64>,
    leader_slot: Option<u64>,
    blockhash: Seq<char>,
    last_valid_block_height: Option<u64>,
    at: UtcTime,
) -> RecordView {
    RecordView {
        submission_id,
        attempt,
        bundle_id: None,
        signature,
        tip_lamports,
        submitted_slot,
        leader_slot,
        blockhash,
        last_valid_block_height,
        submitted_at: at,
        processed_at: None,
        confirmed_at: None,
        finalized_at: None,
        processed_slot: None,
        confirmed_slot: None,
        finalized_slot: None,
        processed_latency_ms: None,
        confirmed_latency_ms: None,
        finalized_latency_ms: None,
        failure: None,
        failure_detail: None,
        agent_decision: None,
        events: seq![
            EventView {
                stage: CommitmentStage::Submitted,
                at,
                slot: submitted_slot,
                detail: None,
            },
        ],
    }
}

/// The view of a list of events grows with the list.
proof fn event_views_push(events: Seq<StageEvent>, event: StageEvent)
    ensures
        events.push(event).map_values(|e: StageEvent| e@) == events.map_values(
            |e: StageEvent| e@,
        ).push(event@),
{
    assert(events.push(event).map_values(|e: StageEvent| e@) =~= events.map_values(
        |e: StageEvent| e@,
    ).push(event@));
}

impl LifecycleRecord {
    /// The record of an attempt submitted now.
    pub fn new(
        submission_id: String,
        attempt: u32,
        signature: Signature,
        tip_lamports: u64,
        submitted_slot: Option<u64>,
        leader_slot: Option<u64>,
        blockhash: String,
        last_valid_block_height: Option<u64>,
    ) -> (record: LifecycleRecord)
        ensures
            record@ == fresh_record(
                submission_id@,
                attempt,
                solana::signature_text(signature@),
                tip_lamports,
                submitted_slot,
                leader_slot,
                blockhash@,
                last_valid_block_height,
                record.submitted_at,
            ),
            record@.wf(),
    {
        LifecycleRecord::new_at(
            submission_id,
            attempt,
            signature,
            tip_lamports,
            submitted_slot,
            leader_slot,
            blockhash,
            last_valid_block_height,
            utc_now(),
        )
    }

    /// The record of an attempt submitted at a given moment.
    pub fn new_at(
        submission_id: String,
        attempt: u32,
        signature: Signature,
        tip_lamports: u64,
        submitted_slot: Option<u64>,
        leader_slot: Option<u64>,
        blockhash: String,
        last_valid_block_height: Option<u64>,
        at: UtcTime,
    ) -> (record: LifecycleRecord)
        ensures
            record@ == fresh_record(
                submission_id@,
                attempt,
                solana::signature_text(signature@),
                tip_lamports,
                submitted_slot,
                leader_slot,
                blockhash@,
                last_valid_block_height,
                at,
            ),
            record@.wf(),
    {
        let mut events: Vec<StageEvent> = Vec::new();
        events.push(
            StageEvent { stage: CommitmentStage::Submitted, at, slot: submitted_slot, detail: None },
        );
        let record = LifecycleRecord {
            submission_id,
            attempt,
            bundle_id: None,
            signature: signature_to_text(&signature),
            tip_lamports,
            submitted_slot,
            leader_slot,
            blockhash,
            last_valid_block_height,
            submitted_at: at,
            processed_at: None,
            confirmed_at: None,
            finalized_at: None,
            processed_slot: None,
            confirmed_slot: None,
            finalized_slot: None,
            processed_latency_ms: None,
            confirmed_latency_ms: None,
            finalized_latency_ms: None,
            failure: None,
            failure_detail: None,
            agent_decision: None,
            events,
        };
        proof {
            let fresh = fresh_record(
                submission_id@,
                attempt,
                solana::signature_text(signature@),
                tip_lamports,
                submitted_slot,
                leader_slot,
                blockhash@,
                last_valid_block_height,
                at,
            );
            assert(record@.events =~= fresh.events);
            fresh_record_is_wf(
                submission_id@,
                attempt,
                solana::signature_text(signature@),
                tip_lamports,
                submitted_slot,
                leader_slot,
                blockhash@,
                last_valid_block_height,
                at,
            );
        }
        record
    }

    /// Notes a decision about another attempt.
    pub fn decide(&mut self, decision: OperationalDecision)
        ensures
            final(self)@ == old(self)@.with_decision(decision@),
            old(self)@.wf() ==> final(self)@.wf(),
    {
        self.agent_decision = Some(decision);
    }

    /// Adds a stage that is seen now.
    pub fn add_stage(&mut self, stage: CommitmentStage, slot: Option<u64>, detail: Option<String>)
        ensures
            final(self)@ == old(self)@.with_stage(
                stage,
                slot,
                text::opt_text(detail),
                final(self)@.events.last().at,
            ),
            final(self)@.events.len() == old(self)@.events.len() + 1,
            old(self)@.wf() ==> final(self)@.wf(),
    {
        let now = utc_now();
        self.add_stage_at(stage, slot, detail, now);
    }

    /// Adds a stage that was seen at a given moment.
    pub fn add_stage_at(
        &mut self,
        stage: CommitmentStage,
        slot: Option<u64>,
        detail: Option<String>,
        now: UtcTime,
    )
        ensures
            final(self)@ == old(self)@.with_stage(stage, slot, text::opt_text(detail), now),
            final(self)@.events.last().at == now,
            final(self)@.events.len() == old(self)@.events.len() + 1,
            old(self)@.wf() ==> final(self)@.wf(),
    {
        let ghost before = self@;
        match stage {
            CommitmentStage::Submitted => {},
            CommitmentStage::Accepted => {},
            CommitmentStage::Processed => {
                if self.processed_at.is_none() {
                    self.processed_at = Some(now);
                    self.processed_slot = slot;
                    self.processed_latency_ms = Some(delta_ms(self.submitted_at, now));
                }
            },
            CommitmentStage::Confirmed => {
                if self.confirmed_at.is_none() {
                    self.confirmed_at = Some(now);
                    self.confirmed_slot = first_some(slot, self.processed_slot);
                    self.confirmed_latency_ms = Some(delta_ms(self.submitted_at, now));
                }
            },
            CommitmentStage::Finalized => {
                if self.finalized_at.is_none() {
                    self.finalized_at = Some(now);
                    self.finalized_slot = first_some(
                        first_some(slot, self.confirmed_slot),
                        self.processed_slot,
                    );
                    self.finalized_latency_ms = Some(delta_ms(self.submitted_at, now));
                }
            },
        }
        let event = StageEvent { stage, at: now, slot, detail };
        proof {
            event_views_push(self.events@, event);
            if before.wf() {
                stages_keep_wf(before, stage, slot, text::opt_text(detail), now);
            }
        }
        self.events.push(event);
    }

    /// Marks the attempt as failed.
    pub fn fail(&mut self, kind: FailureKind, detail: String)
        ensures
            final(self)@ == old(self)@.with_failure(kind, detail@),
            old(self)@.wf() ==> final(self)@.wf(),
    {
        self.failure = Some(kind);
        self.failure_detail = Some(detail);
    }

    /// Whether the attempt was confirmed or finalized.
    pub fn is_terminal_success(&self) -> (done: bool)
        ensures
            done == self@.succeeded(),
    {
        self.finalized_at.is_some() || self.confirmed_at.is_some()
    }
}

/// The first of two slots that is there.
fn first_some(first: Option<u64>, second: Option<u64>) -> (out: Option<u64>)
    ensures
        out == either(first, second),
{
    match first {
        Some(slot) => Some(slot),
        None => second,
    }
}

/// A fresh record is well formed.
pub proof fn fresh_record_is_wf(
    submission_id: Seq<char>,
    attempt: u32,
    signature: Seq<char>,
    tip_lamports: u64,
    submitted_slot: Option<u64>,
    leader_slot: Option<u64>,
    blockhash: Seq<char>,
    last_valid_block_height: Option<u64>,
    at: UtcTime,
)
    ensures
        fresh_record(
            submission_id,
            attempt,
            signature,
            tip_lamports,
            submitted_slot,
            leader_slot,
            blockhash,
            last_valid_block_height,
            at,
        ).wf(),
{
    reveal_with_fuel(first_of, 2);
}

/// A stage keeps a record well formed.
pub proof fn stages_keep_wf(
    record: RecordView,
    stage: CommitmentStage,
    slot: Option<u64>,
    detail: Option<Seq<char>>,
    at: UtcTime,
)
    requires
        record.wf(),
    ensures
        record.with_stage(stage, slot, detail, at).wf(),
{
    let event = EventView { stage, at, slot, detail };
    assert(record.events.push(event).drop_last() =~= record.events);
    assert(record.events.push(event).last() == event);
}

/// What a record says of a stage does not change once it has been said, and
/// its events are only added to.
pub proof fn first_stamps_stay(
    record: RecordView,
    stage: CommitmentStage,
    slot: Option<u64>,
    detail: Option<Seq<char>>,
    at: UtcTime,
)
    ensures
        ({
            let after = record.with_stage(stage, slot, detail, at);
            &&& record.processed_at is Some ==> after.processed_at == record.processed_at
                && after.processed_slot == record.processed_slot && after.processed_latency_ms
                == record.processed_latency_ms
            &&& record.confirmed_at is Some ==> after.confirmed_at == record.confirmed_at
                && after.confirmed_slot == record.confirmed_slot && after.confirmed_latency_ms
                == record.confirmed_latency_ms
            &&& record.finalized_at is Some ==> after.finalized_at == record.finalized_at
                && after.finalized_slot == record.finalized_slot && after.finalized_latency_ms
                == record.finalized_latency_ms
            &&& record.events.is_prefix_of(after.events)
            &&& after.events.len() == record.events.len() + 1
            &&& record.succeeded() ==> after.succeeded()
        }),
{
}

/// Of two stages the one that was seen later took no less time.
pub proof fn later_stages_take_longer(record: RecordView)
    requires
        record.wf(),
        record.processed_at is Some,
        record.confirmed_at is Some,
        record.processed_at->0.as_nanos() <= record.confirmed_at->0.as_nanos(),
    ensures
        record.processed_latency_ms is Some,
        record.confirmed_latency_ms is Some,
        record.processed_latency_ms->0 <= record.confirmed_latency_ms->0,
{
    time::elapsed_grows_with_later_end(
        record.submitted_at,
        record.processed_at->0,
        record.confirmed_at->0,
    );
}

/// No stage makes a failure, ends one, or touches what was known at submission.
pub proof fn stages_leave_the_rest(
    record: RecordView,
    stage: CommitmentStage,
    slot: Option<u64>,
    detail: Option<Seq<char>>,
    at: UtcTime,
)
    ensures
        ({
            let after = record.with_stage(stage, slot, detail, at);
            &&& after.failure == record.failure
            &&& after.failure_detail == record.failure_detail
            &&& after.submission_id == record.submission_id
            &&& after.attempt == record.attempt
            &&& after.bundle_id == record.bundle_id
            &&& after.signature == record.signature
            &&& after.tip_lamports == record.tip_lamports
            &&& after.submitted_slot == record.submitted_slot
            &&& after.leader_slot == record.leader_slot
            &&& after.blockhash == record.blockhash
            &&& after.submitted_at == record.submitted_at
        }),
{
}

/// A decision of the agent, with what it was made from and what came of it.
#[derive(Debug)]
pub struct AgentAuditRecord {
    pub request_id: String,
    pub attempt: u32,
    pub at: UtcTime,
    pub input_state: JsonValue,
    pub decision: JsonValue,
    pub policy: JsonValue,
    pub outcome: Option<JsonValue>,
}

/// A message is taken for an expired blockhash exactly where it speaks of one,
/// whatever else it says.
pub proof fn expired_blockhashes_come_first(raw: Seq<char>)
    ensures
        ({
            let low = text::lower(raw);
            failure_of(raw) == FailureKind::ExpiredBlockhash <==> {
                &&& text::contains_text(low, "blockhash"@)
                    || text::contains_text(low, "block height exceeded"@)
            }
        }),
{
}

/// A message is taken for missing funds exactly where it speaks of a prior credit
/// and of no expired blockhash, whatever else it says.
pub proof fn missing_funds_come_second(raw: Seq<char>)
    ensures
        ({
            let low = text::lower(raw);
            failure_of(raw) == FailureKind::InsufficientFunds <==> {
                &&& text::contains_text(low, "prior credit"@)
                &&& !text::contains_text(low, "blockhash"@)
                &&& !text::contains_text(low, "block height exceeded"@)
            }
        }),
{
}

/// A message is taken for a fee that is too low exactly where it speaks of a bid,
/// a tip or a fee and of nothing that comes first, whatever else it says.
pub proof fn low_fees_come_third(raw: Seq<char>)
    ensures
        ({
            let low = text::lower(raw);
            failure_of(raw) == FailureKind::FeeTooLow <==> {
                &&& text::contains_text(low, "bid"@)
                    || text::contains_text(low, "tip"@)
                    || text::contains_text(low, "fee"@)
                &&& !text::contains_text(low, "blockhash"@)
                &&& !text::contains_text(low, "block height exceeded"@)
                &&& !text::contains_text(low, "prior credit"@)
            }
        }),
{
}

/// A message is taken for a compute limit exactly where it speaks of one and of
/// nothing that comes first, whatever else it says.
pub proof fn compute_limits_come_fourth(raw: Seq<char>)
    ensures
        ({
            let low = text::lower(raw);
            failure_of(raw) == FailureKind::ComputeExceeded <==> {
                &&& text::contains_text(low, "compute"@)
                    || text::contains_text(low, "cu"@)
                &&& !text::contains_text(low, "blockhash"@)
                &&& !text::contains_text(low, "block height exceeded"@)
                &&& !text::contains_text(low, "prior credit"@)
                &&& !text::contains_text(low, "bid"@)
                &&& !text::contains_text(low, "tip"@)
                &&& !text::contains_text(low, "fee"@)
            }
        }),
{
}

/// A message is taken for a failed simulation only where it speaks of nothing that
/// a simulation may report.
pub proof fn simulations_come_fifth(raw: Seq<char>)
    ensures
        ({
            let low = text::lower(raw);
            failure_of(raw) == FailureKind::SimulationFailure <==> {
                &&& text::contains_text(low, "simulation"@)
                &&& !text::contains_text(low, "blockhash"@)
                &&& !text::contains_text(low, "block height exceeded"@)
                &&& !text::contains_text(low, "prior credit"@)
                &&& !text::contains_text(low, "bid"@)
                &&& !text::contains_text(low, "tip"@)
                &&& !text::contains_text(low, "fee"@)
                &&& !text::contains_text(low, "compute"@)
                &&& !text::contains_text(low, "cu"@)
            }
        }),
{
}

/// A message is taken for a rate limit exactly where it speaks of one and of
/// nothing that comes first.
pub proof fn rate_limits_come_sixth(raw: Seq<char>)
    ensures
        ({
            let low = text::lower(raw);
            failure_of(raw) == FailureKind::JitoRateLimited <==> {
                &&& text::contains_text(low, "rate"@)
                    || text::contains_text(low, "resource exhausted"@)
                &&& !text::contains_text(low, "blockhash"@)
                &&& !text::contains_text(low, "block height exceeded"@)
                &&& !text::contains_text(low, "prior credit"@)
                &&& !text::contains_text(low, "bid"@)
                &&& !text::contains_text(low, "tip"@)
                &&& !text::contains_text(low, "fee"@)
                &&& !text::contains_text(low, "compute"@)
                &&& !text::contains_text(low, "cu"@)
                &&& !text::contains_text(low, "simulation"@)
            }
        }),
{
}

/// A message is taken for a timeout exactly where it speaks of one and of nothing
/// that comes first.
pub proof fn timeouts_come_seventh(raw: Seq<char>)
    ensures
        ({
            let low = text::lower(raw);
            failure_of(raw) == FailureKind::Timeout <==> {
                &&& text::contains_text(low, "timeout"@)
                &&& !text::contains_text(low, "blockhash"@)
                &&& !text::contains_text(low, "block height exceeded"@)
                &&& !text::contains_text(low, "prior credit"@)
                &&& !text::contains_text(low, "bid"@)
                &&& !text::contains_text(low, "tip"@)
                &&& !text::contains_text(low, "fee"@)
                &&& !text::contains_text(low, "compute"@)
                &&& !text::contains_text(low, "cu"@)
                &&& !text::contains_text(low, "simulation"@)
                &&& !text::contains_text(low, "rate"@)
                &&& !text::contains_text(low, "resource exhausted"@)
            }
        }),
{
}

/// A message that speaks of nothing known is a failure of the bundle, unless it
/// is empty, which leaves the failure unknown.
pub proof fn other_messages_tell_of_the_bundle(raw: Seq<char>)
    ensures
        ({
            let low = text::lower(raw);
            failure_of(raw) == FailureKind::BundleFailure <==> {
                &&& raw.len() > 0
                &&& !text::contains_text(low, "blockhash"@)
                &&& !text::contains_text(low, "block height exceeded"@)
                &&& !text::contains_text(low, "prior credit"@)
                &&& !text::contains_text(low, "bid"@)
                &&& !text::contains_text(low, "tip"@)
                &&& !text::contains_text(low, "fee"@)
                &&& !text::contains_text(low, "compute"@)
                &&& !text::contains_text(low, "cu"@)
                &&& !text::contains_text(low, "simulation"@)
                &&& !text::contains_text(low, "rate"@)
                &&& !text::contains_text(low, "resource exhausted"@)
                &&& !text::contains_text(low, "timeout"@)
            }
        }),
        failure_of(raw) == FailureKind::Unknown <==> raw.len() == 0,
{
    only_silence_is_unknown(raw);
}

/// A stage is noted as the last event, with its slot, its detail and its moment,
/// behind all that was noted before.
pub proof fn stages_are_noted_in_order(
    record: RecordView,
    stage: CommitmentStage,
    slot: Option<u64>,
    detail: Option<Seq<char>>,
    at: UtcTime,
)
    ensures
        ({
            let after = record.with_stage(stage, slot, detail, at);
            &&& after.events.len() == record.events.len() + 1
            &&& forall|i: int|
                0 <= i < record.events.len() ==> #[trigger] after.events[i] == record.events[i]
            &&& after.events.last().stage == stage
            &&& after.events.last().slot == slot
            &&& after.events.last().detail == detail
            &&& after.events.last().at == at
        }),
{
}

/// The first time that a submission is seen processed is stamped with the moment,
/// the slot and the milliseconds since the submission; no other stage stamps it.
pub proof fn processing_is_stamped_once(
    record: RecordView,
    stage: CommitmentStage,
    slot: Option<u64>,
    detail: Option<Seq<char>>,
    at: UtcTime,
)
    ensures
        ({
            let after = record.with_stage(stage, slot, detail, at);
            if stage == CommitmentStage::Processed && record.processed_at is None {
                &&& after.processed_at == Some(at)
                &&& after.processed_slot == slot
                &&& after.processed_latency_ms == Some(time::elapsed_ms(record.submitted_at, at))
            } else {
                &&& after.processed_at == record.processed_at
                &&& after.processed_slot == record.processed_slot
                &&& after.processed_latency_ms == record.processed_latency_ms
            }
        }),
{
}

/// The first time that a submission is seen confirmed is stamped in the same way;
/// without a slot of its own it has the slot in which it was processed.
pub proof fn confirmation_is_stamped_once(
    record: RecordView,
    stage: CommitmentStage,
    slot: Option<u64>,
    detail: Option<Seq<char>>,
    at: UtcTime,
)
    ensures
        ({
            let after = record.with_stage(stage, slot, detail, at);
            if stage == CommitmentStage::Confirmed && record.confirmed_at is None {
                &&& after.confirmed_at == Some(at)
                &&& slot is Some ==> after.confirmed_slot == slot
                &&& slot is None ==> after.confirmed_slot == record.processed_slot
                &&& after.confirmed_latency_ms == Some(time::elapsed_ms(record.submitted_at, at))
            } else {
                &&& after.confirmed_at == record.confirmed_at
                &&& after.confirmed_slot == record.confirmed_slot
                &&& after.confirmed_latency_ms == record.confirmed_latency_ms
            }
        }),
{
}

/// The first time that a submission is seen finalized is stamped in the same way;
/// without a slot of its own it has the slot in which it was confirmed, or else
/// the one in which it was processed.
pub proof fn finalization_is_stamped_once(
    record: RecordView,
    stage: CommitmentStage,
    slot: Option<u64>,
    detail: Option<Seq<char>>,
    at: UtcTime,
)
    ensures
        ({
            let after = record.with_stage(stage, slot, detail, at);
            if stage == CommitmentStage::Finalized && record.finalized_at is None {
                &&& after.finalized_at == Some(at)
                &&& slot is Some ==> after.finalized_slot == slot
                &&& slot is None && record.confirmed_slot is Some ==> after.finalized_slot
                    == record.confirmed_slot
                &&& slot is None && record.confirmed_slot is None ==> after.finalized_slot
                    == record.processed_slot
                &&& after.finalized_latency_ms == Some(time::elapsed_ms(record.submitted_at, at))
            } else {
                &&& after.finalized_at == record.finalized_at
                &&& after.finalized_slot == record.finalized_slot
                &&& after.finalized_latency_ms == record.finalized_latency_ms
            }
        }),
{
}

/// An attempt has succeeded exactly where it was confirmed or finalized: neither
/// processing nor the lack of a failure is enough.
pub proof fn success_is_confirmation(record: RecordView)
    ensures
        record.confirmed_at is Some ==> record.succeeded(),
        record.finalized_at is Some ==> record.succeeded(),
        record.confirmed_at is None && record.finalized_at is None ==> !record.succeeded(),
{
}

/// A failure is noted with its kind and what was said of it, takes the place of
/// an earlier one, and changes nothing else of a record.
pub proof fn failures_are_noted_as_told(record: RecordView, kind: FailureKind, detail: Seq<char>)
    ensures
        ({
            let after = record.with_failure(kind, detail);
            &&& after.failure == Some(kind)
            &&& after.failure_detail == Some(detail)
            &&& after == (RecordView {
                failure: after.failure,
                failure_detail: after.failure_detail,
                ..record
            })
        }),
{
}

/// A decision is noted as it was made and changes nothing else of a record.
pub proof fn decisions_are_noted_as_made(record: RecordView, decision: agent::DecisionView)
    ensures
        ({
            let after = record.with_decision(decision);
            &&& after.agent_decision == Some(decision)
            &&& after == (RecordView { agent_decision: after.agent_decision, ..record })
        }),
{
}

/// A fresh record tells what was known at the submission and nothing of what
/// comes after it.
pub proof fn fresh_records_tell_of_the_submission(
    submission_id: Seq<char>,
    attempt: u32,
    signature: Seq<char>,
    tip_lamports: u64,
    submitted_slot: Option<u64>,
    leader_slot: Option<u64>,
    blockhash: Seq<char>,
    last_valid_block_height: Option<u64>,
    at: UtcTime,
)
    ensures
        ({
            let record = fresh_record(
                submission_id,
                attempt,
                signature,
                tip_lamports,
                submitted_slot,
                leader_slot,
                blockhash,
                last_valid_block_height,
                at,
            );
            &&& record.submission_id == submission_id
            &&& record.attempt == attempt
            &&& record.signature == signature
            &&& record.tip_lamports == tip_lamports
            &&& record.submitted_slot == submitted_slot
            &&& record.leader_slot == leader_slot
            &&& record.blockhash == blockhash
            &&& record.last_valid_block_height == last_valid_block_height
            &&& record.submitted_at == at
            &&& record.bundle_id is None
            &&& record.failure is None && record.failure_detail is None
            &&& record.agent_decision is None
            &&& record.processed_at is None && record.processed_slot is None
                && record.processed_latency_ms is None
            &&& record.confirmed_at is None && record.confirmed_slot is None
                && record.confirmed_latency_ms is None
            &&& record.finalized_at is None && record.finalized_slot is None
                && record.finalized_latency_ms is None
            &&& record.events.len() == 1
            &&& record.events[0].stage == CommitmentStage::Submitted
            &&& record.events[0].at == at
            &&& record.events[0].slot == submitted_slot
            &&& record.events[0].detail is None
        }),
{
}

/// A record shows what it holds.
pub proof fn records_show_what_they_hold(record: LifecycleRecord)
    ensures
        record@.submission_id == record.submission_id@,
        record@.attempt == record.attempt,
        record@.bundle_id == text::opt_text(record.bundle_id),
        record@.signature == record.signature@,
        record@.tip_lamports == record.tip_lamports,
        record@.submitted_slot == record.submitted_slot,
        record@.leader_slot == record.leader_slot,
        record@.blockhash == record.blockhash@,
        record@.last_valid_block_height == record.last_valid_block_height,
        record@.submitted_at == record.submitted_at,
        record@.processed_at == record.processed_at,
        record@.confirmed_at == record.confirmed_at,
        record@.finalized_at == record.finalized_at,
        record@.processed_slot == record.processed_slot,
        record@.confirmed_slot == record.confirmed_slot,
        record@.finalized_slot == record.finalized_slot,
        record@.processed_latency_ms is Some <==> record.processed_latency_ms is Some,
        record@.confirmed_latency_ms is Some <==> record.confirmed_latency_ms is Some,
        record@.finalized_latency_ms is Some <==> record.finalized_latency_ms is Some,
        record.processed_latency_ms is Some ==> record@.processed_latency_ms->0
            == record.processed_latency_ms->0,
        record.confirmed_latency_ms is Some ==> record@.confirmed_latency_ms->0
            == record.confirmed_latency_ms->0,
        record.finalized_latency_ms is Some ==> record@.finalized_latency_ms->0
            == record.finalized_latency_ms->0,
        record@.failure == record.failure,
        record@.failure_detail == text::opt_text(record.failure_detail),
        record@.events.len() == record.events@.len(),
        forall|i: int|
            0 <= i < record.events@.len() ==> (#[trigger] record@.events[i]).stage
                == record.events@[i].stage && record@.events[i].at == record.events@[i].at
                && record@.events[i].slot == record.events@[i].slot && record@.events[i].detail
                == text::opt_text(record.events@[i].detail),
{
}

} // verus!
