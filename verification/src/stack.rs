//! The submission of signed transactions and the tracking of what becomes of
//! them.

use crate::agent;
use crate::agent::{OperationalAction, OperationalDecision};
use crate::config::Config;
use crate::jito::client;
use crate::jito::client::{BundleEvent, BundleSend, JitoClient, LeaderWait, SentBundle};
use crate::jito::tip::TipData;
use crate::lifecycle;
use crate::lifecycle::{CommitmentStage, FailureKind, LifecycleRecord};
use crate::networking::geyser::GeyserStream;
use crate::solana;
use crate::solana::{
    base58_decode, base64_decode, base64_encode, blockhash_to_text, Blockhash, Signature, SignedTransaction,
};
use crate::text;
use crate::text::{join2, same_text, trim};
use crate::time::{utc_now, UtcTime};
use vstd::prelude::*;

verus! {

/// What the stack knows of the network, with the limits of its use.
#[derive(Clone, Debug)]
pub struct NetworkState {
    pub current_slot: u64,
    pub latest_blockhash_slot: Option<u64>,
    pub next_jito_leader_slot: Option<u64>,
    pub slots_until_jito_leader: Option<u64>,
    pub recent_tip: TipData,
    pub tip_floor_lamports: u64,
    pub max_tip_lamports: u64,
    pub leader_lookahead_slots: u64,
}

/// How a signed transaction is written as text.
#[derive(Clone, Copy, Debug, PartialEq, Eq, Structural)]
pub enum SignedTransactionEncoding {
    Base64,
    Base58,
}

/// A request to submit a signed transaction.
#[derive(Clone, Debug)]
pub struct ControlledSignedSubmitRequest {
    pub submission_id: String,
    pub attempt: u32,
    pub encoded_transaction: String,
    pub encoding: SignedTransactionEncoding,
    pub wait_for_leader: bool,
    pub max_wait_slots: Option<u64>,
    pub observed_tip_lamports: Option<u64>,
}

/// The failure of a submission.
#[derive(Clone, Debug)]
pub struct FailureReport {
    pub submission_id: String,
    pub attempt: u32,
    pub failure: FailureKind,
    pub detail: String,
    pub submitted_slot: Option<u64>,
    pub leader_slot: Option<u64>,
    pub blockhash: String,
    pub tip_lamports: u64,
    pub processed_latency_ms: Option<u128>,
    pub confirmed_latency_ms: Option<u128>,
}

/// A signed transaction that was checked, with what its tracking needs.
#[derive(Clone, Debug)]
pub struct SignedBundleTransaction {
    pub transaction: SignedTransaction,
    pub signature: Signature,
    pub blockhash: Blockhash,
    pub tip_lamports: u64,
}

// ---------------------------------------------------------------------------
// Reading a signed transaction
// ---------------------------------------------------------------------------

/// Why a text is no transaction that may be submitted.
#[derive(Clone, Copy, Debug, PartialEq, Eq, Structural)]
pub enum SubmitError {
    Base64,
    Base58,
    Malformed,
    Unsanitary,
    Unverified,
    Unsigned,
}

impl SubmitError {
    pub fn message(&self) -> (message: &'static str)
        ensures
            message@ == match *self {
                SubmitError::Base64 => "failed to decode base64 signed transaction"@,
                SubmitError::Base58 => "failed to decode base58 signed transaction"@,
                SubmitError::Malformed => "failed to deserialize signed transaction"@,
                SubmitError::Unsanitary => "signed transaction failed sanitization"@,
                SubmitError::Unverified => "signed transaction signature verification failed"@,
                SubmitError::Unsigned => "signed transaction has no signatures"@,
            },
    {
        match self {
            SubmitError::Base64 => "failed to decode base64 signed transaction",
            SubmitError::Base58 => "failed to decode base58 signed transaction",
            SubmitError::Malformed => "failed to deserialize signed transaction",
            SubmitError::Unsanitary => "signed transaction failed sanitization",
            SubmitError::Unverified => "signed transaction signature verification failed",
            SubmitError::Unsigned => "signed transaction has no signatures",
        }
    }
}

/// The bytes that a text encodes; white space around it does not count.
pub open spec fn payload(encoded: Seq<char>, encoding: SignedTransactionEncoding) -> Option<
    Seq<u8>,
> {
    match encoding {
        SignedTransactionEncoding::Base64 => solana::base64_bytes(text::trimmed(encoded)),
        SignedTransactionEncoding::Base58 => solana::base58_bytes(text::trimmed(encoded)),
    }
}

/// The wire form of the transaction that a payload starts with, where it is well
/// formed, its signatures verify and it has one.
pub open spec fn checked_payload(bytes: Seq<u8>) -> Result<Seq<u8>, SubmitError> {
    match solana::parsed_wire(bytes) {
        None => Err(SubmitError::Malformed),
        Some(wire) => checked_wire(wire),
    }
}

/// A wire form, where its transaction is well formed, its signatures verify and
/// it has one.
pub open spec fn checked_wire(wire: Seq<u8>) -> Result<Seq<u8>, SubmitError> {
    if !solana::wire_is_sane(wire) {
        Err(SubmitError::Unsanitary)
    } else if !solana::wire_verifies(wire) {
        Err(SubmitError::Unverified)
    } else if solana::wire_signatures(wire).len() == 0 {
        Err(SubmitError::Unsigned)
    } else {
        Ok(wire)
    }
}

/// The wire form of the transaction that a text encodes, where it may be
/// submitted.
pub open spec fn submittable(
    encoded: Seq<char>,
    encoding: SignedTransactionEncoding,
) -> Result<Seq<u8>, SubmitError> {
    match payload(encoded, encoding) {
        None => Err(
            match encoding {
                SignedTransactionEncoding::Base64 => SubmitError::Base64,
                SignedTransactionEncoding::Base58 => SubmitError::Base58,
            },
        ),
        Some(bytes) => checked_payload(bytes),
    }
}

/// What is made of a transaction, by whether it is well formed, whether its
/// signatures verify, and what they are: the signature that it goes by, or the
/// first fault.
pub fn judge_transaction(sane: bool, verified: bool, signatures: &Vec<Signature>) -> (out: Result<
    Signature,
    SubmitError,
>)
    ensures
        out == if !sane {
            Err::<Signature, SubmitError>(SubmitError::Unsanitary)
        } else if !verified {
            Err(SubmitError::Unverified)
        } else if signatures@.len() == 0 {
            Err(SubmitError::Unsigned)
        } else {
            Ok(signatures@[0])
        },
{
    if !sane {
        Err(SubmitError::Unsanitary)
    } else if !verified {
        Err(SubmitError::Unverified)
    } else if signatures.len() == 0 {
        Err(SubmitError::Unsigned)
    } else {
        Ok(signatures[0])
    }
}

/// Checks the transaction that a payload starts with.
pub fn check_payload(bytes: &Vec<u8>, observed_tip_lamports: u64) -> (out: Result<
    SignedBundleTransaction,
    SubmitError,
>)
    ensures
        match out {
            Ok(built) => {
                &&& checked_payload(bytes@) == Ok::<Seq<u8>, SubmitError>(built.transaction@)
                &&& built.transaction@.is_prefix_of(bytes@)
                &&& built.signature@ == solana::wire_signatures(built.transaction@)[0]
                &&& built.blockhash@ == solana::wire_blockhash(built.transaction@)
                &&& built.tip_lamports == observed_tip_lamports
            },
            Err(err) => checked_payload(bytes@) == Err::<Seq<u8>, SubmitError>(err),
        },
{
    let transaction = match SignedTransaction::from_bytes(bytes) {
        Some(transaction) => transaction,
        None => return Err(SubmitError::Malformed),
    };
    let sane = transaction.is_sane();
    let verified = sane && transaction.verifies();
    let signatures = transaction.signatures();
    assert(solana::signature_views(signatures@).len() == signatures@.len());
    let signature: Signature = match judge_transaction(sane, verified, &signatures) {
        Ok(signature) => signature,
        Err(err) => return Err(err),
    };
    assert(solana::signature_views(signatures@)[0] == signatures@[0]@);
    let blockhash = transaction.blockhash();
    Ok(
        SignedBundleTransaction {
            transaction,
            signature,
            blockhash,
            tip_lamports: observed_tip_lamports,
        },
    )
}

/// Reads and checks a signed transaction.
pub fn decode_signed_transaction(
    encoded_transaction: &str,
    encoding: SignedTransactionEncoding,
    observed_tip_lamports: u64,
) -> (out: Result<SignedBundleTransaction, SubmitError>)
    ensures
        match out {
            Ok(built) => {
                &&& submittable(encoded_transaction@, encoding) == Ok::<Seq<u8>, SubmitError>(
                    built.transaction@,
                )
                &&& payload(encoded_transaction@, encoding) matches Some(bytes)
                    && built.transaction@.is_prefix_of(bytes)
                &&& built.signature@ == solana::wire_signatures(built.transaction@)[0]
                &&& built.blockhash@ == solana::wire_blockhash(built.transaction@)
                &&& built.tip_lamports == observed_tip_lamports
            },
            Err(err) => submittable(encoded_transaction@, encoding) == Err::<Seq<u8>, SubmitError>(
                err,
            ),
        },
{
    let trimmed = trim(encoded_transaction);
    let bytes = match encoding {
        SignedTransactionEncoding::Base64 => match base64_decode(trimmed.as_str()) {
            Ok(bytes) => bytes,
            Err(_) => return Err(SubmitError::Base64),
        },
        SignedTransactionEncoding::Base58 => match base58_decode(trimmed.as_str()) {
            Ok(bytes) => bytes,
            Err(_) => return Err(SubmitError::Base58),
        },
    };
    check_payload(&bytes, observed_tip_lamports)
}

/// The longest transaction, in bytes, that is encoded.
pub const MAX_ENCODED_BYTES: usize = 0x1000_0000;

/// The base64 text of a transaction, from which that transaction is read back;
/// nothing where it is too long.
pub fn encode_signed_transaction(transaction: &SignedTransaction) -> (out: Option<String>)
    ensures
        match out {
            Some(encoded) => {
                &&& transaction@.len() <= MAX_ENCODED_BYTES
                &&& encoded@ == solana::base64_text(transaction@)
                &&& payload(encoded@, SignedTransactionEncoding::Base64) == Some(transaction@)
                &&& submittable(encoded@, SignedTransactionEncoding::Base64) == checked_wire(
                    transaction@,
                )
            },
            None => transaction@.len() > MAX_ENCODED_BYTES,
        },
{
    let bytes = transaction.to_bytes();
    if bytes.len() > MAX_ENCODED_BYTES {
        return None;
    }
    let encoded = base64_encode(&bytes);
    proof {
        text::trimmed_keeps_solid_text(encoded@);
    }
    Some(encoded)
}

/// Only a well-formed transaction whose signatures verify is submitted.
pub proof fn only_verified_transactions_are_submitted(
    encoded: Seq<char>,
    encoding: SignedTransactionEncoding,
)
    requires
        submittable(encoded, encoding) is Ok,
    ensures
        ({
            let wire = submittable(encoded, encoding)->Ok_0;
            &&& solana::wire_is_sane(wire)
            &&& solana::wire_verifies(wire)
            &&& solana::wire_signatures(wire).len() > 0
        }),
{
}

// ---------------------------------------------------------------------------
// The stack
// ---------------------------------------------------------------------------

/// What the stack knows.
#[derive(Debug)]
pub struct TxStack {
    pub config: Config,
    pub jito: JitoClient,
    pub latest_slot: u64,
    pub latest_blockhash: Option<(u64, Blockhash)>,
}

/// What to do before a submission.
#[derive(Clone, Copy, Debug, PartialEq, Eq, Structural)]
pub enum LeaderStep {
    /// Submit, for the leader's slot if one is known.
    Go(Option<u64>),
    /// Ask for the leader schedule, then look again.
    Refresh,
    /// Look again later.
    Sleep,
}

/// Everything that a submission starts with.
#[derive(Debug)]
pub struct Submission {
    pub record: LifecycleRecord,
    pub built: SignedBundleTransaction,
    pub send: BundleSend,
}

impl TxStack {
    pub fn new(config: Config, jito: JitoClient) -> (stack: TxStack)
        ensures
            stack.config == config,
            stack.jito == jito,
            stack.latest_slot == 0,
            stack.latest_blockhash is None,
    {
        TxStack { config, jito, latest_slot: 0, latest_blockhash: None }
    }

    /// Whether a state is what the stack knows of the network.
    pub open spec fn shows(self, state: NetworkState) -> bool {
        let next = client::next_slot(self.jito.leader_schedule@, self.jito.current_slot);
        &&& state.current_slot == self.latest_slot
        &&& state.latest_blockhash_slot == match self.latest_blockhash {
            Some((slot, _)) => Some(slot),
            None => None,
        }
        &&& state.next_jito_leader_slot == next
        &&& state.slots_until_jito_leader == match next {
            Some(slot) => Some(client::slots_from(self.latest_slot, slot)),
            None => None,
        }
        &&& state.recent_tip == self.jito.tip
        &&& state.tip_floor_lamports == self.config.tip_floor_lamports
        &&& state.max_tip_lamports == self.config.max_agent_tip_lamports
        &&& state.leader_lookahead_slots == self.config.leader_lookahead_slots
    }

    /// What the stack knows of the network.
    pub fn operational_state(&self) -> (state: NetworkState)
        ensures
            self.shows(state),
    {
        let latest_blockhash_slot: Option<u64> = match self.latest_blockhash {
            Some((slot, _)) => Some(slot),
            None => None,
        };
        let next: Option<u64> = match self.jito.next_leader_slot() {
            Some((slot, _)) => Some(slot),
            None => None,
        };
        let slots_until: Option<u64> = match next {
            Some(slot) => Some(slot.saturating_sub(self.latest_slot)),
            None => None,
        };
        NetworkState {
            current_slot: self.latest_slot,
            latest_blockhash_slot,
            next_jito_leader_slot: next,
            slots_until_jito_leader: slots_until,
            recent_tip: self.jito.tip_data(),
            tip_floor_lamports: self.config.tip_floor_lamports,
            max_tip_lamports: self.config.max_agent_tip_lamports,
            leader_lookahead_slots: self.config.leader_lookahead_slots,
        }
    }

    /// Whether the stack after an event of the slot subscription is another.
    pub open spec fn takes(self, event: GeyserStream, after: TxStack) -> bool {
        &&& after.config == self.config
        &&& match event {
            GeyserStream::BlockHash { slot, hash } => {
                &&& after.latest_slot == slot
                &&& after.jito == (JitoClient { current_slot: slot, ..self.jito })
                &&& after.latest_blockhash == Some((slot, hash))
            },
            GeyserStream::StreamCompleteOnSlot(slot) => {
                &&& after.latest_slot == slot
                &&& after.jito == (JitoClient { current_slot: slot, ..self.jito })
                &&& after.latest_blockhash == self.latest_blockhash
            },
            _ => after == self,
        }
    }

    /// Takes an event of the slot subscription.
    pub fn on_slot_event(&mut self, event: GeyserStream)
        ensures
            old(self).takes(event, *final(self)),
    {
        match event {
            GeyserStream::BlockHash { slot, hash } => {
                self.latest_slot = slot;
                self.jito.update_current_slot(slot);
                self.latest_blockhash = Some((slot, hash));
            },
            GeyserStream::StreamCompleteOnSlot(slot) => {
                self.latest_slot = slot;
                self.jito.update_current_slot(slot);
            },
            _ => {},
        }
    }

    /// Whether a slot has been seen.
    pub fn has_slot(&self) -> (seen: bool)
        ensures
            seen == (self.latest_slot != 0),
    {
        self.latest_slot != 0
    }

    /// What to do before a submission that asks for a leader or does not.
    pub open spec fn step_before(
        self,
        request: ControlledSignedSubmitRequest,
        start_slot: u64,
    ) -> LeaderStep {
        let next = client::next_slot(self.jito.leader_schedule@, self.jito.current_slot);
        if request.wait_for_leader {
            match client::leader_wait(
                next,
                self.jito.current_slot,
                start_slot,
                self.config.leader_lookahead_slots,
                match request.max_wait_slots {
                    Some(slots) => slots,
                    None => self.config.max_agent_wait_slots,
                },
            ) {
                LeaderWait::Ready(slot) => LeaderStep::Go(Some(slot)),
                LeaderWait::GiveUp => LeaderStep::Go(None),
                LeaderWait::Refresh => LeaderStep::Refresh,
                LeaderWait::Sleep => LeaderStep::Sleep,
            }
        } else {
            LeaderStep::Go(next)
        }
    }

    /// What to do before a submission that asks for a leader or does not.
    pub fn leader_step(&self, request: &ControlledSignedSubmitRequest, start_slot: u64) -> (step:
        LeaderStep)
        ensures
            step == self.step_before(*request, start_slot),
    {
        if request.wait_for_leader {
            let max_wait_slots: u64 = match request.max_wait_slots {
                Some(slots) => slots,
                None => self.config.max_agent_wait_slots,
            };
            match self.jito.wait_for_leader_window(
                start_slot,
                self.config.leader_lookahead_slots,
                max_wait_slots,
            ) {
                LeaderWait::Ready(slot) => LeaderStep::Go(Some(slot)),
                LeaderWait::GiveUp => LeaderStep::Go(None),
                LeaderWait::Refresh => LeaderStep::Refresh,
                LeaderWait::Sleep => LeaderStep::Sleep,
            }
        } else {
            match self.jito.next_leader_slot() {
                Some((slot, _)) => LeaderStep::Go(Some(slot)),
                None => LeaderStep::Go(None),
            }
        }
    }

    /// Whether an outcome is how the submission of a signed transaction for a
    /// leader's slot begins.
    pub open spec fn begins(
        self,
        request: ControlledSignedSubmitRequest,
        leader_slot: Option<u64>,
        out: Result<Submission, SubmitError>,
    ) -> bool {
        let wire = submittable(request.encoded_transaction@, request.encoding);
        match out {
            Ok(s) => {
                &&& wire == Ok::<Seq<u8>, SubmitError>(s.built.transaction@)
                &&& s.record@ == lifecycle::fresh_record(
                    request.submission_id@,
                    request.attempt,
                    solana::signature_text(s.built.signature@),
                    match request.observed_tip_lamports {
                        Some(tip) => tip,
                        None => 0,
                    },
                    Some(self.latest_slot),
                    leader_slot,
                    solana::hash_text(s.built.blockhash@),
                    None,
                    s.record.submitted_at,
                )
                &&& s.record@.wf()
                &&& s.send.packet.data@ == s.built.transaction@
                &&& s.send.wf()
                &&& payload(request.encoded_transaction@, request.encoding) matches Some(
                    bytes,
                ) && s.send.packet.data@.is_prefix_of(bytes)
                &&& s.built.signature@ == solana::wire_signatures(s.built.transaction@)[0]
                &&& s.built.blockhash@ == solana::wire_blockhash(s.built.transaction@)
            },
            Err(err) => wire == Err::<Seq<u8>, SubmitError>(err),
        }
    }

    /// Begins to submit a signed transaction for a leader's slot: checks it,
    /// starts its record, and makes the packet that carries it unchanged.
    pub fn submit_signed_encoded(
        &self,
        request: &ControlledSignedSubmitRequest,
        leader_slot: Option<u64>,
    ) -> (out: Result<Submission, SubmitError>)
        ensures
            self.begins(*request, leader_slot, out),
    {
        let observed: u64 = match request.observed_tip_lamports {
            Some(tip) => tip,
            None => 0,
        };
        let built = match decode_signed_transaction(
            request.encoded_transaction.as_str(),
            request.encoding,
            observed,
        ) {
            Ok(built) => built,
            Err(err) => return Err(err),
        };
        let record = LifecycleRecord::new(
            request.submission_id.clone(),
            request.attempt,
            built.signature,
            built.tip_lamports,
            Some(self.latest_slot),
            leader_slot,
            blockhash_to_text(&built.blockhash),
            None,
        );
        let send = self.jito.send_bundle(&built.transaction);
        Ok(Submission { record, built, send })
    }

    /// Notes that the bundle was sent, or that it could not be.
    pub fn on_sent(
        &self,
        record: &mut LifecycleRecord,
        sent: Result<SentBundle, String>,
    ) -> (sent_off: bool)
        ensures
            sent_off == sent is Ok,
            final(record)@ == sent_record(
                old(record)@,
                match sent {
                    Ok(bundle) => Ok(bundle.bundle_id@),
                    Err(detail) => Err(detail@),
                },
                self.latest_slot,
                final(record)@.events.last().at,
            ),
            old(record)@.wf() ==> final(record)@.wf(),
    {
        self.on_sent_at(record, sent, utc_now())
    }

    /// Notes at a given moment that the bundle was sent, or could not be.
    pub fn on_sent_at(
        &self,
        record: &mut LifecycleRecord,
        sent: Result<SentBundle, String>,
        now: UtcTime,
    ) -> (sent_off: bool)
        ensures
            sent_off == sent is Ok,
            ({
                let outcome = match sent {
                    Ok(bundle) => Ok(bundle.bundle_id@),
                    Err(detail) => Err(detail@),
                };
                &&& final(record)@ == sent_record(old(record)@, outcome, self.latest_slot, now)
                &&& sent is Ok ==> final(record)@.events.last().at == now
            }),
            old(record)@.wf() ==> final(record)@.wf(),
    {
        match sent {
            Ok(bundle) => {
                let detail = join2("bundle_id=", bundle.bundle_id.as_str());
                record.bundle_id = Some(bundle.bundle_id);
                record.add_stage_at(
                    CommitmentStage::Submitted,
                    Some(self.latest_slot),
                    Some(detail),
                    now,
                );
                true
            },
            Err(detail) => {
                let kind = FailureKind::classify(detail.as_str());
                record.fail(kind, detail);
                false
            },
        }
    }

    /// The report of a failed attempt.
    pub fn failure_report(record: &LifecycleRecord) -> (report: Option<FailureReport>)
        ensures
            is_report_on(report, *record),
    {
        match record.failure {
            Some(failure) => Some(
                FailureReport {
                    submission_id: record.submission_id.clone(),
                    attempt: record.attempt,
                    failure,
                    detail: match &record.failure_detail {
                        Some(detail) => detail.clone(),
                        None => String::new(),
                    },
                    submitted_slot: record.submitted_slot,
                    leader_slot: record.leader_slot,
                    blockhash: record.blockhash.clone(),
                    tip_lamports: record.tip_lamports,
                    processed_latency_ms: record.processed_latency_ms,
                    confirmed_latency_ms: record.confirmed_latency_ms,
                },
            ),
            None => None,
        }
    }
}

/// Whether a report tells of the failure of a record, where it has one.
pub open spec fn is_report_on(report: Option<FailureReport>, record: LifecycleRecord) -> bool {
    match report {
        Some(r) => {
            &&& record.failure == Some(r.failure)
            &&& r.submission_id@ == record.submission_id@
            &&& r.attempt == record.attempt
            &&& r.detail@ == match record.failure_detail {
                Some(detail) => detail@,
                None => Seq::empty(),
            }
            &&& r.submitted_slot == record.submitted_slot
            &&& r.leader_slot == record.leader_slot
            &&& r.blockhash@ == record.blockhash@
            &&& r.tip_lamports == record.tip_lamports
            &&& r.processed_latency_ms == record.processed_latency_ms
            &&& r.confirmed_latency_ms == record.confirmed_latency_ms
        },
        None => record.failure is None,
    }
}

/// The record after the bundle was sent under an id, or could not be sent for a
/// reason.
pub open spec fn sent_record(
    record: lifecycle::RecordView,
    sent: Result<Seq<char>, Seq<char>>,
    slot: u64,
    at: UtcTime,
) -> lifecycle::RecordView {
    match sent {
        Ok(bundle_id) => (lifecycle::RecordView {
            bundle_id: Some(bundle_id),
            ..record
        }).with_stage(
            CommitmentStage::Submitted,
            Some(slot),
            Some("bundle_id="@ + bundle_id),
            at,
        ),
        Err(detail) => record.with_failure(lifecycle::failure_of(detail), detail),
    }
}

// ---------------------------------------------------------------------------
// Tracking
// ---------------------------------------------------------------------------

/// The record after an event of the block engine. Events of other bundles, and
/// all events while the bundle has no id, change nothing.
pub open spec fn bundle_step(
    record: lifecycle::RecordView,
    event: client::BundleEventView,
    at: UtcTime,
) -> lifecycle::RecordView {
    if record.bundle_id != Some(event.bundle()) {
        record
    } else {
        match event {
            client::BundleEventView::Accepted { slot, validator_identity, .. } => record.with_stage(
                CommitmentStage::Accepted,
                Some(slot),
                Some("forwarded_to="@ + validator_identity),
                at,
            ),
            client::BundleEventView::Processed { slot, validator_identity, .. } =>
                record.with_stage(
                CommitmentStage::Processed,
                Some(slot),
                Some("jito_validator="@ + validator_identity),
                at,
            ),
            client::BundleEventView::Finalized { .. } => record.with_stage(
                CommitmentStage::Finalized,
                None,
                Some("Jito finalized"@),
                at,
            ),
            client::BundleEventView::Dropped { reason, .. } => record.with_failure(
                lifecycle::failure_of(reason),
                reason,
            ),
            client::BundleEventView::Rejected { reason, .. } => record.with_failure(
                lifecycle::failure_of(reason),
                reason,
            ),
        }
    }
}

/// What the RPC node says of a signature at a commitment.
#[derive(Debug)]
pub enum RpcStatus {
    /// The transaction succeeded.
    Succeeded,
    /// The transaction failed.
    Failed(String),
    /// Nothing is known yet.
    Pending,
    /// The node could not be asked.
    Unavailable,
}

/// What the RPC node said, and when.
#[derive(Debug)]
pub struct RpcAnswer {
    pub status: RpcStatus,
    pub at: UtcTime,
}

/// The record after the RPC node's word on one commitment.
pub open spec fn rpc_step(
    record: lifecycle::RecordView,
    stage: CommitmentStage,
    status: RpcStatus,
    at: UtcTime,
) -> lifecycle::RecordView {
    match status {
        RpcStatus::Succeeded => record.with_stage(
            stage,
            None,
            Some("RPC commitment fallback"@),
            at,
        ),
        RpcStatus::Failed(detail) => record.with_failure(
            lifecycle::failure_of(detail@),
            detail@,
        ),
        RpcStatus::Pending => record,
        RpcStatus::Unavailable => record,
    }
}

/// The record after the RPC node's word on the three commitments in turn.
pub open spec fn rpc_steps(
    record: lifecycle::RecordView,
    processed: RpcAnswer,
    confirmed: RpcAnswer,
    finalized: RpcAnswer,
) -> lifecycle::RecordView {
    rpc_step(
        rpc_step(
            rpc_step(record, CommitmentStage::Processed, processed.status, processed.at),
            CommitmentStage::Confirmed,
            confirmed.status,
            confirmed.at,
        ),
        CommitmentStage::Finalized,
        finalized.status,
        finalized.at,
    )
}

/// Something that happens while a submission is followed.
#[derive(Debug)]
pub enum LifecycleEvent {
    /// The block engine reports on a bundle.
    Bundle(BundleEvent),
    /// Some reports of the block engine were lost.
    BundleLagged,
    /// The block engine's reports ended.
    BundleClosed,
    /// The signature subscription reports.
    Signature(GeyserStream),
    /// The signature subscription ended.
    SignatureClosed,
    /// The RPC node was asked for the three commitments.
    Poll { processed: RpcAnswer, confirmed: RpcAnswer, finalized: RpcAnswer },
    /// The time for a confirmation is over.
    Timeout,
}

/// The record after an event, and whether the tracking ends.
pub open spec fn followed(
    record: lifecycle::RecordView,
    signature: Seq<u8>,
    event: LifecycleEvent,
    at: UtcTime,
) -> (lifecycle::RecordView, bool) {
    match event {
        LifecycleEvent::Bundle(bundle) => (bundle_step(record, bundle@, at), false),
        LifecycleEvent::BundleLagged => (record, false),
        LifecycleEvent::BundleClosed => (
            record.with_failure(FailureKind::BundleFailure, "Jito bundle event stream closed"@),
            true,
        ),
        LifecycleEvent::Signature(update) => match update {
            GeyserStream::TransactionStatus { slot, signature: of, error } => if of@ == signature {
                match error {
                    Some(why) => (
                        record.with_failure(lifecycle::failure_of(why@), why@),
                        true,
                    ),
                    None => (
                        record.with_stage(
                            CommitmentStage::Processed,
                            Some(slot),
                            Some("observed by Yellowstone transactions_status"@),
                            at,
                        ),
                        false,
                    ),
                }
            } else {
                (record, false)
            },
            _ => (record, false),
        },
        LifecycleEvent::SignatureClosed => (record, false),
        LifecycleEvent::Poll { processed, confirmed, finalized } => {
            let after = rpc_steps(record, processed, confirmed, finalized);
            (after, after.failure is Some || after.finalized_at is Some)
        },
        LifecycleEvent::Timeout => (
            if record.succeeded() {
                record
            } else {
                record.with_failure(FailureKind::Timeout, "confirmation timeout elapsed"@)
            },
            true,
        ),
    }
}

impl TxStack {
    /// Takes an event of the block engine at a given moment.
    pub fn apply_bundle_event(record: &mut LifecycleRecord, event: BundleEvent, now: UtcTime)
        ensures
            final(record)@ == bundle_step(old(record)@, event@, now),
            old(record)@.wf() ==> final(record)@.wf(),
    {
        let same = match &record.bundle_id {
            Some(bundle_id) => match &event {
                BundleEvent::Accepted { bundle_id: of, .. } => same_text(
                    of.as_str(),
                    bundle_id.as_str(),
                ),
                BundleEvent::Processed { bundle_id: of, .. } => same_text(
                    of.as_str(),
                    bundle_id.as_str(),
                ),
                BundleEvent::Finalized { bundle_id: of } => same_text(
                    of.as_str(),
                    bundle_id.as_str(),
                ),
                BundleEvent::Dropped { bundle_id: of, .. } => same_text(
                    of.as_str(),
                    bundle_id.as_str(),
                ),
                BundleEvent::Rejected { bundle_id: of, .. } => same_text(
                    of.as_str(),
                    bundle_id.as_str(),
                ),
            },
            None => false,
        };
        if !same {
            return ;
        }
        match event {
            BundleEvent::Accepted { slot, validator_identity, .. } => {
                let detail = join2("forwarded_to=", validator_identity.as_str());
                record.add_stage_at(CommitmentStage::Accepted, Some(slot), Some(detail), now);
            },
            BundleEvent::Processed { slot, validator_identity, .. } => {
                let detail = join2("jito_validator=", validator_identity.as_str());
                record.add_stage_at(CommitmentStage::Processed, Some(slot), Some(detail), now);
            },
            BundleEvent::Finalized { .. } => {
                record.add_stage_at(
                    CommitmentStage::Finalized,
                    None,
                    Some("Jito finalized".to_owned()),
                    now,
                );
            },
            BundleEvent::Dropped { reason, .. } => {
                let kind = FailureKind::classify(reason.as_str());
                record.fail(kind, reason);
            },
            BundleEvent::Rejected { reason, .. } => {
                let kind = FailureKind::classify(reason.as_str());
                record.fail(kind, reason);
            },
        }
    }

    /// Takes the RPC node's word on one commitment at a given moment.
    pub fn apply_rpc_commitment(
        record: &mut LifecycleRecord,
        stage: CommitmentStage,
        status: RpcStatus,
        now: UtcTime,
    )
        ensures
            final(record)@ == rpc_step(old(record)@, stage, status, now),
            old(record)@.wf() ==> final(record)@.wf(),
    {
        match status {
            RpcStatus::Succeeded => {
                record.add_stage_at(stage, None, Some("RPC commitment fallback".to_owned()), now);
            },
            RpcStatus::Failed(detail) => {
                let kind = FailureKind::classify(detail.as_str());
                record.fail(kind, detail);
            },
            RpcStatus::Pending => {},
            RpcStatus::Unavailable => {},
        }
    }

    /// Takes the RPC node's word on the three commitments in turn.
    pub fn apply_rpc_commitments(
        record: &mut LifecycleRecord,
        processed: RpcAnswer,
        confirmed: RpcAnswer,
        finalized: RpcAnswer,
    )
        ensures
            final(record)@ == rpc_steps(old(record)@, processed, confirmed, finalized),
            old(record)@.wf() ==> final(record)@.wf(),
    {
        TxStack::apply_rpc_commitment(
            record,
            CommitmentStage::Processed,
            processed.status,
            processed.at,
        );
        TxStack::apply_rpc_commitment(
            record,
            CommitmentStage::Confirmed,
            confirmed.status,
            confirmed.at,
        );
        TxStack::apply_rpc_commitment(
            record,
            CommitmentStage::Finalized,
            finalized.status,
            finalized.at,
        );
    }

    /// Takes an event of the tracking. Gives whether the tracking ends.
    pub fn wait_for_lifecycle(
        record: &mut LifecycleRecord,
        signature: &Signature,
        event: LifecycleEvent,
    ) -> (done: bool)
        ensures
            exists|at: UtcTime|
                (final(record)@, done) == #[trigger] followed(
                    old(record)@,
                    signature@,
                    event,
                    at,
                ),
            old(record)@.wf() ==> final(record)@.wf(),
    {
        TxStack::wait_for_lifecycle_at(record, signature, event, utc_now())
    }

    /// Takes an event of the tracking at a given moment. Gives whether the
    /// tracking ends.
    pub fn wait_for_lifecycle_at(
        record: &mut LifecycleRecord,
        signature: &Signature,
        event: LifecycleEvent,
        now: UtcTime,
    ) -> (done: bool)
        ensures
            (final(record)@, done) == followed(old(record)@, signature@, event, now),
            old(record)@.wf() ==> final(record)@.wf(),
    {
        match event {
            LifecycleEvent::Bundle(bundle) => {
                TxStack::apply_bundle_event(record, bundle, now);
                false
            },
            LifecycleEvent::BundleLagged => false,
            LifecycleEvent::BundleClosed => {
                record.fail(
                    FailureKind::BundleFailure,
                    "Jito bundle event stream closed".to_owned(),
                );
                true
            },
            LifecycleEvent::Signature(update) => match update {
                GeyserStream::TransactionStatus { slot, signature: of, error } => {
                    if of.same(signature) {
                        match error {
                            Some(why) => {
                                let kind = FailureKind::classify(why.as_str());
                                record.fail(kind, why);
                                true
                            },
                            None => {
                                record.add_stage_at(
                                    CommitmentStage::Processed,
                                    Some(slot),
                                    Some("observed by Yellowstone transactions_status".to_owned()),
                                    now,
                                );
                                false
                            },
                        }
                    } else {
                        false
                    }
                },
                _ => false,
            },
            LifecycleEvent::SignatureClosed => false,
            LifecycleEvent::Poll { processed, confirmed, finalized } => {
                TxStack::apply_rpc_commitments(record, processed, confirmed, finalized);
                record.failure.is_some() || record.finalized_at.is_some()
            },
            LifecycleEvent::Timeout => {
                if !record.is_terminal_success() {
                    record.fail(FailureKind::Timeout, "confirmation timeout elapsed".to_owned());
                }
                true
            },
        }
    }
}

/// Events of other bundles leave a record as it is.
pub proof fn other_bundles_do_not_matter(
    record: lifecycle::RecordView,
    event: client::BundleEventView,
    at: UtcTime,
)
    requires
        record.bundle_id != Some(event.bundle()),
    ensures
        bundle_step(record, event, at) == record,
{
}

/// Statuses of other transactions leave a record as it is.
pub proof fn other_transactions_do_not_matter(
    record: lifecycle::RecordView,
    signature: Seq<u8>,
    slot: u64,
    other: Signature,
    error: Option<String>,
    at: UtcTime,
)
    requires
        other@ != signature,
    ensures
        followed(
            record,
            signature,
            LifecycleEvent::Signature(
                GeyserStream::TransactionStatus { slot, signature: other, error },
            ),
            at,
        ) == (record, false),
{
}

/// When the tracking ends, the attempt has failed, or it was confirmed or
/// finalized.
pub proof fn tracking_ends_decided(
    record: lifecycle::RecordView,
    signature: Seq<u8>,
    event: LifecycleEvent,
    at: UtcTime,
)
    requires
        followed(record, signature, event, at).1,
    ensures
        ({
            let after = followed(record, signature, event, at).0;
            after.failure is Some || after.succeeded()
        }),
{
}

/// Whether a record keeps the stages, the events and the failure that another
/// noted, and the submission's identity.
pub open spec fn only_adds(before: lifecycle::RecordView, after: lifecycle::RecordView) -> bool {
    &&& before.events.is_prefix_of(after.events)
    &&& before.processed_at is Some ==> after.processed_at == before.processed_at
    &&& before.confirmed_at is Some ==> after.confirmed_at == before.confirmed_at
    &&& before.finalized_at is Some ==> after.finalized_at == before.finalized_at
    &&& before.failure is Some ==> after.failure is Some
    &&& after.agent_decision == before.agent_decision
    &&& after.submission_id == before.submission_id
    &&& after.attempt == before.attempt
    &&& after.bundle_id == before.bundle_id
    &&& after.signature == before.signature
    &&& after.tip_lamports == before.tip_lamports
    &&& after.blockhash == before.blockhash
    &&& after.submitted_at == before.submitted_at
}

proof fn stage_only_adds(
    record: lifecycle::RecordView,
    stage: CommitmentStage,
    slot: Option<u64>,
    detail: Option<Seq<char>>,
    at: UtcTime,
)
    ensures
        only_adds(record, record.with_stage(stage, slot, detail, at)),
{
}

proof fn rpc_step_only_adds(
    record: lifecycle::RecordView,
    stage: CommitmentStage,
    status: RpcStatus,
    at: UtcTime,
)
    ensures
        only_adds(record, rpc_step(record, stage, status, at)),
{
    stage_only_adds(record, stage, None, Some("RPC commitment fallback"@), at);
}

proof fn bundle_step_only_adds(
    record: lifecycle::RecordView,
    event: client::BundleEventView,
    at: UtcTime,
)
    ensures
        only_adds(record, bundle_step(record, event, at)),
{
    match event {
        client::BundleEventView::Accepted { slot, validator_identity, .. } => {
            stage_only_adds(
                record,
                CommitmentStage::Accepted,
                Some(slot),
                Some("forwarded_to="@ + validator_identity),
                at,
            );
        },
        client::BundleEventView::Processed { slot, validator_identity, .. } => {
            stage_only_adds(
                record,
                CommitmentStage::Processed,
                Some(slot),
                Some("jito_validator="@ + validator_identity),
                at,
            );
        },
        client::BundleEventView::Finalized { .. } => {
            stage_only_adds(
                record,
                CommitmentStage::Finalized,
                None,
                Some("Jito finalized"@),
                at,
            );
        },
        _ => {},
    }
}

/// Tracking never takes back a stage, an event or a failure that was noted, nor
/// the submission's identity.
pub proof fn tracking_only_adds(
    record: lifecycle::RecordView,
    signature: Seq<u8>,
    event: LifecycleEvent,
    at: UtcTime,
)
    ensures
        only_adds(record, followed(record, signature, event, at).0),
{
    match event {
        LifecycleEvent::Bundle(bundle) => {
            bundle_step_only_adds(record, bundle@, at);
        },
        LifecycleEvent::Signature(update) => {
            if let GeyserStream::TransactionStatus { slot, .. } = update {
                stage_only_adds(
                    record,
                    CommitmentStage::Processed,
                    Some(slot),
                    Some("observed by Yellowstone transactions_status"@),
                    at,
                );
            }
        },
        LifecycleEvent::Poll { processed, confirmed, finalized } => {
            let first = rpc_step(record, CommitmentStage::Processed, processed.status, processed.at);
            let second = rpc_step(first, CommitmentStage::Confirmed, confirmed.status, confirmed.at);
            rpc_step_only_adds(record, CommitmentStage::Processed, processed.status, processed.at);
            rpc_step_only_adds(first, CommitmentStage::Confirmed, confirmed.status, confirmed.at);
            rpc_step_only_adds(second, CommitmentStage::Finalized, finalized.status, finalized.at);
        },
        _ => {},
    }
}

/// The record after a run of events, each at its moment.
pub open spec fn followed_all(
    record: lifecycle::RecordView,
    signature: Seq<u8>,
    events: Seq<(LifecycleEvent, UtcTime)>,
) -> lifecycle::RecordView
    decreases events.len(),
{
    if events.len() == 0 {
        record
    } else {
        followed(
            followed_all(record, signature, events.drop_last()),
            signature,
            events.last().0,
            events.last().1,
        ).0
    }
}

/// However many events follow, in whatever order, a record keeps what it noted.
pub proof fn history_is_kept(
    record: lifecycle::RecordView,
    signature: Seq<u8>,
    events: Seq<(LifecycleEvent, UtcTime)>,
)
    ensures
        only_adds(record, followed_all(record, signature, events)),
    decreases events.len(),
{
    if events.len() > 0 {
        let before = followed_all(record, signature, events.drop_last());
        history_is_kept(record, signature, events.drop_last());
        tracking_only_adds(before, signature, events.last().0, events.last().1);
        let after = followed_all(record, signature, events);
        assert(record.events.is_prefix_of(before.events));
        assert(before.events.is_prefix_of(after.events));
        assert(record.events =~= after.events.take(record.events.len() as int));
    }
}

proof fn rpc_step_keeps_wf(
    record: lifecycle::RecordView,
    stage: CommitmentStage,
    status: RpcStatus,
    at: UtcTime,
)
    requires
        record.wf(),
    ensures
        rpc_step(record, stage, status, at).wf(),
{
    if status is Succeeded {
        lifecycle::stages_keep_wf(record, stage, None, Some("RPC commitment fallback"@), at);
    }
}

proof fn bundle_step_keeps_wf(
    record: lifecycle::RecordView,
    event: client::BundleEventView,
    at: UtcTime,
)
    requires
        record.wf(),
    ensures
        bundle_step(record, event, at).wf(),
{
    match event {
        client::BundleEventView::Accepted { slot, validator_identity, .. } => {
            lifecycle::stages_keep_wf(
                record,
                CommitmentStage::Accepted,
                Some(slot),
                Some("forwarded_to="@ + validator_identity),
                at,
            );
        },
        client::BundleEventView::Processed { slot, validator_identity, .. } => {
            lifecycle::stages_keep_wf(
                record,
                CommitmentStage::Processed,
                Some(slot),
                Some("jito_validator="@ + validator_identity),
                at,
            );
        },
        client::BundleEventView::Finalized { .. } => {
            lifecycle::stages_keep_wf(
                record,
                CommitmentStage::Finalized,
                None,
                Some("Jito finalized"@),
                at,
            );
        },
        _ => {},
    }
}

/// However many events follow, in whatever order, a record's fields agree with
/// each other and with its events.
pub proof fn records_stay_consistent(
    record: lifecycle::RecordView,
    signature: Seq<u8>,
    events: Seq<(LifecycleEvent, UtcTime)>,
)
    requires
        record.wf(),
    ensures
        followed_all(record, signature, events).wf(),
    decreases events.len(),
{
    if events.len() > 0 {
        let before = followed_all(record, signature, events.drop_last());
        let at = events.last().1;
        records_stay_consistent(record, signature, events.drop_last());
        match events.last().0 {
            LifecycleEvent::Bundle(bundle) => {
                bundle_step_keeps_wf(before, bundle@, at);
            },
            LifecycleEvent::Signature(update) => {
                if let GeyserStream::TransactionStatus { slot, .. } = update {
                    lifecycle::stages_keep_wf(
                        before,
                        CommitmentStage::Processed,
                        Some(slot),
                        Some("observed by Yellowstone transactions_status"@),
                        at,
                    );
                }
            },
            LifecycleEvent::Poll { processed, confirmed, finalized } => {
                let first = rpc_step(
                    before,
                    CommitmentStage::Processed,
                    processed.status,
                    processed.at,
                );
                let second = rpc_step(
                    first,
                    CommitmentStage::Confirmed,
                    confirmed.status,
                    confirmed.at,
                );
                rpc_step_keeps_wf(
                    before,
                    CommitmentStage::Processed,
                    processed.status,
                    processed.at,
                );
                rpc_step_keeps_wf(
                    first,
                    CommitmentStage::Confirmed,
                    confirmed.status,
                    confirmed.at,
                );
                rpc_step_keeps_wf(
                    second,
                    CommitmentStage::Finalized,
                    finalized.status,
                    finalized.at,
                );
            },
            _ => {},
        }
    }
}

/// A text of a transaction's wire form, in either encoding and with any white
/// space around it, is read back as that transaction where it is well formed and
/// signed and its signatures verify, and is refused where one does not.
pub proof fn signed_transactions_are_read_back(
    wire: Seq<u8>,
    before: Seq<char>,
    encoded: Seq<char>,
    after: Seq<char>,
    encoding: SignedTransactionEncoding,
)
    requires
        solana::is_wire(wire),
        payload(encoded, encoding) == Some(wire),
        text::all_white(before),
        text::all_white(after),
    ensures
        submittable(before + encoded + after, encoding) == checked_wire(wire),
        solana::wire_is_sane(wire) && solana::wire_verifies(wire) && solana::wire_signatures(
            wire,
        ).len() > 0 ==> submittable(before + encoded + after, encoding) == Ok::<
            Seq<u8>,
            SubmitError,
        >(wire),
        !solana::wire_verifies(wire) ==> submittable(before + encoded + after, encoding) is Err,
{
    text::trimmed_drops_white_space(before, encoded, after);
}

/// White space around an encoded transaction does not matter, nor does taking it
/// off beforehand.
pub proof fn surrounding_white_space_does_not_matter(
    encoded: Seq<char>,
    encoding: SignedTransactionEncoding,
)
    ensures
        submittable(text::trimmed(encoded), encoding) == submittable(encoded, encoding),
        payload(text::trimmed(encoded), encoding) == payload(encoded, encoding),
{
    text::trimmed_is_idempotent(encoded);
}

/// The blockhash of an attempt. The first attempt of a fault run carries a hash
/// of zeros, which no block has; every other one carries the latest.
pub open spec fn blockhash_of(fault: bool, attempt: u32, latest: Seq<u8>) -> Seq<u8> {
    if fault && attempt == 0 {
        Seq::new(32, |i: int| 0u8)
    } else {
        latest
    }
}

/// The blockhash of an attempt.
pub fn attempt_blockhash(fault: bool, attempt: u32, latest: Blockhash) -> (hash: Blockhash)
    ensures
        hash@ == blockhash_of(fault, attempt, latest@),
        !(fault && attempt == 0) ==> hash == latest,
{
    if fault && attempt == 0 {
        let hash = Blockhash { bytes: [0u8;32] };
        assert(hash@ =~= Seq::new(32, |i: int| 0u8));
        hash
    } else {
        latest
    }
}

/// The attempt that follows one that ended in a failure, or in none: an expired
/// blockhash is replaced once, and nothing else is tried again.
pub open spec fn attempt_after(failure: Option<FailureKind>, attempt: u32) -> Option<u32> {
    if failure == Some(FailureKind::ExpiredBlockhash) && attempt == 0 {
        Some(1u32)
    } else {
        None
    }
}

/// The attempt that follows one that ended in a failure, or in none.
pub fn next_attempt(failure: Option<FailureKind>, attempt: u32) -> (next: Option<u32>)
    ensures
        next == attempt_after(failure, attempt),
{
    match failure {
        Some(FailureKind::ExpiredBlockhash) => if attempt == 0 {
            Some(1)
        } else {
            None
        },
        _ => None,
    }
}

/// The decision about another attempt after one that failed.
pub open spec fn attempt_decision(
    failure: FailureKind,
    attempt: u32,
    tip_lamports: u64,
) -> agent::DecisionView {
    let again = attempt_after(Some(failure), attempt) is Some;
    agent::DecisionView {
        action: if again {
            OperationalAction::Retry
        } else {
            OperationalAction::Abandon
        },
        reason: if again {
            "The blockhash expired; the transaction is built and signed again with the latest one."@
        } else {
            "Building the transaction again does not mend this failure."@
        },
        refresh_blockhash: again,
        tip_lamports,
        max_wait_slots: 0,
        source: "stack"@,
    }
}

/// Decides about the attempt after the one of a record, and notes the decision
/// in the record where that attempt failed.
pub fn decide_next_attempt(record: &mut LifecycleRecord) -> (next: Option<u32>)
    ensures
        next == attempt_after(old(record).failure, old(record).attempt),
        final(record)@ == match old(record).failure {
            Some(failure) => old(record)@.with_decision(
                attempt_decision(failure, old(record).attempt, old(record).tip_lamports),
            ),
            None => old(record)@,
        },
        old(record)@.wf() ==> final(record)@.wf(),
{
    let next = next_attempt(record.failure, record.attempt);
    if record.failure.is_some() {
        let again = next.is_some();
        let tip_lamports: u64 = record.tip_lamports;
        record.decide(
            OperationalDecision {
                action: if again {
                    OperationalAction::Retry
                } else {
                    OperationalAction::Abandon
                },
                reason: if again {
                    "The blockhash expired; the transaction is built and signed again with the latest one.".to_owned()
                } else {
                    "Building the transaction again does not mend this failure.".to_owned()
                },
                refresh_blockhash: again,
                tip_lamports,
                max_wait_slots: 0,
                source: "stack".to_owned(),
            },
        );
    }
    next
}

/// A record of a failed attempt holds a decision to try again exactly where
/// another attempt follows.
pub proof fn decisions_tell_of_the_next_attempt(failure: FailureKind, attempt: u32, tip_lamports: u64)
    ensures
        attempt_decision(failure, attempt, tip_lamports).action == OperationalAction::Retry
            <==> attempt_after(Some(failure), attempt) is Some,
        attempt_decision(failure, attempt, tip_lamports).writes() <==> attempt_after(
            Some(failure),
            attempt,
        ) is Some,
{
}

// ---------------------------------------------------------------------------
// What the tracking, the submission and the attempts are for
// ---------------------------------------------------------------------------

/// A timeout ends the tracking. It leaves a record that was confirmed or finalized
/// exactly as it was, and marks every other one as timed out.
pub proof fn timeouts_spare_confirmed_attempts(
    record: lifecycle::RecordView,
    signature: Seq<u8>,
    at: UtcTime,
)
    ensures
        ({
            let (after, ends) = followed(record, signature, LifecycleEvent::Timeout, at);
            &&& ends
            &&& record.confirmed_at is Some ==> after == record
            &&& record.finalized_at is Some ==> after == record
            &&& record.confirmed_at is None && record.finalized_at is None ==> {
                &&& after.failure == Some(FailureKind::Timeout)
                &&& after.failure_detail == Some("confirmation timeout elapsed"@)
                &&& after == (lifecycle::RecordView {
                    failure: after.failure,
                    failure_detail: after.failure_detail,
                    ..record
                })
            }
        }),
{
}

/// Whether an event reports that the attempt of a record failed.
pub open spec fn reports_failure(
    record: lifecycle::RecordView,
    signature: Seq<u8>,
    event: LifecycleEvent,
) -> bool {
    match event {
        LifecycleEvent::Bundle(BundleEvent::Dropped { bundle_id, .. }) => record.bundle_id == Some(
            bundle_id@,
        ),
        LifecycleEvent::Bundle(BundleEvent::Rejected { bundle_id, .. }) => record.bundle_id == Some(
            bundle_id@,
        ),
        LifecycleEvent::Bundle(_) => false,
        LifecycleEvent::BundleLagged => false,
        LifecycleEvent::BundleClosed => true,
        LifecycleEvent::Signature(
            GeyserStream::TransactionStatus { signature: of, error, .. },
        ) => of@ == signature && error is Some,
        LifecycleEvent::Signature(_) => false,
        LifecycleEvent::SignatureClosed => false,
        LifecycleEvent::Poll { processed, confirmed, finalized } => processed.status is Failed
            || confirmed.status is Failed || finalized.status is Failed,
        LifecycleEvent::Timeout => record.confirmed_at is None && record.finalized_at is None,
    }
}

/// A failure is put on a record by an event that reports one, and by no other: a
/// drop, a rejection, a closed stream, an error of the transaction itself, or a
/// timeout before confirmation. Every such event puts one on it.
pub proof fn only_reported_failures_are_noted(
    record: lifecycle::RecordView,
    signature: Seq<u8>,
    event: LifecycleEvent,
    at: UtcTime,
)
    ensures
        ({
            let after = followed(record, signature, event, at).0;
            &&& reports_failure(record, signature, event) ==> after.failure is Some
            &&& !reports_failure(record, signature, event) ==> after.failure == record.failure
                && after.failure_detail == record.failure_detail
        }),
{
    if let LifecycleEvent::Poll { processed, confirmed, finalized } = event {
        let first = rpc_step(record, CommitmentStage::Processed, processed.status, processed.at);
        let second = rpc_step(first, CommitmentStage::Confirmed, confirmed.status, confirmed.at);
        let third = rpc_step(second, CommitmentStage::Finalized, finalized.status, finalized.at);
        assert(followed(record, signature, event, at).0 == third);
    }
}

/// The tracking ends with a closed block-engine stream, an error of the
/// transaction itself, a timeout, or a poll that leaves the attempt failed or
/// finalized. It goes on after every other event.
pub proof fn tracking_ends_when_decided(
    record: lifecycle::RecordView,
    signature: Seq<u8>,
    event: LifecycleEvent,
    at: UtcTime,
)
    ensures
        followed(record, signature, event, at).1 <==> match event {
            LifecycleEvent::BundleClosed => true,
            LifecycleEvent::Timeout => true,
            LifecycleEvent::Signature(
                GeyserStream::TransactionStatus { signature: of, error, .. },
            ) => of@ == signature && error is Some,
            LifecycleEvent::Poll { processed, confirmed, finalized } => {
                ||| record.failure is Some
                ||| record.finalized_at is Some
                ||| processed.status is Failed
                ||| confirmed.status is Failed
                ||| finalized.status is Failed
                ||| finalized.status is Succeeded
            },
            _ => false,
        },
{
    if let LifecycleEvent::Poll { processed, confirmed, finalized } = event {
        let first = rpc_step(record, CommitmentStage::Processed, processed.status, processed.at);
        let second = rpc_step(first, CommitmentStage::Confirmed, confirmed.status, confirmed.at);
        let third = rpc_step(second, CommitmentStage::Finalized, finalized.status, finalized.at);
        assert(followed(record, signature, event, at).0 == third);
    }
}

/// What the block engine reports of the record's own bundle becomes a stage with
/// its slot, or a failure with its reason, word for word.
pub proof fn bundle_reports_are_noted(
    record: lifecycle::RecordView,
    bundle_id: Seq<char>,
    slot: u64,
    validator: Seq<char>,
    reason: Seq<char>,
    at: UtcTime,
)
    requires
        record.bundle_id == Some(bundle_id),
    ensures
        ({
            let accepted = bundle_step(
                record,
                client::BundleEventView::Accepted {
                    bundle_id,
                    slot,
                    validator_identity: validator,
                },
                at,
            );
            let processed = bundle_step(
                record,
                client::BundleEventView::Processed {
                    bundle_id,
                    slot,
                    validator_identity: validator,
                },
                at,
            );
            let finalized = bundle_step(
                record,
                client::BundleEventView::Finalized { bundle_id },
                at,
            );
            let dropped = bundle_step(
                record,
                client::BundleEventView::Dropped { bundle_id, reason },
                at,
            );
            let rejected = bundle_step(
                record,
                client::BundleEventView::Rejected { bundle_id, reason },
                at,
            );
            &&& accepted.events.last() == (lifecycle::EventView {
                stage: CommitmentStage::Accepted,
                at,
                slot: Some(slot),
                detail: Some("forwarded_to="@ + validator),
            })
            &&& accepted.processed_at == record.processed_at && accepted.confirmed_at
                == record.confirmed_at && accepted.finalized_at == record.finalized_at
            &&& processed.events.last() == (lifecycle::EventView {
                stage: CommitmentStage::Processed,
                at,
                slot: Some(slot),
                detail: Some("jito_validator="@ + validator),
            })
            &&& processed.processed_at is Some && processed.confirmed_at == record.confirmed_at
                && processed.finalized_at == record.finalized_at
            &&& finalized.events.last() == (lifecycle::EventView {
                stage: CommitmentStage::Finalized,
                at,
                slot: None,
                detail: Some("Jito finalized"@),
            })
            &&& finalized.finalized_at is Some && finalized.processed_at == record.processed_at
                && finalized.confirmed_at == record.confirmed_at
            &&& dropped.failure == Some(lifecycle::failure_of(reason)) && dropped.failure_detail
                == Some(reason) && dropped.events == record.events
            &&& rejected.failure == Some(lifecycle::failure_of(reason)) && rejected.failure_detail
                == Some(reason) && rejected.events == record.events
        }),
{
}

/// A status of the record's own transaction shows it processed in its slot, or
/// failed with the error, word for word.
pub proof fn statuses_are_noted(
    record: lifecycle::RecordView,
    signature: Signature,
    slot: u64,
    error: Option<String>,
    at: UtcTime,
)
    ensures
        ({
            let after = followed(
                record,
                signature@,
                LifecycleEvent::Signature(GeyserStream::TransactionStatus { slot, signature, error }),
                at,
            ).0;
            match error {
                Some(why) => after.failure == Some(lifecycle::failure_of(why@))
                    && after.failure_detail == Some(why@) && after.events == record.events,
                None => {
                    &&& after.events.last() == (lifecycle::EventView {
                        stage: CommitmentStage::Processed,
                        at,
                        slot: Some(slot),
                        detail: Some("observed by Yellowstone transactions_status"@),
                    })
                    &&& after.events.len() == record.events.len() + 1
                    &&& after.processed_at is Some
                    &&& record.processed_at is None ==> after.processed_at == Some(at)
                        && after.processed_slot == Some(slot)
                    &&& after.confirmed_at == record.confirmed_at
                    &&& after.finalized_at == record.finalized_at
                },
            }
        }),
{
}

/// A lost report, the end of the signature subscription, and what it tells of
/// anything but a status, change nothing.
pub proof fn silence_changes_nothing(
    record: lifecycle::RecordView,
    signature: Seq<u8>,
    update: GeyserStream,
    at: UtcTime,
)
    requires
        !(update is TransactionStatus),
    ensures
        followed(record, signature, LifecycleEvent::BundleLagged, at) == (record, false),
        followed(record, signature, LifecycleEvent::SignatureClosed, at) == (record, false),
        followed(record, signature, LifecycleEvent::Signature(update), at) == (record, false),
{
}

/// When the block engine's reports end, the attempt counts as a failure of the
/// bundle.
pub proof fn closed_streams_fail_the_bundle(
    record: lifecycle::RecordView,
    signature: Seq<u8>,
    at: UtcTime,
)
    ensures
        ({
            let after = followed(record, signature, LifecycleEvent::BundleClosed, at).0;
            &&& after.failure == Some(FailureKind::BundleFailure)
            &&& after.failure_detail == Some("Jito bundle event stream closed"@)
            &&& after.events == record.events
        }),
{
}

/// A poll stamps each commitment that the node has seen succeed, at the moment of
/// its answer, and none of the others.
pub proof fn polls_stamp_what_succeeded(
    record: lifecycle::RecordView,
    processed: RpcAnswer,
    confirmed: RpcAnswer,
    finalized: RpcAnswer,
)
    ensures
        ({
            let after = rpc_steps(record, processed, confirmed, finalized);
            &&& after.processed_at == if record.processed_at is None && processed.status
                is Succeeded {
                Some(processed.at)
            } else {
                record.processed_at
            }
            &&& after.confirmed_at == if record.confirmed_at is None && confirmed.status
                is Succeeded {
                Some(confirmed.at)
            } else {
                record.confirmed_at
            }
            &&& after.finalized_at == if record.finalized_at is None && finalized.status
                is Succeeded {
                Some(finalized.at)
            } else {
                record.finalized_at
            }
            &&& after.events.len() == record.events.len() + (if processed.status is Succeeded {
                1int
            } else {
                0
            }) + (if confirmed.status is Succeeded {
                1int
            } else {
                0
            }) + (if finalized.status is Succeeded {
                1int
            } else {
                0
            })
        }),
{
    let first = rpc_step(record, CommitmentStage::Processed, processed.status, processed.at);
    let second = rpc_step(first, CommitmentStage::Confirmed, confirmed.status, confirmed.at);
    assert(first.confirmed_at == record.confirmed_at && first.finalized_at == record.finalized_at);
    assert(second.finalized_at == record.finalized_at);
}

/// Of the commitments that a poll shows failed, the last decides the failure, and
/// its error stays word for word.
pub proof fn polls_note_the_last_error(
    record: lifecycle::RecordView,
    processed: RpcAnswer,
    confirmed: RpcAnswer,
    finalized: RpcAnswer,
)
    ensures
        ({
            let after = rpc_steps(record, processed, confirmed, finalized);
            let told = match (processed.status, confirmed.status, finalized.status) {
                (_, _, RpcStatus::Failed(why)) => Some(why@),
                (_, RpcStatus::Failed(why), _) => Some(why@),
                (RpcStatus::Failed(why), _, _) => Some(why@),
                _ => None,
            };
            match told {
                Some(why) => after.failure == Some(lifecycle::failure_of(why))
                    && after.failure_detail == Some(why),
                None => after.failure == record.failure && after.failure_detail
                    == record.failure_detail,
            }
        }),
{
    let first = rpc_step(record, CommitmentStage::Processed, processed.status, processed.at);
    let second = rpc_step(first, CommitmentStage::Confirmed, confirmed.status, confirmed.at);
    let third = rpc_step(second, CommitmentStage::Finalized, finalized.status, finalized.at);
    assert(rpc_steps(record, processed, confirmed, finalized) == third);
}

/// A bundle that was sent gives the record its id and a note of the slot; one that
/// could not be sent gives it a failure with the reason, and no id.
pub proof fn sendings_are_noted(
    record: lifecycle::RecordView,
    bundle_id: Seq<char>,
    reason: Seq<char>,
    slot: u64,
    at: UtcTime,
)
    ensures
        ({
            let sent = sent_record(record, Ok(bundle_id), slot, at);
            let unsent = sent_record(record, Err(reason), slot, at);
            &&& sent.bundle_id == Some(bundle_id)
            &&& sent.events.len() == record.events.len() + 1
            &&& sent.events.last() == (lifecycle::EventView {
                stage: CommitmentStage::Submitted,
                at,
                slot: Some(slot),
                detail: Some("bundle_id="@ + bundle_id),
            })
            &&& sent.failure == record.failure
            &&& sent.processed_at == record.processed_at && sent.confirmed_at == record.confirmed_at
                && sent.finalized_at == record.finalized_at
            &&& unsent.failure == Some(lifecycle::failure_of(reason))
            &&& unsent.failure_detail == Some(reason)
            &&& unsent.bundle_id == record.bundle_id
            &&& unsent.events == record.events
        }),
{
}

/// A text that does not decode is refused for its encoding, and one that decodes
/// to no transaction is refused as malformed.
pub proof fn unreadable_texts_are_refused(encoded: Seq<char>, bytes: Seq<u8>)
    ensures
        solana::base64_bytes(text::trimmed(encoded)) is None ==> submittable(
            encoded,
            SignedTransactionEncoding::Base64,
        ) == Err::<Seq<u8>, SubmitError>(SubmitError::Base64),
        solana::base58_bytes(text::trimmed(encoded)) is None ==> submittable(
            encoded,
            SignedTransactionEncoding::Base58,
        ) == Err::<Seq<u8>, SubmitError>(SubmitError::Base58),
        solana::base64_bytes(text::trimmed(encoded)) == Some(bytes) && solana::parsed_wire(bytes)
            is None ==> submittable(encoded, SignedTransactionEncoding::Base64) == Err::<
            Seq<u8>,
            SubmitError,
        >(SubmitError::Malformed),
        solana::base58_bytes(text::trimmed(encoded)) == Some(bytes) && solana::parsed_wire(bytes)
            is None ==> submittable(encoded, SignedTransactionEncoding::Base58) == Err::<
            Seq<u8>,
            SubmitError,
        >(SubmitError::Malformed),
{
}

/// A transaction is submitted exactly where it is well formed, its signatures
/// verify and it has one; the first of these that is missing is the reason why it
/// is not.
pub proof fn transactions_are_refused_for_their_first_fault(wire: Seq<u8>)
    ensures
        solana::wire_is_sane(wire) && solana::wire_verifies(wire) && solana::wire_signatures(
            wire,
        ).len() > 0 ==> checked_wire(wire) == Ok::<Seq<u8>, SubmitError>(wire),
        !solana::wire_is_sane(wire) ==> checked_wire(wire) == Err::<Seq<u8>, SubmitError>(
            SubmitError::Unsanitary,
        ),
        solana::wire_is_sane(wire) && !solana::wire_verifies(wire) ==> checked_wire(wire) == Err::<
            Seq<u8>,
            SubmitError,
        >(SubmitError::Unverified),
        solana::wire_is_sane(wire) && solana::wire_verifies(wire) && solana::wire_signatures(
            wire,
        ).len() == 0 ==> checked_wire(wire) == Err::<Seq<u8>, SubmitError>(SubmitError::Unsigned),
{
}

/// A submission that does not ask for a leader goes off at once, with the next
/// slot of a leader where one is known.
pub proof fn submissions_without_a_wait_go_at_once(
    stack: TxStack,
    request: ControlledSignedSubmitRequest,
    start_slot: u64,
)
    requires
        !request.wait_for_leader,
    ensures
        stack.step_before(request, start_slot) == LeaderStep::Go(
            client::next_slot(stack.jito.leader_schedule@, stack.jito.current_slot),
        ),
{
}

/// A submission that asks for a leader goes off for the next one as soon as that
/// is within the lookahead, and without one as soon as it has waited as long as
/// the request allows, or the settings where the request is silent. It waits
/// otherwise.
pub proof fn submissions_wait_for_a_near_leader(
    stack: TxStack,
    request: ControlledSignedSubmitRequest,
    start_slot: u64,
)
    requires
        request.wait_for_leader,
    ensures
        ({
            let now = stack.jito.current_slot;
            let limit = match request.max_wait_slots {
                Some(slots) => slots,
                None => stack.config.max_agent_wait_slots,
            };
            let waited = if start_slot <= now {
                now - start_slot
            } else {
                0
            };
            let step = stack.step_before(request, start_slot);
            match client::next_slot(stack.jito.leader_schedule@, now) {
                Some(slot) => {
                    &&& slot - now <= stack.config.leader_lookahead_slots ==> step
                        == LeaderStep::Go(Some(slot))
                    &&& slot - now > stack.config.leader_lookahead_slots && waited >= limit ==> step
                        == LeaderStep::Go(None)
                    &&& slot - now > stack.config.leader_lookahead_slots && waited < limit ==> step
                        == LeaderStep::Sleep
                },
                None => {
                    &&& waited >= limit ==> step == LeaderStep::Go(None)
                    &&& waited < limit ==> step == LeaderStep::Refresh
                },
            }
        }),
{
}

/// A slot or a block moves the stack and its client to the slot, and a block alone
/// brings a blockhash; nothing else that is told changes anything.
pub proof fn slots_move_the_stack(stack: TxStack, event: GeyserStream, after: TxStack)
    requires
        stack.takes(event, after),
    ensures
        match event {
            GeyserStream::BlockHash { slot, hash } => {
                &&& after.latest_slot == slot
                &&& after.jito.current_slot == slot
                &&& after.latest_blockhash == Some((slot, hash))
            },
            GeyserStream::StreamCompleteOnSlot(slot) => {
                &&& after.latest_slot == slot
                &&& after.jito.current_slot == slot
                &&& after.latest_blockhash == stack.latest_blockhash
            },
            _ => after == stack,
        },
        after.config == stack.config,
        after.jito.leader_schedule == stack.jito.leader_schedule,
        after.jito.tip == stack.jito.tip,
        after.jito.tip_accounts == stack.jito.tip_accounts,
{
}

/// What is told of the network is what the stack has seen, with the distance to
/// the next leader counted from the latest slot, and the limits of the settings.
pub proof fn network_states_tell_what_was_seen(stack: TxStack, state: NetworkState)
    requires
        stack.shows(state),
    ensures
        state.current_slot == stack.latest_slot,
        state.latest_blockhash_slot is Some <==> stack.latest_blockhash is Some,
        stack.latest_blockhash matches Some(seen) ==> state.latest_blockhash_slot == Some(seen.0),
        state.next_jito_leader_slot == client::next_slot(
            stack.jito.leader_schedule@,
            stack.jito.current_slot,
        ),
        match state.next_jito_leader_slot {
            Some(slot) => state.slots_until_jito_leader matches Some(distance) && if slot
                >= stack.latest_slot {
                stack.latest_slot + distance == slot
            } else {
                distance == 0
            },
            None => state.slots_until_jito_leader is None,
        },
        state.recent_tip == stack.jito.tip,
        state.tip_floor_lamports == stack.config.tip_floor_lamports,
        state.max_tip_lamports == stack.config.max_agent_tip_lamports,
        state.leader_lookahead_slots == stack.config.leader_lookahead_slots,
{
}

/// There is a report exactly of the attempts that failed, and it says what the
/// record says.
pub proof fn reports_tell_of_failures(report: Option<FailureReport>, record: LifecycleRecord)
    requires
        is_report_on(report, record),
    ensures
        report is Some <==> record.failure is Some,
        report matches Some(r) ==> {
            &&& r.failure == record.failure->0
            &&& r.submission_id@ == record.submission_id@
            &&& r.attempt == record.attempt
            &&& record.failure_detail is Some ==> r.detail@ == record.failure_detail->0@
            &&& record.failure_detail is None ==> r.detail@.len() == 0
            &&& r.submitted_slot == record.submitted_slot
            &&& r.leader_slot == record.leader_slot
            &&& r.blockhash@ == record.blockhash@
            &&& r.tip_lamports == record.tip_lamports
            &&& r.processed_latency_ms == record.processed_latency_ms
            &&& r.confirmed_latency_ms == record.confirmed_latency_ms
        },
{
}

/// Only the first attempt of a fault run carries a hash that no block has.
pub proof fn faults_spoil_the_first_attempt_only(fault: bool, attempt: u32, latest: Seq<u8>)
    ensures
        !fault ==> blockhash_of(fault, attempt, latest) == latest,
        attempt > 0 ==> blockhash_of(fault, attempt, latest) == latest,
        fault && attempt == 0 ==> blockhash_of(fault, attempt, latest).len() == 32 && forall|i: int|
            0 <= i < 32 ==> #[trigger] blockhash_of(fault, attempt, latest)[i] == 0,
{
}

/// A second attempt follows an expired blockhash, and nothing else; a third never
/// follows.
pub proof fn one_attempt_follows_an_expired_blockhash(failure: Option<FailureKind>, attempt: u32)
    ensures
        attempt_after(Some(FailureKind::ExpiredBlockhash), 0) == Some(1u32),
        failure != Some(FailureKind::ExpiredBlockhash) ==> attempt_after(failure, attempt) is None,
        attempt > 0 ==> attempt_after(failure, attempt) is None,
{
}

/// A decision to try again asks for a new blockhash, any other one gives up, and
/// both keep the tip.
pub proof fn attempts_are_repeated_with_a_new_blockhash(
    failure: FailureKind,
    attempt: u32,
    tip_lamports: u64,
)
    ensures
        ({
            let decision = attempt_decision(failure, attempt, tip_lamports);
            &&& failure == FailureKind::ExpiredBlockhash && attempt == 0 ==> decision.action
                == OperationalAction::Retry && decision.refresh_blockhash
            &&& failure != FailureKind::ExpiredBlockhash || attempt > 0 ==> decision.action
                == OperationalAction::Abandon && !decision.refresh_blockhash
            &&& decision.tip_lamports == tip_lamports
            &&& decision.max_wait_slots == 0
        }),
{
}

/// A submission that begins sends the transaction's own bytes, and its record
/// starts without a bundle, a stage or a failure: it names the request, the
/// attempt, the first signature, the observed tip, the slots and the blockhash.
/// What may not be submitted is refused for its fault.
pub proof fn submissions_begin_with_a_fresh_record(
    stack: TxStack,
    request: ControlledSignedSubmitRequest,
    leader_slot: Option<u64>,
    out: Result<Submission, SubmitError>,
)
    requires
        stack.begins(request, leader_slot, out),
    ensures
        out is Ok <==> submittable(request.encoded_transaction@, request.encoding) is Ok,
        match out {
            Err(err) => submittable(request.encoded_transaction@, request.encoding) == Err::<
                Seq<u8>,
                SubmitError,
            >(err),
            Ok(s) => {
                let record = s.record@;
                let wire = s.send.packet.data@;
                &&& submittable(request.encoded_transaction@, request.encoding) == Ok::<
                    Seq<u8>,
                    SubmitError,
                >(wire)
                &&& record.submission_id == request.submission_id@
                &&& record.attempt == request.attempt
                &&& record.signature == solana::signature_text(solana::wire_signatures(wire)[0])
                &&& record.blockhash == solana::hash_text(solana::wire_blockhash(wire))
                &&& request.observed_tip_lamports is Some ==> Some(record.tip_lamports)
                    == request.observed_tip_lamports
                &&& request.observed_tip_lamports is None ==> record.tip_lamports == 0
                &&& record.submitted_slot == Some(stack.latest_slot)
                &&& record.leader_slot == leader_slot
                &&& record.bundle_id is None && record.failure is None
                &&& record.processed_at is None && record.confirmed_at is None
                &&& record.finalized_at is None
            },
        },
{
}

} // verus!
