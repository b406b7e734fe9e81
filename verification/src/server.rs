//! The control plane's tools: what they take and give, and where the server
//! listens.

use crate::config;
use crate::json::JsonValue;
use crate::lifecycle;
use crate::lifecycle::{AgentAuditRecord, FailureKind, LifecycleRecord};
use crate::stack;
use crate::stack::{
    ControlledSignedSubmitRequest, FailureReport, SignedTransactionEncoding, TxStack,
};
use crate::text;
use crate::text::{join2, owned, same_text};
use crate::time::{utc_now, UtcTime};
use vstd::prelude::*;
use vstd::std_specs::convert::FromSpecImpl;

verus! {

/// How the submit tool's transaction is written.
#[derive(Clone, Copy, Debug, PartialEq, Eq, Structural)]
pub enum SignedTransactionEncodingParam {
    Base64,
    Base58,
}

/// The encoding that a parameter names.
pub open spec fn encoding_of_param(
    value: SignedTransactionEncodingParam,
) -> SignedTransactionEncoding {
    match value {
        SignedTransactionEncodingParam::Base64 => SignedTransactionEncoding::Base64,
        SignedTransactionEncodingParam::Base58 => SignedTransactionEncoding::Base58,
    }
}

impl From<SignedTransactionEncodingParam> for SignedTransactionEncoding {
    fn from(value: SignedTransactionEncodingParam) -> (out: SignedTransactionEncoding) {
        match value {
            SignedTransactionEncodingParam::Base64 => SignedTransactionEncoding::Base64,
            SignedTransactionEncodingParam::Base58 => SignedTransactionEncoding::Base58,
        }
    }
}

impl FromSpecImpl<SignedTransactionEncodingParam> for SignedTransactionEncoding {
    open spec fn obeys_from_spec() -> bool {
        true
    }

    open spec fn from_spec(value: SignedTransactionEncodingParam) -> SignedTransactionEncoding {
        encoding_of_param(value)
    }
}

/// What the submit tool takes.
#[derive(Clone, Debug)]
pub struct SubmitSignedBundleParams {
    pub submission_id: String,
    pub attempt: u32,
    pub encoded_transaction: String,
    pub encoding: SignedTransactionEncodingParam,
    pub wait_for_leader: bool,
    pub max_wait_slots: Option<u64>,
    pub observed_tip_lamports: Option<u64>,
}

/// The request that the submit tool is asked for.
pub open spec fn request_of(value: SubmitSignedBundleParams) -> ControlledSignedSubmitRequest {
    ControlledSignedSubmitRequest {
        submission_id: value.submission_id,
        attempt: value.attempt,
        encoded_transaction: value.encoded_transaction,
        encoding: encoding_of_param(value.encoding),
        wait_for_leader: value.wait_for_leader,
        max_wait_slots: value.max_wait_slots,
        observed_tip_lamports: value.observed_tip_lamports,
    }
}

impl From<SubmitSignedBundleParams> for ControlledSignedSubmitRequest {
    fn from(value: SubmitSignedBundleParams) -> (out: ControlledSignedSubmitRequest) {
        ControlledSignedSubmitRequest {
            submission_id: value.submission_id,
            attempt: value.attempt,
            encoded_transaction: value.encoded_transaction,
            encoding: SignedTransactionEncoding::from(value.encoding),
            wait_for_leader: value.wait_for_leader,
            max_wait_slots: value.max_wait_slots,
            observed_tip_lamports: value.observed_tip_lamports,
        }
    }
}

impl FromSpecImpl<SubmitSignedBundleParams> for ControlledSignedSubmitRequest {
    open spec fn obeys_from_spec() -> bool {
        true
    }

    open spec fn from_spec(value: SubmitSignedBundleParams) -> ControlledSignedSubmitRequest {
        request_of(value)
    }
}

/// What the submit tool gives: the record of the attempt, and its report where
/// it failed.
#[derive(Debug)]
pub struct SubmitSignedBundleOutput {
    pub record: LifecycleRecord,
    pub failure_report: Option<FailureReport>,
}

/// What the submit tool gives for a finished record.
pub fn submit_output(record: LifecycleRecord) -> (output: SubmitSignedBundleOutput)
    ensures
        output.record == record,
        stack::is_report_on(output.failure_report, record),
        output.failure_report is Some == record.failure is Some,
        output.failure_report matches Some(report) ==> {
            &&& record.failure == Some(report.failure)
            &&& report.submission_id@ == record.submission_id@
            &&& report.attempt == record.attempt
            &&& report.detail@ == config::value_or(
                text::opt_text(record.failure_detail),
                Seq::empty(),
            )
            &&& report.submitted_slot == record.submitted_slot
            &&& report.leader_slot == record.leader_slot
            &&& report.blockhash@ == record.blockhash@
            &&& report.tip_lamports == record.tip_lamports
            &&& report.processed_latency_ms == record.processed_latency_ms
            &&& report.confirmed_latency_ms == record.confirmed_latency_ms
        },
{
    let failure_report = TxStack::failure_report(&record);
    SubmitSignedBundleOutput { record, failure_report }
}

/// What the classification tool takes.
#[derive(Clone, Debug)]
pub struct ClassifyFailureParams {
    pub detail: String,
}

/// What the classification tool gives.
#[derive(Clone, Copy, Debug, PartialEq, Eq, Structural)]
pub struct ClassifyFailureOutput {
    pub failure: FailureKind,
}

/// The failure that a message tells of.
pub fn classify_failure(params: &ClassifyFailureParams) -> (output: ClassifyFailureOutput)
    ensures
        output.failure == lifecycle::failure_of(params.detail@),
{
    ClassifyFailureOutput { failure: FailureKind::classify(params.detail.as_str()) }
}

/// What the recording tool takes.
#[derive(Debug)]
pub struct RecordAgentDecisionParams {
    pub request_id: String,
    pub attempt: u32,
    pub input_state: JsonValue,
    pub decision: JsonValue,
    pub policy: JsonValue,
    pub outcome: Option<JsonValue>,
}

/// The record of a decision that is noted at a given moment.
pub open spec fn audit_record(params: RecordAgentDecisionParams, at: UtcTime) -> AgentAuditRecord {
    AgentAuditRecord {
        request_id: params.request_id,
        attempt: params.attempt,
        at,
        input_state: params.input_state,
        decision: params.decision,
        policy: params.policy,
        outcome: params.outcome,
    }
}

/// The record of a decision that is noted now.
pub fn record_agent_decision(params: RecordAgentDecisionParams) -> (record: AgentAuditRecord)
    ensures
        record == audit_record(params, record.at),
{
    AgentAuditRecord {
        request_id: params.request_id,
        attempt: params.attempt,
        at: utc_now(),
        input_state: params.input_state,
        decision: params.decision,
        policy: params.policy,
        outcome: params.outcome,
    }
}

/// Why the server's arguments cannot be used.
#[derive(Debug)]
pub enum BindError {
    /// `--bind` stands last.
    MissingValue,
    /// The argument is unknown.
    UnknownArgument(String),
}

/// What a bind error holds.
pub ghost enum BindErrorView {
    MissingValue,
    UnknownArgument(Seq<char>),
}

impl View for BindError {
    type V = BindErrorView;

    open spec fn view(&self) -> BindErrorView {
        match *self {
            BindError::MissingValue => BindErrorView::MissingValue,
            BindError::UnknownArgument(arg) => BindErrorView::UnknownArgument(arg@),
        }
    }
}

impl BindError {
    pub fn message(&self) -> (message: String)
        ensures
            message@ == match self@ {
                BindErrorView::MissingValue => "--bind requires a value"@,
                BindErrorView::UnknownArgument(arg) => "unknown agent_mcp argument: "@ + arg,
            },
    {
        match self {
            BindError::MissingValue => "--bind requires a value".to_owned(),
            BindError::UnknownArgument(arg) => join2("unknown agent_mcp argument: ", arg.as_str()),
        }
    }
}

/// The address that the arguments name: the last `--bind`, or the given one.
pub open spec fn bind_of(args: Seq<Seq<char>>, bind: Seq<char>) -> Result<Seq<char>, BindErrorView>
    decreases args.len(),
{
    if args.len() == 0 {
        Ok(bind)
    } else if args[0] != "--bind"@ {
        Err(BindErrorView::UnknownArgument(args[0]))
    } else if args.len() == 1 {
        Err(BindErrorView::MissingValue)
    } else {
        bind_of(args.skip(2), args[1])
    }
}

/// The address to listen on, by the arguments and the environment, as text.
pub fn parse_bind_addr(args: &Vec<String>, env_bind: Option<String>) -> (out: Result<
    String,
    BindError,
>)
    ensures
        match out {
            Ok(bind) => bind_of(
                text::texts(args@),
                config::value_or(text::opt_text(env_bind), "127.0.0.1:8080"@),
            ) == Ok::<Seq<char>, BindErrorView>(bind@),
            Err(err) => bind_of(
                text::texts(args@),
                config::value_or(text::opt_text(env_bind), "127.0.0.1:8080"@),
            ) == Err::<Seq<char>, BindErrorView>(err@),
        },
{
    let ghost all = text::texts(args@);
    let mut bind: String = match env_bind {
        Some(bind) => bind,
        None => "127.0.0.1:8080".to_owned(),
    };
    let ghost first = bind@;
    let mut i: usize = 0;
    assert(all.skip(0) =~= all);
    while i < args.len()
        invariant
            i <= args.len(),
            all == text::texts(args@),
            first == config::value_or(text::opt_text(env_bind), "127.0.0.1:8080"@),
            bind_of(all, first) == bind_of(all.skip(i as int), bind@),
        decreases args.len() - i,
    {
        let ghost rest = all.skip(i as int);
        assert(rest[0] == args@[i as int]@);
        let arg = args[i].as_str();
        if !same_text(arg, "--bind") {
            return Err(BindError::UnknownArgument(owned(arg)));
        }
        if i + 1 >= args.len() {
            return Err(BindError::MissingValue);
        }
        assert(rest[1] == args@[i + 1]@);
        assert(rest.skip(2) =~= all.skip(i + 2));
        bind = args[i + 1].clone();
        i = i + 2;
    }
    Ok(bind)
}

/// The last address that the arguments name wins, whatever the environment or
/// earlier ones name; without one it is the given.
pub proof fn the_last_address_wins(first: Seq<Seq<char>>, second: Seq<Seq<char>>, bind: Seq<char>)
    ensures
        first.len() % 2 == 0 ==> match bind_of(first, bind) {
            Ok(next) => bind_of(first + second, bind) == bind_of(second, next),
            Err(why) => bind_of(first + second, bind) == Err::<Seq<char>, BindErrorView>(why),
        },
        first.len() == 0 ==> bind_of(first, bind) == Ok::<Seq<char>, BindErrorView>(bind),
        first.len() > 0 && first[0] != "--bind"@ ==> bind_of(first, bind) == Err::<
            Seq<char>,
            BindErrorView,
        >(BindErrorView::UnknownArgument(first[0])),
        first.len() == 1 && first[0] == "--bind"@ ==> bind_of(first, bind) == Err::<
            Seq<char>,
            BindErrorView,
        >(BindErrorView::MissingValue),
        first.len() == 2 && first[0] == "--bind"@ ==> bind_of(first, bind) == Ok::<
            Seq<char>,
            BindErrorView,
        >(first[1]),
    decreases first.len(),
{
    if first.len() == 0 {
        assert(first + second =~= second);
    } else if first.len() % 2 == 0 {
        assert((first + second)[0] == first[0]);
        assert((first + second)[1] == first[1]);
        assert((first + second).skip(2) =~= first.skip(2) + second);
        the_last_address_wins(first.skip(2), second, first[1]);
    }
}

/// A parameter names the encoding of its own name.
pub proof fn parameters_name_their_encoding(value: SignedTransactionEncodingParam)
    ensures
        value == SignedTransactionEncodingParam::Base64 <==> encoding_of_param(value)
            == SignedTransactionEncoding::Base64,
        value == SignedTransactionEncodingParam::Base58 <==> encoding_of_param(value)
            == SignedTransactionEncoding::Base58,
{
}

/// What the submit tool takes is submitted as it was given.
pub proof fn requests_are_handed_on(params: SubmitSignedBundleParams)
    ensures
        ({
            let request = request_of(params);
            &&& request.submission_id == params.submission_id
            &&& request.attempt == params.attempt
            &&& request.encoded_transaction == params.encoded_transaction
            &&& request.encoding == encoding_of_param(params.encoding)
            &&& request.wait_for_leader == params.wait_for_leader
            &&& request.max_wait_slots == params.max_wait_slots
            &&& request.observed_tip_lamports == params.observed_tip_lamports
        }),
{
}

/// Every part of a decision's record is what was handed in, under its own name.
pub proof fn decisions_are_recorded_as_handed_in(params: RecordAgentDecisionParams, at: UtcTime)
    ensures
        ({
            let record = audit_record(params, at);
            &&& record.request_id == params.request_id
            &&& record.attempt == params.attempt
            &&& record.at == at
            &&& record.input_state == params.input_state
            &&& record.decision == params.decision
            &&& record.policy == params.policy
            &&& record.outcome == params.outcome
        }),
{
}

} // verus!
