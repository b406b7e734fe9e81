//! The agent's host: its arguments, the loop from evidence to decision to
//! submission, and the replies of the tools it calls.

use crate::agent;
use crate::agent::{
    AgentFailureReport, AiAgent, OperationalAction, OperationalContext, OperationalDecision,
};
use crate::config;
use crate::json::JsonValue;
use crate::policy;
use crate::policy::{validate_decision, PolicyError, PolicyLimits};
use crate::stack;
use crate::stack::{
    ControlledSignedSubmitRequest, FailureReport, NetworkState, SignedTransactionEncoding,
};
use crate::text;
use crate::text::{decimal_text, join2, join3, owned, parse_u64, same_text, trim};
use vstd::prelude::*;

verus! {

// ---------------------------------------------------------------------------
// Arguments
// ---------------------------------------------------------------------------

/// Why the host's arguments cannot be used.
#[derive(Debug)]
pub enum HostError {
    /// The last argument needs a value.
    MissingValue(String),
    /// The encoding is unknown.
    UnsupportedEncoding(String),
    /// The observed tip is no number.
    InvalidTip,
    /// The argument is unknown.
    UnknownArgument(String),
    /// The transaction is given twice.
    TwoTransactions,
    /// The transaction is missing.
    NoTransaction,
}

/// What a host error holds.
pub ghost enum HostErrorView {
    MissingValue(Seq<char>),
    UnsupportedEncoding(Seq<char>),
    InvalidTip,
    UnknownArgument(Seq<char>),
    TwoTransactions,
    NoTransaction,
}

impl View for HostError {
    type V = HostErrorView;

    open spec fn view(&self) -> HostErrorView {
        match *self {
            HostError::MissingValue(flag) => HostErrorView::MissingValue(flag@),
            HostError::UnsupportedEncoding(name) => HostErrorView::UnsupportedEncoding(name@),
            HostError::InvalidTip => HostErrorView::InvalidTip,
            HostError::UnknownArgument(arg) => HostErrorView::UnknownArgument(arg@),
            HostError::TwoTransactions => HostErrorView::TwoTransactions,
            HostError::NoTransaction => HostErrorView::NoTransaction,
        }
    }
}

/// What is said about a host error.
pub open spec fn host_message(error: HostErrorView) -> Seq<char> {
    match error {
        HostErrorView::MissingValue(flag) => flag + " requires a value"@,
        HostErrorView::UnsupportedEncoding(name) => "unsupported --encoding "@ + name
            + "; use base64 or base58"@,
        HostErrorView::InvalidTip => "invalid --observed-tip-lamports value"@,
        HostErrorView::UnknownArgument(arg) => "unknown agent_host argument: "@ + arg,
        HostErrorView::TwoTransactions =>
            "use either --encoded-transaction or --transaction-file, not both"@,
        HostErrorView::NoTransaction =>
            "agent_host requires a pre-signed encoded transaction; pass --encoded-transaction VALUE or --transaction-file PATH"@,
    }
}

impl HostError {
    pub fn message(&self) -> (message: String)
        ensures
            message@ == host_message(self@),
    {
        match self {
            HostError::MissingValue(flag) => join2(flag.as_str(), " requires a value"),
            HostError::UnsupportedEncoding(name) => join3(
                "unsupported --encoding ",
                name.as_str(),
                "; use base64 or base58",
            ),
            HostError::InvalidTip => "invalid --observed-tip-lamports value".to_owned(),
            HostError::UnknownArgument(arg) => join2(
                "unknown agent_host argument: ",
                arg.as_str(),
            ),
            HostError::TwoTransactions =>
                "use either --encoded-transaction or --transaction-file, not both".to_owned(),
            HostError::NoTransaction =>
                "agent_host requires a pre-signed encoded transaction; pass --encoded-transaction VALUE or --transaction-file PATH".to_owned(),
        }
    }
}

/// The encoding of a name.
pub open spec fn encoding_of(name: Seq<char>) -> Option<SignedTransactionEncoding> {
    if name == "base64"@ {
        Some(SignedTransactionEncoding::Base64)
    } else if name == "base58"@ {
        Some(SignedTransactionEncoding::Base58)
    } else {
        None
    }
}

/// The encoding of a name.
pub fn parse_encoding(value: &str) -> (out: Result<SignedTransactionEncoding, HostError>)
    ensures
        match out {
            Ok(encoding) => encoding_of(value@) == Some(encoding),
            Err(err) => encoding_of(value@) is None && err@ == HostErrorView::UnsupportedEncoding(
                value@,
            ),
        },
{
    if same_text(value, "base64") {
        Ok(SignedTransactionEncoding::Base64)
    } else if same_text(value, "base58") {
        Ok(SignedTransactionEncoding::Base58)
    } else {
        Err(HostError::UnsupportedEncoding(owned(value)))
    }
}

/// What the arguments have set so far.
#[derive(Debug)]
pub struct HostSettings {
    pub request_id: String,
    pub mcp_url: String,
    pub encoded_transaction: Option<String>,
    pub transaction_file: Option<String>,
    pub encoding: SignedTransactionEncoding,
    pub observed_tip_lamports: Option<u64>,
}

/// What host settings hold.
pub ghost struct HostSettingsView {
    pub request_id: Seq<char>,
    pub mcp_url: Seq<char>,
    pub encoded_transaction: Option<Seq<char>>,
    pub transaction_file: Option<Seq<char>>,
    pub encoding: SignedTransactionEncoding,
    pub observed_tip_lamports: Option<u64>,
}

impl View for HostSettings {
    type V = HostSettingsView;

    open spec fn view(&self) -> HostSettingsView {
        HostSettingsView {
            request_id: self.request_id@,
            mcp_url: self.mcp_url@,
            encoded_transaction: text::opt_text(self.encoded_transaction),
            transaction_file: text::opt_text(self.transaction_file),
            encoding: self.encoding,
            observed_tip_lamports: self.observed_tip_lamports,
        }
    }
}

/// Whether an argument is one that takes a value.
pub open spec fn is_host_flag(arg: Seq<char>) -> bool {
    ||| arg == "--request-id"@
    ||| arg == "--mcp-url"@
    ||| arg == "--encoded-transaction"@
    ||| arg == "--transaction-file"@
    ||| arg == "--encoding"@
    ||| arg == "--observed-tip-lamports"@
}

/// The settings after one argument with its value.
pub open spec fn host_option(
    settings: HostSettingsView,
    flag: Seq<char>,
    value: Seq<char>,
) -> Result<HostSettingsView, HostErrorView> {
    if flag == "--request-id"@ {
        Ok(HostSettingsView { request_id: value, ..settings })
    } else if flag == "--mcp-url"@ {
        Ok(HostSettingsView { mcp_url: value, ..settings })
    } else if flag == "--encoded-transaction"@ {
        Ok(HostSettingsView { encoded_transaction: Some(value), ..settings })
    } else if flag == "--transaction-file"@ {
        Ok(HostSettingsView { transaction_file: Some(value), ..settings })
    } else if flag == "--encoding"@ {
        match encoding_of(value) {
            Some(encoding) => Ok(HostSettingsView { encoding, ..settings }),
            None => Err(HostErrorView::UnsupportedEncoding(value)),
        }
    } else {
        match text::parse_unsigned(value, u64::MAX as nat) {
            Some(tip) => Ok(
                HostSettingsView { observed_tip_lamports: Some(tip as u64), ..settings },
            ),
            None => Err(HostErrorView::InvalidTip),
        }
    }
}

/// The settings after all arguments, in their order.
pub open spec fn host_options(settings: HostSettingsView, args: Seq<Seq<char>>) -> Result<
    HostSettingsView,
    HostErrorView,
>
    decreases args.len(),
{
    if args.len() == 0 {
        Ok(settings)
    } else if !is_host_flag(args[0]) {
        Err(HostErrorView::UnknownArgument(args[0]))
    } else if args.len() == 1 {
        Err(HostErrorView::MissingValue(args[0]))
    } else {
        match host_option(settings, args[0], args[1]) {
            Ok(next) => host_options(next, args.skip(2)),
            Err(err) => Err(err),
        }
    }
}

/// Where the transaction comes from.
#[derive(Debug)]
pub enum TransactionSource {
    Encoded(String),
    File(String),
}

/// What the host is to do, before a transaction file is read.
#[derive(Debug)]
pub struct HostPlan {
    pub request_id: String,
    pub mcp_url: String,
    pub source: TransactionSource,
    pub encoding: SignedTransactionEncoding,
    pub observed_tip_lamports: Option<u64>,
}

/// What the host is to do.
#[derive(Debug)]
pub struct HostArgs {
    pub request_id: String,
    pub mcp_url: String,
    pub encoded_transaction: String,
    pub encoding: SignedTransactionEncoding,
    pub observed_tip_lamports: Option<u64>,
}

/// The settings that hold without arguments.
pub open spec fn host_defaults(request_id: Seq<char>, mcp_url: Option<Seq<char>>) -> HostSettingsView {
    HostSettingsView {
        request_id,
        mcp_url: config::value_or(mcp_url, "http://127.0.0.1:8080/mcp"@),
        encoded_transaction: None,
        transaction_file: None,
        encoding: SignedTransactionEncoding::Base64,
        observed_tip_lamports: None,
    }
}

/// What is wrong with settings, if anything: they name one transaction, by its
/// text or by its file.
pub open spec fn fault_of(settings: HostSettingsView) -> Option<HostErrorView> {
    if settings.encoded_transaction is Some && settings.transaction_file is Some {
        Some(HostErrorView::TwoTransactions)
    } else if settings.encoded_transaction is None && settings.transaction_file is None {
        Some(HostErrorView::NoTransaction)
    } else {
        None
    }
}

/// Whether a plan is what settings ask for: the transaction comes from the text
/// or from the file, whichever is set.
pub open spec fn is_plan_of(plan: HostPlan, settings: HostSettingsView) -> bool {
    &&& plan.request_id@ == settings.request_id
    &&& plan.mcp_url@ == settings.mcp_url
    &&& plan.encoding == settings.encoding
    &&& plan.observed_tip_lamports == settings.observed_tip_lamports
    &&& match plan.source {
        TransactionSource::Encoded(encoded) => settings.encoded_transaction == Some(encoded@)
            && settings.transaction_file is None,
        TransactionSource::File(path) => settings.transaction_file == Some(path@)
            && settings.encoded_transaction is None,
    }
}

/// The text of the transaction, by where it comes from and what its file holds.
pub open spec fn transaction_text(source: TransactionSource, contents: Seq<char>) -> Seq<char> {
    match source {
        TransactionSource::Encoded(encoded) => encoded@,
        TransactionSource::File(_) => text::trimmed(contents),
    }
}

/// The name of a request that was given none.
pub fn default_request_id(now_ms: u64) -> (id: String)
    ensures
        id@ == "agent-request-"@ + text::decimal(now_ms as nat),
{
    join2("agent-request-", decimal_text(now_ms).as_str())
}

impl HostSettings {
    /// Takes one argument with its value.
    fn set(&mut self, flag: &str, value: &str) -> (out: Result<(), HostError>)
        requires
            is_host_flag(flag@),
        ensures
            match out {
                Ok(_) => host_option(old(self)@, flag@, value@) == Ok::<
                    HostSettingsView,
                    HostErrorView,
                >(final(self)@),
                Err(err) => host_option(old(self)@, flag@, value@) == Err::<
                    HostSettingsView,
                    HostErrorView,
                >(err@),
            },
    {
        if same_text(flag, "--request-id") {
            self.request_id = owned(value);
        } else if same_text(flag, "--mcp-url") {
            self.mcp_url = owned(value);
        } else if same_text(flag, "--encoded-transaction") {
            self.encoded_transaction = Some(owned(value));
        } else if same_text(flag, "--transaction-file") {
            self.transaction_file = Some(owned(value));
        } else if same_text(flag, "--encoding") {
            match parse_encoding(value) {
                Ok(encoding) => {
                    self.encoding = encoding;
                },
                Err(err) => return Err(err),
            }
        } else {
            match parse_u64(value) {
                Some(tip) => {
                    self.observed_tip_lamports = Some(tip);
                },
                None => return Err(HostError::InvalidTip),
            }
        }
        Ok(())
    }
}

/// Whether an argument is one that takes a value.
fn takes_value(arg: &str) -> (takes: bool)
    ensures
        takes == is_host_flag(arg@),
{
    same_text(arg, "--request-id") || same_text(arg, "--mcp-url") || same_text(
        arg,
        "--encoded-transaction",
    ) || same_text(arg, "--transaction-file") || same_text(arg, "--encoding") || same_text(
        arg,
        "--observed-tip-lamports",
    )
}

/// What the host's arguments ask for. The request's name and the server's URL
/// are given where the arguments do not set them.
pub fn parse_args(args: &Vec<String>, request_id: String, mcp_url: Option<String>) -> (out: Result<
    HostPlan,
    HostError,
>)
    ensures
        match host_options(
            host_defaults(request_id@, text::opt_text(mcp_url)),
            text::texts(args@),
        ) {
            Err(why) => out matches Err(err) && err@ == why,
            Ok(settings) => match fault_of(settings) {
                Some(why) => out matches Err(err) && err@ == why,
                None => out matches Ok(plan) && is_plan_of(plan, settings),
            },
        },
{
    let ghost all = text::texts(args@);
    let ghost defaults = host_defaults(request_id@, text::opt_text(mcp_url));
    let mut settings = HostSettings {
        request_id,
        mcp_url: match mcp_url {
            Some(url) => url,
            None => "http://127.0.0.1:8080/mcp".to_owned(),
        },
        encoded_transaction: None,
        transaction_file: None,
        encoding: SignedTransactionEncoding::Base64,
        observed_tip_lamports: None,
    };
    let mut i: usize = 0;
    assert(all.skip(0) =~= all);
    while i < args.len()
        invariant
            i <= args.len(),
            all == text::texts(args@),
            defaults == host_defaults(request_id@, text::opt_text(mcp_url)),
            host_options(defaults, all) == host_options(settings@, all.skip(i as int)),
        decreases args.len() - i,
    {
        let ghost rest = all.skip(i as int);
        assert(rest[0] == args@[i as int]@);
        let arg = args[i].as_str();
        if !takes_value(arg) {
            return Err(HostError::UnknownArgument(owned(arg)));
        }
        if i + 1 >= args.len() {
            return Err(HostError::MissingValue(owned(arg)));
        }
        assert(rest[1] == args@[i + 1]@);
        assert(rest.skip(2) =~= all.skip(i + 2));
        match settings.set(arg, args[i + 1].as_str()) {
            Ok(_) => {},
            Err(err) => return Err(err),
        }
        i = i + 2;
    }
    let source = match (settings.encoded_transaction, settings.transaction_file) {
        (Some(encoded), None) => TransactionSource::Encoded(encoded),
        (None, Some(path)) => TransactionSource::File(path),
        (Some(_), Some(_)) => return Err(HostError::TwoTransactions),
        (None, None) => return Err(HostError::NoTransaction),
    };
    Ok(
        HostPlan {
            request_id: settings.request_id,
            mcp_url: settings.mcp_url,
            source,
            encoding: settings.encoding,
            observed_tip_lamports: settings.observed_tip_lamports,
        },
    )
}

impl HostPlan {
    /// The file to read before the host can start.
    pub fn file(&self) -> (path: Option<String>)
        ensures
            text::opt_text(path) == match self.source {
                TransactionSource::Encoded(_) => None,
                TransactionSource::File(path) => Some(path@),
            },
    {
        match &self.source {
            TransactionSource::Encoded(_) => None,
            TransactionSource::File(path) => Some(path.clone()),
        }
    }

    /// The host's arguments, with the contents of the transaction file where the
    /// transaction comes from one. White space around the contents is dropped.
    pub fn into_args(self, contents: &str) -> (args: HostArgs)
        ensures
            args.request_id@ == self.request_id@,
            args.mcp_url@ == self.mcp_url@,
            args.encoding == self.encoding,
            args.observed_tip_lamports == self.observed_tip_lamports,
            args.encoded_transaction@ == transaction_text(self.source, contents@),
    {
        HostArgs {
            request_id: self.request_id,
            mcp_url: self.mcp_url,
            encoded_transaction: match self.source {
                TransactionSource::Encoded(encoded) => encoded,
                TransactionSource::File(_) => trim(contents),
            },
            encoding: self.encoding,
            observed_tip_lamports: self.observed_tip_lamports,
        }
    }
}

// ---------------------------------------------------------------------------
// The loop
// ---------------------------------------------------------------------------

/// What a failure report tells the agent.
pub fn agent_failure_report(report: &FailureReport) -> (out: AgentFailureReport)
    ensures
        tells_failure(out, *report),
{
    AgentFailureReport {
        failure: report.failure,
        detail: report.detail.clone(),
        submitted_slot: report.submitted_slot,
        blockhash: report.blockhash.clone(),
        processed_latency_ms: report.processed_latency_ms,
        confirmed_latency_ms: report.confirmed_latency_ms,
    }
}

/// Whether the agent's report says what the stack's report says.
pub open spec fn tells_failure(told: AgentFailureReport, report: FailureReport) -> bool {
    &&& told.failure == report.failure
    &&& told.detail@ == report.detail@
    &&& told.submitted_slot == report.submitted_slot
    &&& told.blockhash@ == report.blockhash@
    &&& told.processed_latency_ms == report.processed_latency_ms
    &&& told.confirmed_latency_ms == report.confirmed_latency_ms
}

/// The state of the loop.
#[derive(Debug)]
pub struct HostState {
    pub attempt: u32,
    pub previous_tip_lamports: u64,
    pub failure: Option<FailureReport>,
}

/// How long a slot takes, in milliseconds.
pub const SLOT_MS: u64 = 400;

/// The largest wait, in slots, whose length in milliseconds is a 64-bit number.
pub const MAX_PAUSE_SLOTS: u64 = 46_116_860_184_273_879;

/// The pause of a decision to wait.
pub open spec fn pause_ms(max_wait_slots: u64) -> int {
    if max_wait_slots == 0 {
        SLOT_MS as int
    } else {
        max_wait_slots * SLOT_MS
    }
}

/// Whether the pause of a decision can be told in milliseconds, if it is one to
/// wait that the policy accepts.
pub open spec fn can_pause(
    decision: agent::DecisionView,
    attempt: u32,
    limits: PolicyLimits,
) -> bool {
    policy::limited(decision, attempt, limits) matches Ok(accepted) ==> accepted.action
        == OperationalAction::WaitForLeader ==> accepted.max_wait_slots <= MAX_PAUSE_SLOTS
}

/// What the host does about a decision.
#[derive(Debug)]
pub enum HostStep {
    /// Record the decision and the error, and end with it.
    Reject { decision: OperationalDecision, error: PolicyError },
    /// Record the decision, pause, and look again.
    Wait { decision: OperationalDecision, pause_ms: u64 },
    /// Record the decision and end.
    Stop { decision: OperationalDecision },
    /// Submit, then record the decision with the outcome.
    Submit { decision: OperationalDecision, request: ControlledSignedSubmitRequest },
}

impl HostStep {
    /// The decision that is recorded.
    pub open spec fn recorded(self) -> agent::DecisionView {
        match self {
            HostStep::Reject { decision, .. } => decision@,
            HostStep::Wait { decision, .. } => decision@,
            HostStep::Stop { decision } => decision@,
            HostStep::Submit { decision, .. } => decision@,
        }
    }
}

/// What the host does after a submission.
#[derive(Clone, Copy, Debug, PartialEq, Eq, Structural)]
pub enum HostNext {
    /// It failed: decide again.
    Again,
    /// It failed once too often: end.
    OutOfRetries,
    /// It did not fail: end.
    Completed,
}

/// Whether a request hands on the signed transaction as it was given.
pub open spec fn is_request_of(
    request: ControlledSignedSubmitRequest,
    args: HostArgs,
    attempt: u32,
    decision: agent::DecisionView,
) -> bool {
    &&& request.submission_id@ == args.request_id@
    &&& request.attempt == attempt
    &&& request.encoded_transaction@ == args.encoded_transaction@
    &&& request.encoding == args.encoding
    &&& request.wait_for_leader == (decision.action == OperationalAction::Retry)
    &&& request.max_wait_slots == Some(decision.max_wait_slots)
    &&& request.observed_tip_lamports == match args.observed_tip_lamports {
        Some(tip) => Some(tip),
        None => Some(decision.tip_lamports),
    }
}

/// The request that submits the signed transaction.
pub fn submit_request(args: &HostArgs, attempt: u32, decision: &OperationalDecision) -> (request:
    ControlledSignedSubmitRequest)
    ensures
        is_request_of(request, *args, attempt, decision@),
{
    ControlledSignedSubmitRequest {
        submission_id: args.request_id.clone(),
        attempt,
        encoded_transaction: args.encoded_transaction.clone(),
        encoding: args.encoding,
        wait_for_leader: matches!(decision.action, OperationalAction::Retry),
        max_wait_slots: Some(decision.max_wait_slots),
        observed_tip_lamports: match args.observed_tip_lamports {
            Some(tip) => Some(tip),
            None => Some(decision.tip_lamports),
        },
    }
}

/// What the outcome of a submission makes of the loop's state, and what the loop
/// does next.
pub open spec fn responded(
    before: HostState,
    after: HostState,
    tip_lamports: u64,
    report: Option<FailureReport>,
    next: HostNext,
    limits: PolicyLimits,
) -> bool {
    &&& after.previous_tip_lamports == tip_lamports
    &&& match report {
        Some(failed) => {
            &&& after.attempt == before.attempt + 1
            &&& after.failure == Some(failed)
            &&& next == if after.attempt > limits.max_retries {
                HostNext::OutOfRetries
            } else {
                HostNext::Again
            }
        },
        None => {
            &&& after.attempt == before.attempt
            &&& after.failure == before.failure
            &&& next == HostNext::Completed
        },
    }
}

impl HostState {
    /// The state before the first decision, by the tip that was observed.
    pub open spec fn started(observed_tip_lamports: Option<u64>) -> HostState {
        HostState {
            attempt: 0,
            previous_tip_lamports: match observed_tip_lamports {
                Some(tip) => tip,
                None => 0,
            },
            failure: None,
        }
    }

    /// The state before the first decision.
    pub fn start(args: &HostArgs) -> (state: HostState)
        ensures
            state == HostState::started(args.observed_tip_lamports),
    {
        HostState {
            attempt: 0,
            previous_tip_lamports: match args.observed_tip_lamports {
                Some(tip) => tip,
                None => 0,
            },
            failure: None,
        }
    }

    /// Whether a context is what the loop knows at this point. A signed
    /// transaction's blockhash and tip are fixed.
    pub open spec fn is_context(
        self,
        ctx: OperationalContext,
        request_id: Seq<char>,
        network: NetworkState,
    ) -> bool {
        &&& ctx.request_id@ == request_id
        &&& ctx.attempt == self.attempt
        &&& ctx.current_slot == Some(network.current_slot)
        &&& ctx.leader_slot == network.next_jito_leader_slot
        &&& ctx.slots_until_leader == network.slots_until_jito_leader
        &&& ctx.recent_tip == network.recent_tip
        &&& ctx.previous_tip_lamports == self.previous_tip_lamports
        &&& ctx.tip_floor_lamports == network.tip_floor_lamports
        &&& ctx.max_tip_lamports == network.max_tip_lamports
        &&& !ctx.can_refresh_blockhash
        &&& !ctx.can_adjust_tip
        &&& match (ctx.failure, self.failure) {
            (Some(told), Some(report)) => tells_failure(told, report),
            (None, None) => true,
            _ => false,
        }
    }

    /// What the agent decides on.
    pub fn context(&self, request_id: &str, network: &NetworkState) -> (ctx: OperationalContext)
        ensures
            self.is_context(ctx, request_id@, *network),
    {
        OperationalContext {
            request_id: owned(request_id),
            attempt: self.attempt,
            current_slot: Some(network.current_slot),
            leader_slot: network.next_jito_leader_slot,
            slots_until_leader: network.slots_until_jito_leader,
            recent_tip: network.recent_tip.clone(),
            previous_tip_lamports: self.previous_tip_lamports,
            tip_floor_lamports: network.tip_floor_lamports,
            max_tip_lamports: network.max_tip_lamports,
            can_refresh_blockhash: false,
            can_adjust_tip: false,
            failure: match &self.failure {
                Some(report) => Some(agent_failure_report(report)),
                None => None,
            },
        }
    }

    /// What the host does in a context, with what the language model answered:
    /// nothing where it was not asked or its answer could not be read.
    pub fn next_step(
        &self,
        agent: &AiAgent,
        ctx: &OperationalContext,
        answer: Option<OperationalDecision>,
        limits: &PolicyLimits,
        args: &HostArgs,
    ) -> (step: HostStep)
        requires
            can_pause(
                agent::decision_of(
                    agent.api_key is Some,
                    *ctx,
                    match answer {
                        Some(d) => Some(d@),
                        None => None,
                    },
                ),
                self.attempt,
                *limits,
            ),
        ensures
            self.is_step(
                step,
                agent::decision_of(
                    agent.api_key is Some,
                    *ctx,
                    match answer {
                        Some(d) => Some(d@),
                        None => None,
                    },
                ),
                *limits,
                *args,
            ),
    {
        let decision = agent.decide_operation(ctx, answer);
        self.judge(decision, limits, args)
    }

    /// What the host does about a decision.
    pub fn judge(&self, decision: OperationalDecision, limits: &PolicyLimits, args: &HostArgs) -> (
    step: HostStep)
        requires
            can_pause(decision@, self.attempt, *limits),
        ensures
            self.is_step(step, decision@, *limits, *args),
    {
        let given = decision.clone();
        let validated = match validate_decision(decision, self.attempt, limits) {
            Ok(validated) => validated,
            Err(error) => return HostStep::Reject { decision: given, error },
        };
        let decision = validated.decision;
        match decision.action {
            OperationalAction::WaitForLeader => {
                let slots: u64 = if decision.max_wait_slots == 0 {
                    1
                } else {
                    decision.max_wait_slots
                };
                let pause_ms: u64 = slots * SLOT_MS;
                HostStep::Wait { decision, pause_ms }
            },
            OperationalAction::Abandon => HostStep::Stop { decision },
            OperationalAction::Escalate => HostStep::Stop { decision },
            OperationalAction::SubmitNow => {
                let request = submit_request(args, self.attempt, &decision);
                HostStep::Submit { decision, request }
            },
            OperationalAction::Retry => {
                let request = submit_request(args, self.attempt, &decision);
                HostStep::Submit { decision, request }
            },
        }
    }

    /// Whether a step is what the policy makes of a decision.
    pub open spec fn is_step(
        self,
        step: HostStep,
        decision: agent::DecisionView,
        limits: PolicyLimits,
        args: HostArgs,
    ) -> bool {
        match policy::limited(decision, self.attempt, limits) {
            Err(why) => step matches HostStep::Reject { decision: given, error } && error == why
                && given@ == decision,
            Ok(accepted) => match accepted.action {
                OperationalAction::WaitForLeader => step matches HostStep::Wait {
                    decision: kept,
                    pause_ms: pause,
                } && kept@ == accepted && pause == pause_ms(accepted.max_wait_slots),
                OperationalAction::Abandon | OperationalAction::Escalate =>
                    step matches HostStep::Stop { decision: kept } && kept@ == accepted,
                OperationalAction::SubmitNow | OperationalAction::Retry =>
                    step matches HostStep::Submit { decision: kept, request } && kept@ == accepted
                    && is_request_of(request, args, self.attempt, accepted),
            },
        }
    }

    /// Takes the outcome of a submission.
    pub fn on_response(
        &mut self,
        tip_lamports: u64,
        report: Option<FailureReport>,
        limits: &PolicyLimits,
    ) -> (next: HostNext)
        requires
            report is Some ==> old(self).attempt < u32::MAX,
        ensures
            responded(*old(self), *final(self), tip_lamports, report, next, *limits),
    {
        self.previous_tip_lamports = tip_lamports;
        match report {
            Some(failed) => {
                self.failure = Some(failed);
                self.attempt = self.attempt + 1;
                if self.attempt > limits.max_retries {
                    HostNext::OutOfRetries
                } else {
                    HostNext::Again
                }
            },
            None => HostNext::Completed,
        }
    }
}

/// Whether an outcome is the one that is recorded with a decision that is not
/// submitted.
pub open spec fn is_outcome_of(
    outcome: Option<(&'static str, Option<String>)>,
    step: HostStep,
) -> bool {
    match step {
        HostStep::Reject { error, .. } => outcome matches Some((key, Some(message))) && key@
            == "policy_error"@ && message@ == policy::policy_message(error),
        HostStep::Wait { .. } => outcome matches Some((key, None)) && key@ == "waited"@,
        HostStep::Stop { .. } => outcome matches Some((key, None)) && key@ == "stopped"@,
        HostStep::Submit { .. } => outcome is None,
    }
}

/// The outcome that is recorded with a decision that is not submitted. What is
/// recorded with one that is comes from the submission.
pub fn step_outcome(step: &HostStep) -> (outcome: Option<(&'static str, Option<String>)>)
    ensures
        is_outcome_of(outcome, *step),
{
    match step {
        HostStep::Reject { error, .. } => Some(("policy_error", Some(error.message()))),
        HostStep::Wait { .. } => Some(("waited", None)),
        HostStep::Stop { .. } => Some(("stopped", None)),
        HostStep::Submit { .. } => None,
    }
}

/// The outcome that is recorded with a decision whose submission brought no
/// answer.
pub fn failed_submit_outcome(message: &str) -> (outcome: (&'static str, Option<String>))
    ensures
        outcome.0@ == "submit_error"@,
        text::opt_text(outcome.1) == Some(message@),
{
    ("submit_error", Some(owned(message)))
}

/// Nothing is submitted after more attempts than the policy allows, with a tip
/// or a wait outside its limits, or with another transaction than the given one.
pub proof fn submissions_obey_the_policy(
    state: HostState,
    step: HostStep,
    decision: agent::DecisionView,
    limits: PolicyLimits,
    args: HostArgs,
)
    requires
        state.is_step(step, decision, limits, args),
        step is Submit,
    ensures
        state.attempt <= limits.max_retries,
        decision.writes(),
        step->request.encoded_transaction@ == args.encoded_transaction@,
        step->request.encoding == args.encoding,
        step->request.attempt == state.attempt,
        limits.min_tip_lamports <= step.recorded().tip_lamports <= limits.max_tip_lamports,
        step.recorded().max_wait_slots <= limits.max_wait_slots,
{
}

/// A submission is checked, and travels, as the transaction that the host was
/// given.
pub proof fn the_given_transaction_is_submitted(
    state: HostState,
    step: HostStep,
    decision: agent::DecisionView,
    limits: PolicyLimits,
    args: HostArgs,
)
    requires
        state.is_step(step, decision, limits, args),
        step is Submit,
    ensures
        stack::submittable(step->request.encoded_transaction@, step->request.encoding)
            == stack::submittable(args.encoded_transaction@, args.encoding),
        stack::payload(step->request.encoded_transaction@, step->request.encoding)
            == stack::payload(args.encoded_transaction@, args.encoding),
{
}

/// Limits whose longest wait can be told in milliseconds do so for every
/// decision.
pub proof fn short_waits_can_be_told(
    decision: agent::DecisionView,
    attempt: u32,
    limits: PolicyLimits,
)
    requires
        limits.max_wait_slots <= MAX_PAUSE_SLOTS,
    ensures
        can_pause(decision, attempt, limits),
{
}

/// The decision that a step holds for the record is the one that was made, but
/// for the limits of the policy.
pub proof fn every_decision_is_recorded(
    state: HostState,
    step: HostStep,
    decision: agent::DecisionView,
    limits: PolicyLimits,
    args: HostArgs,
)
    requires
        state.is_step(step, decision, limits, args),
    ensures
        step.recorded().action == decision.action,
        step.recorded().reason == decision.reason,
        step.recorded().source == decision.source,
{
}

/// Without a language model a transaction that failed is never submitted again.
pub proof fn fixed_rules_never_resubmit(
    state: HostState,
    ctx: OperationalContext,
    network: NetworkState,
    step: HostStep,
    limits: PolicyLimits,
    args: HostArgs,
)
    requires
        state.failure is Some,
        state.is_context(ctx, args.request_id@, network),
        state.is_step(step, agent::fallback_decision(ctx), limits, args),
    ensures
        !(step is Submit),
{
}

/// Whether each state of a list follows from the one before by a submission
/// after which the loop goes on.
pub open spec fn goes_on(states: Seq<HostState>, limits: PolicyLimits) -> bool {
    forall|i: int|
        0 <= i < states.len() - 1 ==> #[trigger] goes_on_from(states[i], states[i + 1], limits)
}

/// Whether a state follows from another by a submission after which the loop goes
/// on.
pub open spec fn goes_on_from(before: HostState, after: HostState, limits: PolicyLimits) -> bool {
    exists|tip: u64, report: Option<FailureReport>|
        responded(before, after, tip, report, HostNext::Again, limits)
}

/// The loop goes on after a submission only to count it as one more failed
/// attempt within the retries that are allowed. So the states at which a request
/// is submitted are no more than the retries and one.
pub proof fn submissions_are_bounded(states: Seq<HostState>, limits: PolicyLimits)
    requires
        states.len() > 0,
        states[0].attempt == 0,
        goes_on(states, limits),
    ensures
        states.last().attempt == states.len() - 1,
        states.len() <= limits.max_retries + 1,
    decreases states.len(),
{
    if states.len() > 1 {
        let rest = states.drop_last();
        assert forall|i: int| 0 <= i < rest.len() - 1 implies #[trigger] goes_on_from(
            rest[i],
            rest[i + 1],
            limits,
        ) by {
            assert(goes_on_from(states[i], states[i + 1], limits));
        }
        submissions_are_bounded(rest, limits);
        let k = states.len() - 2;
        assert(goes_on_from(states[k], states[k + 1], limits));
    }
}

// ---------------------------------------------------------------------------
// Tool replies
// ---------------------------------------------------------------------------

/// The reply of a tool: whether it is an error, its structured content, and the
/// text of its first content where that is text.
#[derive(Debug)]
pub struct ToolResult<T> {
    pub is_error: Option<bool>,
    pub structured: Option<T>,
    pub first_text: Option<String>,
}

/// What a tool's reply holds.
#[derive(Debug)]
pub enum ToolValue<T> {
    Structured(T),
    /// A text that is to be read as JSON.
    Text(String),
}

/// Whether a value is what a tool's reply holds, or an error what it tells of.
pub open spec fn holds<T>(result: ToolResult<T>, out: Result<ToolValue<T>, String>) -> bool {
    if result.is_error == Some(true) {
        out matches Err(message) && message@ == config::value_or(
            text::opt_text(result.first_text),
            "tool returned an error"@,
        )
    } else {
        match (result.structured, result.first_text) {
            (Some(value), _) => out == Ok::<ToolValue<T>, String>(ToolValue::Structured(value)),
            (None, Some(words)) => out matches Ok(ToolValue::Text(content)) && content@ == words@,
            (None, None) => out matches Err(message) && message@
                == "tool response missing structured content and text content"@,
        }
    }
}

/// What a tool's reply holds, or the error that it tells of.
pub fn decode_tool_result<T>(result: ToolResult<T>) -> (out: Result<ToolValue<T>, String>)
    ensures
        holds(result, out),
{
    let failed = match result.is_error {
        Some(failed) => failed,
        None => false,
    };
    if failed {
        return Err(
            match result.first_text {
                Some(message) => message,
                None => "tool returned an error".to_owned(),
            },
        );
    }
    match result.structured {
        Some(value) => Ok(ToolValue::Structured(value)),
        None => match result.first_text {
            Some(words) => Ok(ToolValue::Text(words)),
            None => Err("tool response missing structured content and text content".to_owned()),
        },
    }
}

/// The members of the arguments of a tool, which are an object.
pub fn value_to_object(value: JsonValue) -> (out: Result<Vec<(String, JsonValue)>, &'static str>)
    ensures
        match value {
            JsonValue::Object(members) => out == Ok::<Vec<(String, JsonValue)>, &'static str>(
                members,
            ),
            _ => out matches Err(message) && message@ == "tool arguments must be a JSON object"@,
        },
{
    match value {
        JsonValue::Object(members) => Ok(members),
        _ => Err("tool arguments must be a JSON object"),
    }
}

// ---------------------------------------------------------------------------
// What the host is for
// ---------------------------------------------------------------------------

/// Each argument sets what its name says, and nothing else.
pub proof fn arguments_set_what_they_name(settings: HostSettingsView, value: Seq<char>, tip: u64)
    ensures
        host_option(settings, "--request-id"@, value) == Ok::<HostSettingsView, HostErrorView>(
            HostSettingsView { request_id: value, ..settings },
        ),
        host_option(settings, "--mcp-url"@, value) == Ok::<HostSettingsView, HostErrorView>(
            HostSettingsView { mcp_url: value, ..settings },
        ),
        host_option(settings, "--encoded-transaction"@, value) == Ok::<
            HostSettingsView,
            HostErrorView,
        >(HostSettingsView { encoded_transaction: Some(value), ..settings }),
        host_option(settings, "--transaction-file"@, value) == Ok::<
            HostSettingsView,
            HostErrorView,
        >(HostSettingsView { transaction_file: Some(value), ..settings }),
        host_option(settings, "--encoding"@, "base64"@) == Ok::<HostSettingsView, HostErrorView>(
            HostSettingsView { encoding: SignedTransactionEncoding::Base64, ..settings },
        ),
        host_option(settings, "--encoding"@, "base58"@) == Ok::<HostSettingsView, HostErrorView>(
            HostSettingsView { encoding: SignedTransactionEncoding::Base58, ..settings },
        ),
        value != "base64"@ && value != "base58"@ ==> host_option(settings, "--encoding"@, value)
            == Err::<HostSettingsView, HostErrorView>(HostErrorView::UnsupportedEncoding(value)),
        host_option(settings, "--observed-tip-lamports"@, text::decimal(tip as nat)) == Ok::<
            HostSettingsView,
            HostErrorView,
        >(HostSettingsView { observed_tip_lamports: Some(tip), ..settings }),
        text::parse_unsigned(value, u64::MAX as nat) is None ==> host_option(
            settings,
            "--observed-tip-lamports"@,
            value,
        ) == Err::<HostSettingsView, HostErrorView>(HostErrorView::InvalidTip),
{
    reveal_strlit("--request-id");
    reveal_strlit("--mcp-url");
    reveal_strlit("--encoded-transaction");
    reveal_strlit("--transaction-file");
    reveal_strlit("--encoding");
    reveal_strlit("--observed-tip-lamports");
    assert("--request-id"@.len() == 12);
    assert("--mcp-url"@.len() == 9);
    assert("--encoded-transaction"@.len() == 21);
    assert("--transaction-file"@.len() == 18);
    assert("--encoding"@.len() == 10);
    assert("--observed-tip-lamports"@.len() == 23);
    reveal_strlit("base64");
    reveal_strlit("base58");
    assert("base64"@[4] != "base58"@[4]);
    text::decimal_reads_back(tip as nat, u64::MAX as nat);
}

/// Arguments are taken in their order, so that the last of a name counts: the
/// arguments behind others act on what those have set.
pub proof fn later_arguments_win(
    settings: HostSettingsView,
    first: Seq<Seq<char>>,
    second: Seq<Seq<char>>,
)
    requires
        first.len() % 2 == 0,
    ensures
        match host_options(settings, first) {
            Ok(next) => host_options(settings, first + second) == host_options(next, second),
            Err(why) => host_options(settings, first + second) == Err::<
                HostSettingsView,
                HostErrorView,
            >(why),
        },
    decreases first.len(),
{
    if first.len() == 0 {
        assert(first + second =~= second);
    } else {
        assert((first + second)[0] == first[0]);
        assert((first + second)[1] == first[1]);
        assert((first + second).skip(2) =~= first.skip(2) + second);
        if is_host_flag(first[0]) {
            if let Ok(next) = host_option(settings, first[0], first[1]) {
                later_arguments_win(next, first.skip(2), second);
            }
        }
    }
}

/// No arguments change nothing, an unknown one is refused, and a known one without
/// a value is refused.
pub proof fn arguments_come_with_values(settings: HostSettingsView, args: Seq<Seq<char>>)
    ensures
        args.len() == 0 ==> host_options(settings, args) == Ok::<HostSettingsView, HostErrorView>(
            settings,
        ),
        args.len() > 0 && args[0] != "--request-id"@ && args[0] != "--mcp-url"@ && args[0]
            != "--encoded-transaction"@ && args[0] != "--transaction-file"@ && args[0]
            != "--encoding"@ && args[0] != "--observed-tip-lamports"@ ==> host_options(
            settings,
            args,
        ) == Err::<HostSettingsView, HostErrorView>(HostErrorView::UnknownArgument(args[0])),
        args.len() == 1 && (args[0] == "--request-id"@ || args[0] == "--mcp-url"@ || args[0]
            == "--encoded-transaction"@ || args[0] == "--transaction-file"@ || args[0]
            == "--encoding"@ || args[0] == "--observed-tip-lamports"@) ==> host_options(
            settings,
            args,
        ) == Err::<HostSettingsView, HostErrorView>(HostErrorView::MissingValue(args[0])),
{
}

/// The host needs one transaction, by its text or by its file, and not both.
pub proof fn one_transaction_is_needed(settings: HostSettingsView, plan: HostPlan)
    ensures
        settings.encoded_transaction is Some && settings.transaction_file is Some ==> fault_of(
            settings,
        ) == Some(HostErrorView::TwoTransactions),
        settings.encoded_transaction is None && settings.transaction_file is None ==> fault_of(
            settings,
        ) == Some(HostErrorView::NoTransaction),
        settings.encoded_transaction is Some != settings.transaction_file is Some ==> fault_of(
            settings,
        ) is None,
        is_plan_of(plan, settings) ==> {
            &&& plan.request_id@ == settings.request_id
            &&& plan.mcp_url@ == settings.mcp_url
            &&& plan.encoding == settings.encoding
            &&& plan.observed_tip_lamports == settings.observed_tip_lamports
            &&& plan.source matches TransactionSource::Encoded(encoded)
                ==> settings.encoded_transaction == Some(encoded@)
            &&& plan.source matches TransactionSource::File(path) ==> settings.transaction_file
                == Some(path@)
        },
{
}

/// Without arguments the host uses base64 and the server that the environment
/// names, or the local one, and knows of no transaction and no tip.
pub proof fn defaults_name_no_transaction(request_id: Seq<char>, mcp_url: Option<Seq<char>>)
    ensures
        ({
            let defaults = host_defaults(request_id, mcp_url);
            &&& defaults.request_id == request_id
            &&& mcp_url matches Some(url) ==> defaults.mcp_url == url
            &&& mcp_url is None ==> defaults.mcp_url == "http://127.0.0.1:8080/mcp"@
            &&& defaults.encoding == SignedTransactionEncoding::Base64
            &&& defaults.observed_tip_lamports is None
            &&& fault_of(defaults) == Some(HostErrorView::NoTransaction)
        }),
{
}

/// The transaction of a text is that text, and that of a file is what the file
/// holds without the white space around it.
pub proof fn files_hold_the_transaction(
    before: Seq<char>,
    solid: Seq<char>,
    after: Seq<char>,
    path: String,
    encoded: String,
)
    requires
        text::all_white(before),
        text::all_white(after),
        forall|i: int| 0 <= i < solid.len() ==> !text::is_white(#[trigger] solid[i]),
    ensures
        transaction_text(TransactionSource::File(path), before + solid + after) == solid,
        transaction_text(TransactionSource::Encoded(encoded), before + solid + after) == encoded@,
{
    text::trimmed_drops_white_space(before, solid, after);
    text::trimmed_keeps_solid_text(solid);
}

/// The loop starts with no attempt made and no failure, and with the tip that was
/// observed, if any.
pub proof fn loops_start_afresh(observed_tip_lamports: Option<u64>)
    ensures
        HostState::started(observed_tip_lamports).attempt == 0,
        HostState::started(observed_tip_lamports).failure is None,
        observed_tip_lamports matches Some(tip) ==> HostState::started(
            observed_tip_lamports,
        ).previous_tip_lamports == tip,
        observed_tip_lamports is None ==> HostState::started(
            observed_tip_lamports,
        ).previous_tip_lamports == 0,
{
}

/// What the agent decides on is what the network shows and what became of the last
/// attempt; it can neither refresh the blockhash nor change the tip.
pub proof fn contexts_show_what_is_known(
    state: HostState,
    ctx: OperationalContext,
    request_id: Seq<char>,
    network: NetworkState,
)
    requires
        state.is_context(ctx, request_id, network),
    ensures
        ctx.request_id@ == request_id,
        ctx.attempt == state.attempt,
        ctx.current_slot == Some(network.current_slot),
        ctx.leader_slot == network.next_jito_leader_slot,
        ctx.slots_until_leader == network.slots_until_jito_leader,
        ctx.recent_tip == network.recent_tip,
        ctx.previous_tip_lamports == state.previous_tip_lamports,
        ctx.tip_floor_lamports == network.tip_floor_lamports,
        ctx.max_tip_lamports == network.max_tip_lamports,
        !ctx.can_refresh_blockhash && !ctx.can_adjust_tip,
        ctx.failure is Some <==> state.failure is Some,
        ctx.failure is Some ==> {
            &&& ctx.failure->0.failure == state.failure->0.failure
            &&& ctx.failure->0.detail@ == state.failure->0.detail@
            &&& ctx.failure->0.submitted_slot == state.failure->0.submitted_slot
            &&& ctx.failure->0.blockhash@ == state.failure->0.blockhash@
            &&& ctx.failure->0.processed_latency_ms == state.failure->0.processed_latency_ms
            &&& ctx.failure->0.confirmed_latency_ms == state.failure->0.confirmed_latency_ms
        },
{
}

/// What the policy refuses is refused with its reason and recorded as it was made.
/// What it accepts is done: a wait is waited, an end ends, and a submission or a
/// retry is submitted.
pub proof fn decisions_are_carried_out(
    state: HostState,
    step: HostStep,
    decision: agent::DecisionView,
    limits: PolicyLimits,
    args: HostArgs,
)
    requires
        state.is_step(step, decision, limits, args),
    ensures
        match policy::limited(decision, state.attempt, limits) {
            Err(why) => step is Reject && step->error == why && step.recorded() == decision,
            Ok(accepted) => {
                &&& step.recorded() == accepted
                &&& decision.action == OperationalAction::WaitForLeader ==> step is Wait
                &&& decision.action == OperationalAction::Abandon ==> step is Stop
                &&& decision.action == OperationalAction::Escalate ==> step is Stop
                &&& decision.action == OperationalAction::SubmitNow ==> step is Submit
                &&& decision.action == OperationalAction::Retry ==> step is Submit
            },
        },
{
}

/// A wait lasts four tenths of a second for each slot that the policy leaves it,
/// and for one slot where it leaves none.
pub proof fn waits_last_for_their_slots(
    state: HostState,
    step: HostStep,
    decision: agent::DecisionView,
    limits: PolicyLimits,
    args: HostArgs,
)
    requires
        state.is_step(step, decision, limits, args),
        step is Wait,
    ensures
        step.recorded().max_wait_slots > 0 ==> step->pause_ms == 400
            * step.recorded().max_wait_slots,
        step.recorded().max_wait_slots == 0 ==> step->pause_ms == 400,
{
}

/// A submission goes under the request's name and the number of the attempt, waits
/// for a leader only where it is a retry, and names the tip that was observed, or
/// else the one that was decided.
pub proof fn submissions_say_what_was_decided(
    state: HostState,
    step: HostStep,
    decision: agent::DecisionView,
    limits: PolicyLimits,
    args: HostArgs,
)
    requires
        state.is_step(step, decision, limits, args),
        step is Submit,
    ensures
        ({
            let request = step->request;
            &&& request.submission_id@ == args.request_id@
            &&& request.attempt == state.attempt
            &&& request.encoded_transaction@ == args.encoded_transaction@
            &&& request.encoding == args.encoding
            &&& decision.action == OperationalAction::Retry ==> request.wait_for_leader
            &&& decision.action == OperationalAction::SubmitNow ==> !request.wait_for_leader
            &&& request.max_wait_slots == Some(step.recorded().max_wait_slots)
            &&& args.observed_tip_lamports matches Some(tip) ==> request.observed_tip_lamports
                == Some(tip)
            &&& args.observed_tip_lamports is None ==> request.observed_tip_lamports == Some(
                step.recorded().tip_lamports,
            )
        }),
{
}

/// A failure counts as one more attempt and is decided on again while attempts are
/// left; a submission without one completes the request.
pub proof fn failures_count_as_attempts(
    before: HostState,
    after: HostState,
    tip_lamports: u64,
    report: Option<FailureReport>,
    next: HostNext,
    limits: PolicyLimits,
)
    requires
        responded(before, after, tip_lamports, report, next, limits),
    ensures
        after.previous_tip_lamports == tip_lamports,
        report is None ==> next == HostNext::Completed && after.attempt == before.attempt,
        report is Some ==> after.attempt == before.attempt + 1 && after.failure == report,
        report is Some && before.attempt < limits.max_retries ==> next == HostNext::Again,
        report is Some && before.attempt >= limits.max_retries ==> next == HostNext::OutOfRetries,
{
}

/// A reply that is an error gives its text as the error; any other one gives its
/// structured content, or else its text, or an error where it has neither.
pub proof fn replies_give_their_content<T>(
    result: ToolResult<T>,
    out: Result<ToolValue<T>, String>,
)
    requires
        holds(result, out),
    ensures
        result.is_error == Some(true) ==> out is Err && (result.first_text is Some ==> out->Err_0@
            == result.first_text->0@),
        result.is_error != Some(true) && result.structured is Some ==> out == Ok::<
            ToolValue<T>,
            String,
        >(ToolValue::Structured(result.structured->0)),
        result.is_error != Some(true) && result.structured is None && result.first_text is Some
            ==> (out matches Ok(ToolValue::Text(content)) && content@ == result.first_text->0@),
        result.is_error != Some(true) && result.structured is None && result.first_text is None
            ==> out is Err && out->Err_0@
            == "tool response missing structured content and text content"@,
        result.is_error == Some(true) && result.first_text is None ==> out is Err && out->Err_0@
            == "tool returned an error"@,
{
}

/// Each error says what was wrong, and names the argument where there is one.
pub proof fn errors_say_what_was_wrong(name: Seq<char>)
    ensures
        host_message(HostErrorView::MissingValue(name)) == name + " requires a value"@,
        host_message(HostErrorView::UnsupportedEncoding(name)) == "unsupported --encoding "@ + name
            + "; use base64 or base58"@,
        host_message(HostErrorView::InvalidTip) == "invalid --observed-tip-lamports value"@,
        host_message(HostErrorView::UnknownArgument(name)) == "unknown agent_host argument: "@
            + name,
        host_message(HostErrorView::TwoTransactions)
            == "use either --encoded-transaction or --transaction-file, not both"@,
        host_message(HostErrorView::NoTransaction)
            == "agent_host requires a pre-signed encoded transaction; pass --encoded-transaction VALUE or --transaction-file PATH"@,
{
}

/// Two encodings have names.
pub proof fn encodings_have_names(name: Seq<char>)
    ensures
        encoding_of("base64"@) == Some(SignedTransactionEncoding::Base64),
        encoding_of("base58"@) == Some(SignedTransactionEncoding::Base58),
        name != "base64"@ && name != "base58"@ ==> encoding_of(name) is None,
{
    reveal_strlit("base64");
    reveal_strlit("base58");
    assert("base64"@[4] != "base58"@[4]);
}

/// A request hands on the transaction as it was given; a retry waits for a leader,
/// and the tip that was seen counts before the one that was decided.
pub proof fn requests_hand_on_the_transaction(
    request: ControlledSignedSubmitRequest,
    args: HostArgs,
    attempt: u32,
    decision: agent::DecisionView,
)
    requires
        is_request_of(request, args, attempt, decision),
    ensures
        request.submission_id@ == args.request_id@,
        request.attempt == attempt,
        request.encoded_transaction@ == args.encoded_transaction@,
        request.encoding == args.encoding,
        request.wait_for_leader <==> decision.action == OperationalAction::Retry,
        request.max_wait_slots == Some(decision.max_wait_slots),
        args.observed_tip_lamports is Some ==> request.observed_tip_lamports
            == args.observed_tip_lamports,
        args.observed_tip_lamports is None ==> request.observed_tip_lamports == Some(
            decision.tip_lamports,
        ),
{
}

/// A refused decision is recorded with the reason, a wait and a stop by their
/// names, and a submission not before it has been made.
pub proof fn outcomes_are_recorded_by_name(
    outcome: Option<(&'static str, Option<String>)>,
    step: HostStep,
)
    requires
        is_outcome_of(outcome, step),
    ensures
        step is Submit <==> outcome is None,
        match outcome {
            Some((key, detail)) => {
                &&& key@ == if step is Reject {
                    "policy_error"@
                } else if step is Wait {
                    "waited"@
                } else {
                    "stopped"@
                }
                &&& detail is Some <==> step is Reject
            },
            None => step is Submit,
        },
        step matches HostStep::Reject { error, .. } ==> outcome matches Some((_, Some(message)))
            && message@ == policy::policy_message(error),
{
}

/// Settings show what they hold.
pub proof fn settings_show_what_they_hold(settings: HostSettings)
    ensures
        settings@.request_id == settings.request_id@,
        settings@.mcp_url == settings.mcp_url@,
        settings@.encoded_transaction == text::opt_text(settings.encoded_transaction),
        settings@.transaction_file == text::opt_text(settings.transaction_file),
        settings@.encoding == settings.encoding,
        settings@.observed_tip_lamports == settings.observed_tip_lamports,
{
}

/// A wait is possible exactly where its milliseconds are a 64-bit number.
pub proof fn possible_waits_fit(slots: u64)
    ensures
        slots <= MAX_PAUSE_SLOTS <==> slots * 400 <= u64::MAX,
{
}

} // verus!
