use tx_agent::agent::{AiAgent, OperationalAction, OperationalDecision};
use tx_agent::config::{Config, Environment};
use tx_agent::host::{
    agent_failure_report, decode_tool_result, default_request_id, failed_submit_outcome,
    parse_args, parse_encoding, step_outcome, value_to_object, HostArgs, HostNext, HostState, HostStep, ToolResult, ToolValue,
};
use tx_agent::jito::tip::TipData;
use tx_agent::json::JsonValue;
use tx_agent::lifecycle::{FailureKind, LifecycleRecord};
use tx_agent::policy::{PolicyError, PolicyLimits};
use tx_agent::server::{
    classify_failure, record_agent_decision, submit_output, ClassifyFailureParams,
    RecordAgentDecisionParams, SignedTransactionEncodingParam, SubmitSignedBundleParams,
};
use tx_agent::solana::Signature;
use tx_agent::stack::{
    ControlledSignedSubmitRequest, FailureReport, NetworkState, SignedTransactionEncoding,
};
use tx_agent::time::UtcTime;

fn words(list: &[&str]) -> Vec<String> {
    list.iter().map(|w| w.to_string()).collect()
}

fn parse(list: &[&str]) -> Result<tx_agent::host::HostPlan, tx_agent::host::HostError> {
    parse_args(&words(list), "default".to_string(), None)
}

fn args(tip: Option<u64>) -> HostArgs {
    HostArgs {
        request_id: "r".to_string(),
        mcp_url: "u".to_string(),
        encoded_transaction: "tx".to_string(),
        encoding: SignedTransactionEncoding::Base58,
        observed_tip_lamports: tip,
    }
}

fn limits() -> PolicyLimits {
    PolicyLimits { min_tip_lamports: 10, max_tip_lamports: 100, max_retries: 1, max_wait_slots: 5 }
}

fn decision(action: OperationalAction, wait: u64) -> OperationalDecision {
    OperationalDecision {
        action,
        reason: "why".to_string(),
        refresh_blockhash: false,
        tip_lamports: 50,
        max_wait_slots: wait,
        source: "s".to_string(),
    }
}

fn report(failure: FailureKind) -> FailureReport {
    FailureReport {
        submission_id: "r".to_string(),
        attempt: 0,
        failure,
        detail: "d".to_string(),
        submitted_slot: Some(1),
        leader_slot: Some(2),
        blockhash: "h".to_string(),
        tip_lamports: 3,
        processed_latency_ms: Some(4),
        confirmed_latency_ms: None,
    }
}

fn network() -> NetworkState {
    NetworkState {
        current_slot: 7,
        latest_blockhash_slot: None,
        next_jito_leader_slot: Some(8),
        slots_until_jito_leader: Some(1),
        recent_tip: TipData {
            time: "t".to_string(),
            landed_tips_25th_percentile: 1,
            landed_tips_50th_percentile: 2,
            landed_tips_75th_percentile: 30,
            landed_tips_95th_percentile: 40,
            landed_tips_99th_percentile: 5,
            ema_landed_tips_50th_percentile: 6,
        },
        tip_floor_lamports: 10,
        max_tip_lamports: 100,
        leader_lookahead_slots: 3,
    }
}

#[test]
fn arguments_of_the_host_are_read() {
    let plan = parse(&[
        "--request-id", "a", "--mcp-url", "u", "--transaction-file", "f", "--encoding", "base58",
        "--observed-tip-lamports", "9", "--request-id", "b",
    ])
    .unwrap();
    assert_eq!(plan.request_id, "b");
    assert_eq!(plan.mcp_url, "u");
    assert_eq!(plan.file(), Some("f".to_string()));
    assert_eq!(plan.observed_tip_lamports, Some(9));
    let args = plan.into_args("  text\n");
    assert_eq!(args.encoded_transaction, "text");
    assert_eq!(args.encoding, SignedTransactionEncoding::Base58);

    let plan = parse(&["--encoded-transaction", " raw "]).unwrap();
    assert_eq!(plan.request_id, "default");
    assert_eq!(plan.mcp_url, "http://127.0.0.1:8080/mcp");
    assert_eq!(plan.file(), None);
    let args = plan.into_args("");
    assert_eq!(args.encoded_transaction, " raw ");
    assert_eq!(args.encoding, SignedTransactionEncoding::Base64);
    assert_eq!(args.observed_tip_lamports, None);
    let plan = parse_args(
        &words(&["--encoded-transaction", "x"]),
        default_request_id(1_234),
        Some("env".to_string()),
    )
    .unwrap();
    assert_eq!(plan.mcp_url, "env");
    assert_eq!(plan.request_id, "agent-request-1234");
}

#[test]
fn bad_arguments_of_the_host_are_refused() {
    for (list, message) in [
        (vec!["--request-id"], "--request-id requires a value"),
        (vec!["--mcp-url", "u", "--encoding"], "--encoding requires a value"),
        (vec!["--encoding", "hex"], "unsupported --encoding hex; use base64 or base58"),
        (vec!["--observed-tip-lamports", "x"], "invalid --observed-tip-lamports value"),
        (vec!["--verbose"], "unknown agent_host argument: --verbose"),
        (
            vec!["--encoded-transaction", "a", "--transaction-file", "b"],
            "use either --encoded-transaction or --transaction-file, not both",
        ),
        (
            vec![],
            "agent_host requires a pre-signed encoded transaction; pass --encoded-transaction VALUE or --transaction-file PATH",
        ),
    ] {
        assert_eq!(parse(&list).err().unwrap().message(), message);
    }
    assert_eq!(parse_encoding("base64").unwrap(), SignedTransactionEncoding::Base64);
    assert!(parse_encoding("BASE64").is_err());
}

#[test]
fn contexts_hold_the_evidence() {
    let mut state = HostState::start(&args(Some(33)));
    let ctx = state.context("r", &network());
    assert_eq!(ctx.attempt, 0);
    assert_eq!(ctx.previous_tip_lamports, 33);
    assert_eq!(ctx.current_slot, Some(7));
    assert_eq!(ctx.leader_slot, Some(8));
    assert_eq!(ctx.slots_until_leader, Some(1));
    assert!(!ctx.can_refresh_blockhash);
    assert!(!ctx.can_adjust_tip);
    assert!(ctx.failure.is_none());
    state.on_response(44, Some(report(FailureKind::Timeout)), &limits());
    let ctx = state.context("r", &network());
    assert_eq!(ctx.attempt, 1);
    assert_eq!(ctx.previous_tip_lamports, 44);
    let told = ctx.failure.unwrap();
    assert_eq!(told.failure, FailureKind::Timeout);
    assert_eq!(told.detail, "d");
    assert_eq!(told.submitted_slot, Some(1));
    assert_eq!(told.blockhash, "h");
    assert_eq!(told.processed_latency_ms, Some(4));
    assert_eq!(agent_failure_report(&report(FailureKind::Unknown)).failure, FailureKind::Unknown);
    assert_eq!(HostState::start(&args(None)).previous_tip_lamports, 0);
}

#[test]
fn decisions_become_steps() {
    let state = HostState::start(&args(None));
    match state.judge(decision(OperationalAction::SubmitNow, 9), &limits(), &args(None)) {
        HostStep::Submit { decision, request } => {
            assert_eq!(decision.max_wait_slots, 5);
            assert_eq!(request.submission_id, "r");
            assert_eq!(request.attempt, 0);
            assert_eq!(request.encoded_transaction, "tx");
            assert_eq!(request.encoding, SignedTransactionEncoding::Base58);
            assert!(!request.wait_for_leader);
            assert_eq!(request.max_wait_slots, Some(5));
            assert_eq!(request.observed_tip_lamports, Some(50));
        }
        other => panic!("{other:?}"),
    }
    match state.judge(decision(OperationalAction::Retry, 2), &limits(), &args(Some(7))) {
        HostStep::Submit { request, .. } => {
            assert!(request.wait_for_leader);
            assert_eq!(request.observed_tip_lamports, Some(7));
        }
        other => panic!("{other:?}"),
    }
    for (wait, pause) in [(0, 400), (1, 400), (3, 1_200), (99, 2_000)] {
        let step = state.judge(decision(OperationalAction::WaitForLeader, wait), &limits(), &args(None));
        assert_eq!(step_outcome(&step), Some(("waited", None)));
        assert!(matches!(step, HostStep::Wait { pause_ms, .. } if pause_ms == pause));
    }
    for action in [OperationalAction::Abandon, OperationalAction::Escalate] {
        let step = state.judge(decision(action, 0), &limits(), &args(None));
        assert_eq!(step_outcome(&step), Some(("stopped", None)));
        assert!(matches!(step, HostStep::Stop { .. }));
    }
}

#[test]
fn submissions_without_an_answer_are_recorded() {
    assert_eq!(
        failed_submit_outcome("connection reset"),
        ("submit_error", Some("connection reset".to_string()))
    );
}

#[test]
fn waits_that_are_refused_may_be_of_any_length() {
    let state = HostState::start(&args(None));
    let mut endless = decision(OperationalAction::WaitForLeader, u64::MAX);
    endless.tip_lamports = 101;
    let unlimited = PolicyLimits { max_wait_slots: u64::MAX, ..limits() };
    let step = state.judge(endless, &unlimited, &args(None));
    assert!(matches!(step, HostStep::Reject { error: PolicyError::TipTooHigh { .. }, .. }));
}

#[test]
fn refused_decisions_are_recorded_as_made() {
    let state = HostState::start(&args(None));
    let mut high = decision(OperationalAction::SubmitNow, 9);
    high.tip_lamports = 101;
    let step = state.judge(high, &limits(), &args(None));
    assert_eq!(
        step_outcome(&step),
        Some(("policy_error", Some("agent tip 101 exceeds policy max 100".to_string())))
    );
    match step {
        HostStep::Reject { decision, error } => {
            assert_eq!(decision.max_wait_slots, 9);
            assert_eq!(
                error,
                PolicyError::TipTooHigh { tip_lamports: 101, max_tip_lamports: 100 }
            );
        }
        other => panic!("{other:?}"),
    }
}

#[test]
fn retries_run_out() {
    let mut state = HostState::start(&args(None));
    let failed = || Some(report(FailureKind::Timeout));
    assert_eq!(state.on_response(5, failed(), &limits()), HostNext::Again);
    assert_eq!(state.attempt, 1);
    let step = state.judge(decision(OperationalAction::Retry, 1), &limits(), &args(None));
    assert!(matches!(step, HostStep::Submit { .. }));
    assert_eq!(state.on_response(6, failed(), &limits()), HostNext::OutOfRetries);
    assert_eq!(state.attempt, 2);
    assert_eq!(state.previous_tip_lamports, 6);
    let step = state.judge(decision(OperationalAction::Retry, 1), &limits(), &args(None));
    assert!(matches!(
        step,
        HostStep::Reject { error: PolicyError::TooManyAttempts { attempt: 2, max_retries: 1 }, .. }
    ));
    let mut done = HostState::start(&args(None));
    assert_eq!(done.on_response(5, None, &limits()), HostNext::Completed);
    assert_eq!(done.attempt, 0);
}

#[test]
fn fixed_rules_submit_once() {
    let config = Config::from_env_and_args(&vec![], &Environment { vars: vec![] }).unwrap();
    let agent = AiAgent::new(&config);
    let mut state = HostState::start(&args(None));
    let ctx = state.context("r", &network());
    let step = state.next_step(&agent, &ctx, None, &limits(), &args(None));
    match step {
        HostStep::Submit { decision, .. } => assert_eq!(decision.tip_lamports, 30),
        other => panic!("{other:?}"),
    }
    for kind in [
        FailureKind::ExpiredBlockhash,
        FailureKind::InsufficientFunds,
        FailureKind::FeeTooLow,
        FailureKind::ComputeExceeded,
        FailureKind::BundleFailure,
        FailureKind::JitoRateLimited,
        FailureKind::SimulationFailure,
        FailureKind::Timeout,
        FailureKind::Unknown,
    ] {
        state.attempt = 0;
        state.on_response(1, Some(report(kind)), &limits());
        let ctx = state.context("r", &network());
        let step = state.next_step(&agent, &ctx, None, &limits(), &args(None));
        assert!(!matches!(step, HostStep::Submit { .. }), "{kind:?}");
    }
}

#[test]
fn replies_of_tools_are_read() {
    let reply = |is_error, structured: Option<u8>, text: Option<&str>| {
        decode_tool_result(ToolResult {
            is_error,
            structured,
            first_text: text.map(|t| t.to_string()),
        })
    };
    assert!(matches!(reply(None, Some(3), Some("x")), Ok(ToolValue::Structured(3))));
    assert!(matches!(reply(Some(false), None, Some("x")), Ok(ToolValue::Text(t)) if t == "x"));
    assert_eq!(
        reply(None, None, None).err().unwrap(),
        "tool response missing structured content and text content"
    );
    assert_eq!(reply(Some(true), Some(3), Some("bad")).err().unwrap(), "bad");
    assert_eq!(reply(Some(true), Some(3), None).err().unwrap(), "tool returned an error");
    assert_eq!(
        value_to_object(JsonValue::Null).err().unwrap(),
        "tool arguments must be a JSON object"
    );
    let object = JsonValue::Object(vec![("a".to_string(), JsonValue::Bool(true))]);
    assert_eq!(value_to_object(object).unwrap()[0].0, "a");
}

#[test]
fn tool_parameters_become_requests() {
    for (param, encoding) in [
        (SignedTransactionEncodingParam::Base64, SignedTransactionEncoding::Base64),
        (SignedTransactionEncodingParam::Base58, SignedTransactionEncoding::Base58),
    ] {
        let request = ControlledSignedSubmitRequest::from(SubmitSignedBundleParams {
            submission_id: "s".to_string(),
            attempt: 4,
            encoded_transaction: "e".to_string(),
            encoding: param,
            wait_for_leader: true,
            max_wait_slots: Some(6),
            observed_tip_lamports: None,
        });
        assert_eq!(request.submission_id, "s");
        assert_eq!(request.attempt, 4);
        assert_eq!(request.encoded_transaction, "e");
        assert_eq!(request.encoding, encoding);
        assert!(request.wait_for_leader);
        assert_eq!(request.max_wait_slots, Some(6));
        assert_eq!(request.observed_tip_lamports, None);
    }
}

#[test]
fn tools_give_what_they_should() {
    let mut record = LifecycleRecord::new_at(
        "r".to_string(),
        0,
        Signature { bytes: [1; 64] },
        5,
        None,
        None,
        "h".to_string(),
        None,
        UtcTime { secs: 1, nanos: 0 },
    );
    record.fail(FailureKind::FeeTooLow, "low".to_string());
    let output = submit_output(record);
    assert_eq!(output.record.submission_id, "r");
    let report = output.failure_report.unwrap();
    assert_eq!(report.failure, FailureKind::FeeTooLow);
    assert_eq!(report.detail, "low");
    assert_eq!(report.tip_lamports, 5);
    assert_eq!(
        classify_failure(&ClassifyFailureParams { detail: "Tip".to_string() }).failure,
        FailureKind::FeeTooLow
    );
    let audit = record_agent_decision(RecordAgentDecisionParams {
        request_id: "q".to_string(),
        attempt: 2,
        input_state: JsonValue::Null,
        decision: JsonValue::Bool(true),
        policy: JsonValue::Null,
        outcome: None,
    });
    assert_eq!(audit.request_id, "q");
    assert_eq!(audit.attempt, 2);
    assert!(matches!(audit.decision, JsonValue::Bool(true)));
    assert!(audit.at.secs > 1_600_000_000);
}

#[test]
fn submissions_are_counted_out() {
    for max_retries in [0, 1, 4] {
        let limits = PolicyLimits { max_retries, ..limits() };
        let mut state = HostState::start(&args(None));
        let mut submissions = 0;
        loop {
            let step = state.judge(decision(OperationalAction::Retry, 1), &limits, &args(None));
            assert!(matches!(step, HostStep::Submit { .. }));
            submissions += 1;
            match state.on_response(1, Some(report(FailureKind::Timeout)), &limits) {
                HostNext::Again => continue,
                next => {
                    assert_eq!(next, HostNext::OutOfRetries);
                    break;
                }
            }
        }
        assert_eq!(submissions, max_retries + 1);
    }
}
