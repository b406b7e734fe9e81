use base64::Engine;
use tx_agent::config::Environment;
use tx_agent::host::parse_args;
use tx_agent::json::{JsonNumber, JsonValue};
use tx_agent::report::agent::{run_agent_host, start_agent, submission_report, HostOutput};
use tx_agent::report::config::{
    join_path, next_arg, ReportConfig, ReportRequest, ReportSettings, HELP,
};
use tx_agent::report::run::{
    assemble_report, attach_lifecycle_records, lifecycle_lines, plan_requests, validate_submission,
};
use tx_agent::report::scrub::{collect_secrets, scrub_sensitive_json, scrub_sensitive_text};
use tx_agent::report::transactions::{
    generate_funded_tip_transaction, generate_unfunded_tip_transaction, ExpectedOutcome,
    GeneratedTransaction, TransactionKind,
};
use tx_agent::report::types::{ReportSummary, SubmissionReport};
use tx_agent::report::util::{
    executable_name, missing_binary, run_with_timeout, wait_for_agent, ReadyStep, RunStep,
};
use tx_agent::server::parse_bind_addr;
use tx_agent::solana::{Blockhash, Keypair, Pubkey};
use tx_agent::stack::{decode_signed_transaction, SignedTransactionEncoding};
use tx_agent::time::UtcTime;

const TIP_ADDRESS: &str = "DfXygSm4jCyNCybVYYK6DwvWqjKee8pbDmJGcLWNDXjh";

fn env(vars: &[(&str, &str)]) -> Environment {
    Environment { vars: vars.iter().map(|(k, v)| (k.to_string(), v.to_string())).collect() }
}

fn words(list: &[&str]) -> Vec<String> {
    list.iter().map(|w| w.to_string()).collect()
}

fn required() -> Environment {
    env(&[
        ("SOLANA_RPC_URL", "rpc"),
        ("YELLOWSTONE_ENDPOINT", "geyser"),
        ("JITO_AUTH_KEYPAIR", "jito"),
        ("PAYER_KEYPAIR", "payer"),
        ("YELLOWSTONE_TOKEN", "token"),
    ])
}

fn config(list: &[&str]) -> ReportConfig {
    match ReportConfig::from_args(&words(list), &required(), 77, "/tmp").unwrap() {
        ReportRequest::Run(config) => config,
        ReportRequest::Help => panic!("help"),
    }
}

fn text(words: &str) -> JsonValue {
    JsonValue::Text(words.to_string())
}

fn number(n: u64) -> JsonValue {
    JsonValue::Number(JsonNumber::Unsigned(n))
}

fn object(members: Vec<(&str, JsonValue)>) -> JsonValue {
    JsonValue::Object(members.into_iter().map(|(k, v)| (k.to_string(), v)).collect())
}

fn submission(id: &str, expected_outcome: ExpectedOutcome) -> SubmissionReport {
    let transaction = GeneratedTransaction {
        request_id: id.to_string(),
        kind: TransactionKind::FundedTipTransfer,
        expected_outcome,
        encoding: "base64".to_string(),
        transaction_file: "f".to_string(),
        payer: "p".to_string(),
        tip_account: "t".to_string(),
        tip_lamports: 9,
        blockhash: "h".to_string(),
        signature: "s".to_string(),
        constructed_at: UtcTime { secs: 0, nanos: 0 },
    };
    submission_report(
        transaction,
        UtcTime { secs: 1, nanos: 0 },
        UtcTime { secs: 3, nanos: 500_000_000 },
        HostOutput {
            exit_code: Some(0),
            success: true,
            stdout: "out".to_string(),
            stderr: "err".to_string(),
        },
    )
}

fn good_record(id: &str) -> JsonValue {
    object(vec![
        ("submission_id", text(id)),
        ("bundle_id", text("b")),
        ("signature", text("s")),
        ("blockhash", text("h")),
        ("tip_lamports", number(9)),
        ("submitted_slot", number(4)),
        ("leader_slot", JsonValue::Null),
        ("events", JsonValue::Array(vec![
            object(vec![("stage", text("Submitted"))]),
            object(vec![("stage", number(1))]),
            object(vec![("stage", text("Processed"))]),
        ])),
        ("failure", JsonValue::Null),
    ])
}

#[test]
fn report_settings_have_defaults() {
    let c = config(&[]);
    assert_eq!(c.request_prefix, "hackathon-77");
    assert_eq!(c.solana_rpc_url, "rpc");
    assert_eq!(c.yellowstone_endpoint, "geyser");
    assert_eq!(c.yellowstone_token, Some("token".to_string()));
    assert_eq!(c.jito_auth_keypair_path, "jito");
    assert_eq!(c.payer_keypair_path, "payer");
    let expected: solana_sdk::pubkey::Pubkey = TIP_ADDRESS.parse().unwrap();
    assert_eq!(c.tip_account.bytes, expected.to_bytes());
    assert_eq!(c.tip_lamports, 1_000);
    assert_eq!(c.success_count, 8);
    assert_eq!(c.failure_count, 2);
    assert_eq!(c.mcp_bind_addr, "127.0.0.1:18080");
    assert_eq!(c.work_dir, "/tmp/tx-agent-hackathon-report-77");
    assert_eq!(c.lifecycle_log_path, "/tmp/tx-agent-hackathon-report-77/lifecycle.log.jsonl");
    assert_eq!(c.agent_log_path, "/tmp/tx-agent-hackathon-report-77/agent_mcp.log");
    assert_eq!(c.report_path, "hackathon_report.json");
    assert_eq!(c.confirmation_timeout_secs, 45);
    assert_eq!(c.leader_lookahead_slots, 3);
    assert_eq!(c.max_agent_wait_slots, 3);
    assert_eq!(c.server_ready_timeout_secs, 180);
    assert_eq!(c.submission_timeout_secs, 180);
    assert_eq!(c.mcp_url(), "http://127.0.0.1:18080/mcp");
}

#[test]
fn arguments_of_the_report_are_read() {
    let other = solana_sdk::pubkey::Pubkey::from([8u8; 32]).to_string();
    let c = config(&[
        "--request-prefix", "p", "--rpc-url", "r", "--yellowstone-endpoint", "y",
        "--jito-auth-keypair", "j", "--payer-keypair", "k", "--tip-account", &other,
        "--tip-lamports", "1", "--success-count", "5", "--failure-count", "5", "--bind", "b",
        "--work-dir", "w/", "--out", "o", "--confirmation-timeout-secs", "2",
        "--leader-lookahead-slots", "3", "--max-agent-wait-slots", "4",
        "--server-ready-timeout-secs", "5", "--submission-timeout-secs", "6",
    ]);
    assert_eq!(c.request_prefix, "p");
    assert_eq!(c.solana_rpc_url, "r");
    assert_eq!(c.yellowstone_endpoint, "y");
    assert_eq!(c.jito_auth_keypair_path, "j");
    assert_eq!(c.payer_keypair_path, "k");
    assert_eq!(c.tip_account.bytes, [8; 32]);
    assert_eq!(c.tip_lamports, 1);
    assert_eq!((c.success_count, c.failure_count), (5, 5));
    assert_eq!(c.mcp_bind_addr, "b");
    assert_eq!(c.work_dir, "w/");
    assert_eq!(c.lifecycle_log_path, "w/lifecycle.log.jsonl");
    assert_eq!(c.report_path, "o");
    assert_eq!(c.confirmation_timeout_secs, 2);
    assert_eq!(c.leader_lookahead_slots, 3);
    assert_eq!(c.max_agent_wait_slots, 4);
    assert_eq!(c.server_ready_timeout_secs, 5);
    assert_eq!(c.submission_timeout_secs, 6);
}

#[test]
fn help_ends_the_reading() {
    for list in [vec!["--help"], vec!["--bind", "b", "-h", "--nonsense"]] {
        let out = ReportConfig::from_args(&words(&list), &env(&[]), 0, "").unwrap();
        assert!(matches!(out, ReportRequest::Help));
    }
    assert!(HELP.starts_with("Usage: cargo run --bin hackathon_report -- [options]\n\nRequired"));
    assert!(HELP.ends_with("--bind HOST:PORT                   default 127.0.0.1:18080"));
}

#[test]
fn bad_reports_are_refused() {
    let refuse = |list: &[&str], vars: Environment| {
        ReportConfig::from_args(&words(list), &vars, 0, "").err().unwrap().message()
    };
    assert_eq!(refuse(&["--out"], required()), "--out requires a value");
    assert_eq!(refuse(&["--tip-lamports", "x"], required()), "invalid number x");
    assert_eq!(refuse(&["--nope"], required()), "unknown argument --nope; use --help");
    assert_eq!(refuse(&[], env(&[])), "set SOLANA_RPC_URL or pass --rpc-url");
    assert_eq!(
        refuse(&["--rpc-url", "r"], env(&[])),
        "set YELLOWSTONE_ENDPOINT or pass --yellowstone-endpoint"
    );
    assert_eq!(
        refuse(&["--success-count", "9"], required()),
        "success-count + failure-count must equal 10"
    );
    assert_eq!(
        refuse(&["--success-count", "18446744073709551615", "--failure-count", "11"], required()),
        "success-count + failure-count must equal 10"
    );
    assert_eq!(
        refuse(&["--success-count", "9", "--failure-count", "1"], required()),
        "failure-count must be at least 2"
    );
    let some = [("SOLANA_RPC_URL", "r"), ("YELLOWSTONE_ENDPOINT", "y")];
    assert_eq!(refuse(&[], env(&some)), "set JITO_AUTH_KEYPAIR or pass --jito-auth-keypair");
    assert_eq!(
        refuse(&["--jito-auth-keypair", "j"], env(&some)),
        "set TX_AGENT_REAL_PAYER_KEYPAIR or pass --payer-keypair"
    );
    assert_eq!(refuse(&["--tip-account", "z"], required()), "invalid tip account z");
    assert_eq!(next_arg(&words(&["a"]), 0, "--x").unwrap(), "a");
    assert_eq!(next_arg(&words(&["a"]), 1, "--x").err().unwrap().message(), "--x requires a value");
}

#[test]
fn paths_are_joined() {
    for (directory, name) in [("/tmp", "x"), ("/tmp/", "x"), ("", "x"), ("w", "/root/x")] {
        let expected = std::path::PathBuf::from(directory).join(name);
        assert_eq!(join_path(directory, name), expected.to_str().unwrap());
    }
}

#[test]
fn ten_submissions_are_planned() {
    let plan = plan_requests(&config(&["--request-prefix", "p"]));
    let names: Vec<String> = plan.iter().map(|p| p.request_id.clone()).collect();
    assert_eq!(
        names,
        words(&[
            "p-success-01", "p-success-02", "p-success-03", "p-success-04", "p-success-05",
            "p-success-06", "p-success-07", "p-success-08", "p-failure-unfunded-01",
            "p-failure-unfunded-02",
        ])
    );
    assert_eq!(plan[7].expected_outcome, ExpectedOutcome::Success);
    assert_eq!(plan[8].expected_outcome, ExpectedOutcome::Failure);
    let failing =
        plan_requests(&config(&["--success-count", "0", "--failure-count", "10"]));
    assert_eq!(failing[9].request_id, "hackathon-77-failure-unfunded-10");
}

#[test]
fn generated_transactions_read_back_as_signed() {
    let c = config(&["--tip-lamports", "4321", "--work-dir", "w"]);
    let payer = Keypair { secret: [6; 32] };
    let hash = Blockhash { bytes: [9; 32] };
    let (tx, encoded) = generate_funded_tip_transaction(&payer, &c, "req", hash);
    let pair = solana_sdk::signature::Keypair::new_from_array([6; 32]);
    let key = solana_sdk::signer::Signer::pubkey(&pair);
    assert_eq!(tx.request_id, "req");
    assert_eq!(tx.kind, TransactionKind::FundedTipTransfer);
    assert_eq!(tx.expected_outcome, ExpectedOutcome::Success);
    assert_eq!(tx.encoding, "base64");
    assert_eq!(tx.transaction_file, "w/req.base64");
    assert_eq!(tx.payer, key.to_string());
    assert_eq!(tx.tip_account, TIP_ADDRESS);
    assert_eq!(tx.tip_lamports, 4_321);
    assert_eq!(tx.blockhash, solana_sdk::hash::Hash::from([9u8; 32]).to_string());
    assert!(tx.constructed_at.secs > 1_600_000_000);

    let tip: solana_sdk::pubkey::Pubkey = TIP_ADDRESS.parse().unwrap();
    let expected = solana_sdk::transaction::Transaction::new_signed_with_payer(
        &[solana_system_interface::instruction::transfer(&key, &tip, 4_321)],
        Some(&key),
        &[&pair],
        [9u8; 32].into(),
    );
    let bytes = bincode::serialize(&expected).unwrap();
    assert_eq!(encoded, base64::engine::general_purpose::STANDARD.encode(&bytes));
    assert_eq!(tx.signature, expected.signatures[0].to_string());

    let read =
        decode_signed_transaction(&encoded, SignedTransactionEncoding::Base64, 0).unwrap();
    assert_eq!(read.transaction.to_bytes(), bytes);
    assert_eq!(read.blockhash, hash);
}

#[test]
fn unfunded_payers_are_made_up() {
    let c = config(&[]);
    let hash = Blockhash { bytes: [9; 32] };
    let (one, encoded) = generate_unfunded_tip_transaction(&c, "a", hash);
    let (two, _) = generate_unfunded_tip_transaction(&c, "a", hash);
    assert_eq!(one.kind, TransactionKind::UnfundedTipTransfer);
    assert_eq!(one.expected_outcome, ExpectedOutcome::Failure);
    assert_ne!(one.payer, two.payer);
    assert!(decode_signed_transaction(&encoded, SignedTransactionEncoding::Base64, 0).is_ok());
}

#[test]
fn programs_are_started_with_what_they_understand() {
    let c = config(&["--bind", "h:1", "--tip-lamports", "12"]);
    let server = start_agent(&c);
    assert_eq!(server.program, "agent_mcp");
    assert_eq!(server.args, words(&["--bind", "h:1"]));
    assert_eq!(parse_bind_addr(&server.args, None).unwrap(), "h:1");
    let vars: Vec<(&str, &str)> =
        server.env.iter().map(|(k, v)| (k.as_str(), v.as_str())).collect();
    assert_eq!(
        vars,
        vec![
            ("YELLOWSTONE_ENDPOINT", "geyser"),
            ("SOLANA_RPC_URL", "rpc"),
            ("JITO_AUTH_KEYPAIR", "jito"),
            ("LIFECYCLE_LOG", "/tmp/tx-agent-hackathon-report-77/lifecycle.log.jsonl"),
            ("MCP_BIND_ADDR", "h:1"),
            ("MAX_AGENT_RETRIES", "0"),
            ("CONFIRMATION_TIMEOUT_SECS", "45"),
            ("LEADER_LOOKAHEAD_SLOTS", "3"),
            ("TIP_FLOOR_LAMPORTS", "12"),
            ("MAX_AGENT_WAIT_SLOTS", "3"),
            ("YELLOWSTONE_TOKEN", "token"),
        ]
    );
    let tx = submission("req", ExpectedOutcome::Success).transaction;
    let host = run_agent_host(&c, &tx);
    assert_eq!(host.program, "agent_host");
    assert_eq!(host.env[4], ("MCP_SERVER_URL".to_string(), "http://h:1/mcp".to_string()));
    let plan = parse_args(&host.args, "x".to_string(), None).unwrap();
    assert_eq!(plan.request_id, "req");
    assert_eq!(plan.mcp_url, "http://h:1/mcp");
    assert_eq!(plan.file(), Some("f".to_string()));
    assert_eq!(plan.encoding, SignedTransactionEncoding::Base64);
    assert_eq!(plan.observed_tip_lamports, Some(9));
}

#[test]
fn runs_of_the_host_are_reported() {
    let s = submission("a", ExpectedOutcome::Success);
    assert_eq!(s.request_id, "a");
    assert_eq!(s.agent.duration_ms, 2_500);
    assert_eq!(s.agent.exit_code, Some(0));
    assert!(s.agent.success);
    assert_eq!(s.agent.stdout, "out");
    assert_eq!(s.agent.stderr, "err");
    assert!(s.lifecycle.is_none());
    assert!(s.validation.is_none());
}

#[test]
fn good_records_meet_the_expectation() {
    let s = submission("a", ExpectedOutcome::Success);
    let v = validate_submission(&s, Some(&good_record("a")));
    assert!(v.matched_lifecycle_record);
    assert!(v.observed_success);
    assert!(!v.observed_failure);
    assert!(v.expected_outcome_met);
    assert_eq!(v.slot_numbers.submitted_slot, Some(4));
    assert_eq!(v.slot_numbers.leader_slot, None);
    assert_eq!(v.commitment_progression, words(&["Submitted", "Processed"]));
    assert_eq!(v.failure_classification, None);
    assert_eq!(v.notes, words(&[]));
}

#[test]
fn failures_are_observed() {
    let s = submission("a", ExpectedOutcome::Failure);
    let record = object(vec![
        ("bundle_id", text("b")),
        ("signature", text("s")),
        ("blockhash", text("h")),
        ("tip_lamports", number(9)),
        ("submitted_slot", number(4)),
        ("events", JsonValue::Array(vec![object(vec![("stage", text("Submitted"))])])),
        ("failure", text("BundleFailure")),
        ("failure_detail", text("d")),
    ]);
    let v = validate_submission(&s, Some(&record));
    assert!(!v.observed_success);
    assert!(v.observed_failure);
    assert!(v.expected_outcome_met);
    assert_eq!(v.failure_classification, Some("BundleFailure".to_string()));
    assert_eq!(v.failure_detail, Some("d".to_string()));
    let hoped = validate_submission(&submission("a", ExpectedOutcome::Success), Some(&record));
    assert!(!hoped.expected_outcome_met);
    assert_eq!(hoped.notes, words(&["expected outcome was not observed"]));
}

#[test]
fn everything_amiss_is_noted() {
    let s = submission("a", ExpectedOutcome::Success);
    let v = validate_submission(&s, Some(&object(vec![])));
    assert!(v.matched_lifecycle_record);
    assert_eq!(
        v.notes,
        words(&[
            "signature mismatch",
            "blockhash mismatch",
            "tip_lamports mismatch",
            "missing submitted_slot",
            "missing commitment events",
            "expected outcome was not observed",
        ])
    );
    let v = validate_submission(&s, None);
    assert!(!v.matched_lifecycle_record);
    assert!(!v.expected_outcome_met);
    assert_eq!(v.notes, words(&["missing lifecycle record"]));
}

#[test]
fn records_find_their_submission() {
    let mut list = vec![
        submission("a", ExpectedOutcome::Success),
        submission("b", ExpectedOutcome::Failure),
        submission("c", ExpectedOutcome::Success),
    ];
    let records = vec![JsonValue::Null, good_record("c"), good_record("a")];
    attach_lifecycle_records(&mut list, &records);
    assert!(list[0].validation.as_ref().unwrap().observed_success);
    assert_eq!(
        list[0].lifecycle.as_ref().unwrap().text_member("submission_id"),
        Some("a".to_string())
    );
    assert!(list[1].lifecycle.is_none());
    assert!(!list[1].validation.as_ref().unwrap().matched_lifecycle_record);
    let summary = ReportSummary::from_submissions(&list);
    assert_eq!(summary.total_submissions, 3);
    assert_eq!(summary.expected_successes, 2);
    assert_eq!(summary.expected_failures, 1);
    assert_eq!(summary.observed_successes, 2);
    assert_eq!(summary.observed_failures, 0);
    assert_eq!(summary.records_with_slots, 2);
    assert_eq!(summary.records_with_commitment_progression, 2);
    assert_eq!(summary.expected_outcomes_met, 2);
    assert!(!summary.meets_requirement());
    let enough = ReportSummary { total_submissions: 10, observed_failures: 2, ..summary };
    assert!(enough.meets_requirement());
    assert!(!ReportSummary { observed_failures: 1, ..enough }.meets_requirement());
    assert!(!ReportSummary { total_submissions: 11, ..enough }.meets_requirement());
}

#[test]
fn reports_are_assembled() {
    let vars = env(&[("JITO_BLOCK_ENGINE_URL", "secret")]);
    let report = assemble_report(
        config(&["--request-prefix", "id"]),
        &vars,
        vec![submission("a", ExpectedOutcome::Success)],
        vec![good_record("a")],
        UtcTime { secs: 5, nanos: 0 },
    );
    assert_eq!(report.run_id, "id");
    assert_eq!(report.run_started_at.secs, 5);
    assert_eq!(report.environment.solana_rpc_url, "REDACTED");
    assert_eq!(report.environment.yellowstone_endpoint, "REDACTED");
    assert_eq!(report.environment.jito_block_engine_url, Some("REDACTED".to_string()));
    assert_eq!(report.environment.mcp_url, "http://127.0.0.1:18080/mcp");
    assert_eq!(report.summary.observed_successes, 1);
    assert_eq!(report.lifecycle_records.len(), 1);
    let bare = assemble_report(
        config(&[]),
        &env(&[("JITO_BLOCK_ENGINE_URL", "")]),
        vec![],
        vec![],
        UtcTime { secs: 5, nanos: 0 },
    );
    assert_eq!(bare.environment.jito_block_engine_url, None);
    assert_eq!(lifecycle_lines("{}\n\n  \n[1]\r\n"), words(&["{}", "[1]"]));
}

#[test]
fn secrets_are_taken_out() {
    let vars = env(&[
        ("OPENAI_API_KEY", "sk-1"),
        ("SOLANA_RPC_URL", "https://rpc/?key=sk-1"),
        ("YELLOWSTONE_TOKEN", ""),
        ("HOME", "/home/me"),
    ]);
    let secrets = collect_secrets(&vars);
    assert_eq!(secrets, words(&["https://rpc/?key=sk-1", "sk-1"]));
    assert_eq!(
        scrub_sensitive_text("GET https://rpc/?key=sk-1 with sk-1 from /home/me", &secrets),
        "GET REDACTED with REDACTED from /home/me"
    );
    assert_eq!(scrub_sensitive_text("nothing here", &secrets), "nothing here");
    let doc = object(vec![
        ("sk-1", text("xsk-1x")),
        ("list", JsonValue::Array(vec![text("sk-1"), number(1), JsonValue::Bool(true)])),
        ("n", JsonValue::Number(JsonNumber::Other("1.5".to_string()))),
        ("null", JsonValue::Null),
    ]);
    let scrubbed = scrub_sensitive_json(&doc, &secrets);
    assert_eq!(scrubbed.text_member("sk-1"), Some("xREDACTEDx".to_string()));
    match scrubbed.get("list") {
        Some(JsonValue::Array(items)) => {
            assert_eq!(items[0].as_str(), Some("REDACTED".to_string()));
            assert_eq!(items[1].as_u64(), Some(1));
            assert!(matches!(items[2], JsonValue::Bool(true)));
        }
        other => panic!("{other:?}"),
    }
    assert!(matches!(scrubbed.get("null"), Some(JsonValue::Null)));
}

#[test]
fn a_secret_within_the_mark_stays() {
    let secrets = collect_secrets(&env(&[("OPENAI_API_KEY", "ED")]));
    assert_eq!(scrub_sensitive_text("ED", &secrets), "REDACTED");
}

#[test]
fn programs_are_waited_for() {
    assert!(matches!(wait_for_agent("a:1", 0, 1, true, None), ReadyStep::Ready));
    assert!(matches!(wait_for_agent("a:1", 999, 1, false, None), ReadyStep::Sleep));
    match wait_for_agent("a:1", 10, 1, false, Some("exit status: 1".to_string())) {
        ReadyStep::Fail(reason) => {
            assert_eq!(reason, "agent_mcp exited before opening a:1: exit status: 1")
        }
        other => panic!("{other:?}"),
    }
    match wait_for_agent("a:1", 180_000, 180, true, None) {
        ReadyStep::Fail(reason) => {
            let timeout = std::time::Duration::from_secs(180);
            assert_eq!(reason, format!("agent_mcp did not become ready at a:1 within {timeout:?}"))
        }
        other => panic!("{other:?}"),
    }
    assert!(matches!(run_with_timeout(true, 9_999, 1), RunStep::Finished));
    assert!(matches!(run_with_timeout(false, 999, 1), RunStep::Sleep));
    match run_with_timeout(false, 0, 0) {
        RunStep::Kill(reason) => {
            let timeout = std::time::Duration::from_secs(0);
            assert_eq!(reason, format!("command timed out after {timeout:?}"))
        }
        other => panic!("{other:?}"),
    }
    assert_eq!(executable_name("agent_mcp", false), "agent_mcp");
    assert_eq!(executable_name("agent_mcp", true), "agent_mcp.exe");
    assert_eq!(
        missing_binary("/x"),
        "required sibling binary /x does not exist; run `cargo build --bins` first"
    );
}

#[test]
fn runs_as_expected_meet_the_requirement() {
    let plan = plan_requests(&config(&["--request-prefix", "p"]));
    let mut list: Vec<SubmissionReport> =
        plan.iter().map(|p| submission(&p.request_id, p.expected_outcome)).collect();
    let records: Vec<JsonValue> = plan
        .iter()
        .map(|p| match p.expected_outcome {
            ExpectedOutcome::Success => good_record(&p.request_id),
            ExpectedOutcome::Failure => object(vec![
                ("submission_id", text(&p.request_id)),
                ("failure", text("BundleFailure")),
            ]),
        })
        .collect();
    attach_lifecycle_records(&mut list, &records);
    let summary = ReportSummary::from_submissions(&list);
    assert_eq!(summary.expected_outcomes_met, 10);
    assert_eq!(summary.observed_successes, 8);
    assert_eq!(summary.observed_failures, 2);
    assert!(summary.meets_requirement());
}

#[test]
fn tip_accounts_are_checked_last() {
    let settings = || ReportSettings::defaults(&required(), 1, "/tmp");
    let made = ReportConfig::with_tip_account(settings(), Some(Pubkey { bytes: [2; 32] })).unwrap();
    assert_eq!(made.tip_account.bytes, [2; 32]);
    let err = ReportConfig::with_tip_account(settings(), None).err().unwrap();
    assert_eq!(err.message(), format!("invalid tip account {TIP_ADDRESS}"));
    let mut short = settings();
    short.success_count = 3;
    let err = ReportConfig::with_tip_account(short, None).err().unwrap();
    assert_eq!(err.message(), "success-count + failure-count must equal 10");
}
