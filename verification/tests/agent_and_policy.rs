use tx_agent::agent::{
    validate_operational_decision, AgentFailureReport, AiAgent, OperationalAction,
    OperationalContext, OperationalDecision, SlotPressure, NO_CHOICES, SYSTEM_PROMPT, USER_PROMPT,
};
use tx_agent::config::{Config, Environment};
use tx_agent::jito::tip::TipData;
use tx_agent::lifecycle::FailureKind;
use tx_agent::policy::{validate_decision, PolicyError, PolicyLimits};

fn tips() -> TipData {
    TipData {
        time: "now".to_string(),
        landed_tips_25th_percentile: 10,
        landed_tips_50th_percentile: 20,
        landed_tips_75th_percentile: 3_000,
        landed_tips_95th_percentile: 9_000,
        landed_tips_99th_percentile: 90_000,
        ema_landed_tips_50th_percentile: 500,
    }
}

fn context(slots: Option<u64>, failure: Option<FailureKind>) -> OperationalContext {
    OperationalContext {
        request_id: "r".to_string(),
        attempt: 0,
        current_slot: Some(1),
        leader_slot: slots.map(|s| s + 1),
        slots_until_leader: slots,
        recent_tip: tips(),
        previous_tip_lamports: 700,
        tip_floor_lamports: 1_000,
        max_tip_lamports: 8_000,
        can_refresh_blockhash: false,
        can_adjust_tip: false,
        failure: failure.map(|failure| AgentFailureReport {
            failure,
            detail: "why".to_string(),
            submitted_slot: None,
            blockhash: String::new(),
            processed_latency_ms: None,
            confirmed_latency_ms: None,
        }),
    }
}

fn config(key: bool) -> Config {
    let mut vars = vec![
        ("OPENAI_MODEL".to_string(), "m".to_string()),
        ("MAX_AGENT_TIP_LAMPORTS".to_string(), "5000".to_string()),
        ("MAX_AGENT_RETRIES".to_string(), "1".to_string()),
        ("MAX_AGENT_WAIT_SLOTS".to_string(), "4".to_string()),
    ];
    if key {
        vars.push(("OPENAI_API_KEY".to_string(), "k".to_string()));
    }
    Config::from_env_and_args(&vec![], &Environment { vars }).unwrap()
}

fn decision(action: OperationalAction, tip: u64, wait: u64) -> OperationalDecision {
    OperationalDecision {
        action,
        reason: "because".to_string(),
        refresh_blockhash: true,
        tip_lamports: tip,
        max_wait_slots: wait,
        source: "model".to_string(),
    }
}

#[test]
fn only_submissions_write() {
    for (action, writes) in [
        (OperationalAction::SubmitNow, true),
        (OperationalAction::Retry, true),
        (OperationalAction::WaitForLeader, false),
        (OperationalAction::Abandon, false),
        (OperationalAction::Escalate, false),
    ] {
        assert_eq!(decision(action, 1, 1).is_write_action(), writes);
    }
}

#[test]
fn pressure_picks_the_percentile() {
    let agent = AiAgent::new(&config(false));
    let pick = |n, d| {
        agent.choose_tip_lamports(&tips(), SlotPressure { numerator: n, denominator: d }, 1_000)
    };
    assert_eq!(pick(1, 1), 9_000);
    assert_eq!(pick(76, 100), 9_000);
    assert_eq!(pick(75, 100), 3_000);
    assert_eq!(pick(36, 100), 3_000);
    assert_eq!(pick(35, 100), 1_000);
    assert_eq!(pick(0, 1), 1_000);
    assert_eq!(pick(u64::MAX, 1), 9_000);
    assert_eq!(SlotPressure::from_slots(Some(1)), SlotPressure { numerator: 2, denominator: 3 });
    assert_eq!(SlotPressure::from_slots(Some(9)), SlotPressure { numerator: 0, denominator: 3 });
    assert_eq!(SlotPressure::from_slots(None), SlotPressure { numerator: 0, denominator: 3 });
}

#[test]
fn near_leaders_are_taken() {
    let agent = AiAgent::new(&config(false));
    for (slots, tip) in [(0, 8_000), (1, 3_000), (2, 1_000), (3, 1_000)] {
        let d = agent.fallback_operation(&context(Some(slots), None));
        assert_eq!(d.action, OperationalAction::SubmitNow);
        assert_eq!(d.tip_lamports, tip);
        assert_eq!(d.max_wait_slots, 3);
        assert_eq!(d.source, "fallback_reasoner");
    }
    for slots in [Some(4), None] {
        let d = agent.fallback_operation(&context(slots, None));
        assert_eq!(d.action, OperationalAction::WaitForLeader);
        assert_eq!(d.reason, "No near connected Jito leader is available yet.");
    }
}

#[test]
fn failures_are_never_resubmitted_by_rule() {
    let agent = AiAgent::new(&config(false));
    for (kind, action, tip, wait) in [
        (FailureKind::ExpiredBlockhash, OperationalAction::Escalate, 1_000, 0),
        (FailureKind::ComputeExceeded, OperationalAction::Abandon, 1_000, 0),
        (FailureKind::SimulationFailure, OperationalAction::Abandon, 1_000, 0),
        (FailureKind::InsufficientFunds, OperationalAction::Abandon, 1_000, 0),
        (FailureKind::FeeTooLow, OperationalAction::Escalate, 8_000, 0),
        (FailureKind::BundleFailure, OperationalAction::Escalate, 8_000, 0),
        (FailureKind::JitoRateLimited, OperationalAction::WaitForLeader, 3_000, 3),
        (FailureKind::Timeout, OperationalAction::WaitForLeader, 3_000, 3),
        (FailureKind::Unknown, OperationalAction::WaitForLeader, 3_000, 3),
    ] {
        let d = agent.fallback_operation(&context(Some(1), Some(kind)));
        assert_eq!(d.action, action, "{kind:?}");
        assert_eq!(d.tip_lamports, tip, "{kind:?}");
        assert_eq!(d.max_wait_slots, wait, "{kind:?}");
        assert!(!d.refresh_blockhash);
        assert!(!d.is_write_action());
    }
}

#[test]
fn answers_count_only_with_a_key() {
    let with_key = AiAgent::new(&config(true));
    let without = AiAgent::new(&config(false));
    let ctx = context(Some(9), None);
    let answer = || Some(decision(OperationalAction::Retry, 0, 7));

    let taken = with_key.decide_operation(&ctx, answer());
    assert_eq!(taken.action, OperationalAction::Retry);
    assert_eq!(taken.source, "openai");
    assert_eq!(taken.tip_lamports, 1_000);
    assert!(!taken.refresh_blockhash);

    let ruled = without.decide_operation(&ctx, answer());
    assert_eq!(ruled.action, OperationalAction::WaitForLeader);
    assert_eq!(ruled.source, "fallback_reasoner");
    let unread = with_key.decide_operation(&ctx, None);
    assert_eq!(unread.source, "fallback_reasoner");
}

#[test]
fn answers_are_fit_to_the_context() {
    let mut ctx = context(Some(1), None);
    ctx.can_refresh_blockhash = true;
    let kept = validate_operational_decision(decision(OperationalAction::Retry, 5, 1), &ctx);
    assert!(kept.refresh_blockhash);
    assert_eq!(kept.tip_lamports, 5);
    ctx.previous_tip_lamports = 4_000;
    let tipped = validate_operational_decision(decision(OperationalAction::Retry, 0, 1), &ctx);
    assert_eq!(tipped.tip_lamports, 4_000);
}

#[test]
fn prompts_carry_the_evidence() {
    let agent = AiAgent::new(&config(true));
    let prompt = agent.user_prompt("{\"attempt\": 0}");
    assert!(prompt.starts_with(USER_PROMPT));
    assert!(prompt.ends_with("Evidence and policy limits:\n{\"attempt\": 0}"));
    assert!(SYSTEM_PROMPT.starts_with("Make one bounded Solana transaction operation decision."));
    assert_eq!(
        agent.first_choice(vec!["a".to_string(), "b".to_string()]),
        Ok("a".to_string())
    );
    assert_eq!(agent.first_choice(vec![]), Err(NO_CHOICES));
    assert_eq!(agent.model, "m");
    assert_eq!(agent.api_key, Some("k".to_string()));
}

#[test]
fn limits_come_from_the_settings() {
    let limits = PolicyLimits::from_config(&config(false));
    assert_eq!(
        limits,
        PolicyLimits {
            min_tip_lamports: 1_000,
            max_tip_lamports: 5_000,
            max_retries: 1,
            max_wait_slots: 4,
        }
    );
}

#[test]
fn decisions_are_held_to_the_limits() {
    let limits = PolicyLimits::from_config(&config(false));
    let ok = validate_decision(decision(OperationalAction::SubmitNow, 10, 9), 1, &limits).unwrap();
    assert_eq!(ok.decision.tip_lamports, 1_000);
    assert_eq!(ok.decision.max_wait_slots, 4);
    assert_eq!(ok.limits, limits);
    let again = validate_decision(ok.decision, 1, &limits).unwrap();
    assert_eq!(again.decision.tip_lamports, 1_000);
    assert_eq!(again.decision.max_wait_slots, 4);

    let high = validate_decision(decision(OperationalAction::Abandon, 5_001, 0), 0, &limits);
    let error = high.err().unwrap();
    assert_eq!(error, PolicyError::TipTooHigh { tip_lamports: 5_001, max_tip_lamports: 5_000 });
    assert_eq!(error.message(), "agent tip 5001 exceeds policy max 5000");

    let late = validate_decision(decision(OperationalAction::Retry, 2_000, 0), 2, &limits);
    let error = late.err().unwrap();
    assert_eq!(error, PolicyError::TooManyAttempts { attempt: 2, max_retries: 1 });
    assert_eq!(
        error.message(),
        "agent requested write action on attempt 2, above max retries 1"
    );
    assert!(validate_decision(decision(OperationalAction::Escalate, 2_000, 0), 2, &limits).is_ok());
}

#[test]
fn a_floor_over_the_maximum_refuses_everything() {
    let limits = PolicyLimits {
        min_tip_lamports: 9,
        max_tip_lamports: 8,
        max_retries: 1,
        max_wait_slots: 1,
    };
    let out = validate_decision(decision(OperationalAction::Abandon, 1, 1), 0, &limits);
    assert_eq!(
        out.err(),
        Some(PolicyError::TipTooHigh { tip_lamports: 9, max_tip_lamports: 8 })
    );
}
