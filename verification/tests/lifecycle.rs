use tx_agent::lifecycle::{CommitmentStage, FailureKind, LifecycleRecord};
use tx_agent::solana::Signature;
use tx_agent::time::UtcTime;

fn at(secs: i64) -> UtcTime {
    UtcTime { secs, nanos: 0 }
}

fn record() -> LifecycleRecord {
    LifecycleRecord::new_at(
        "request".to_string(),
        2,
        Signature { bytes: [1; 64] },
        5_000,
        Some(100),
        Some(103),
        "hash".to_string(),
        Some(9),
        at(1_000),
    )
}

#[test]
fn messages_are_classified() {
    for (raw, kind) in [
        ("Blockhash not found", FailureKind::ExpiredBlockhash),
        ("BLOCK HEIGHT EXCEEDED", FailureKind::ExpiredBlockhash),
        ("bid too low", FailureKind::FeeTooLow),
        ("Tip below floor", FailureKind::FeeTooLow),
        ("insufficient FEE", FailureKind::FeeTooLow),
        ("Compute budget exceeded", FailureKind::ComputeExceeded),
        ("CU limit", FailureKind::ComputeExceeded),
        ("Simulation failed", FailureKind::SimulationFailure),
        ("rate limited", FailureKind::JitoRateLimited),
        ("Resource Exhausted", FailureKind::JitoRateLimited),
        ("timeout", FailureKind::Timeout),
        ("dropped", FailureKind::BundleFailure),
        (
            "Attempt to debit an account but found no record of a prior credit.",
            FailureKind::InsufficientFunds,
        ),
        (
            "simulation failure: tip transfer: no record of a prior credit",
            FailureKind::InsufficientFunds,
        ),
        ("blockhash not found, no prior credit", FailureKind::ExpiredBlockhash),
        ("", FailureKind::Unknown),
        (" ", FailureKind::BundleFailure),
        ("simulation failed: blockhash", FailureKind::ExpiredBlockhash),
    ] {
        assert_eq!(FailureKind::classify(raw), kind, "{raw:?}");
        assert_eq!(FailureKind::classify(&raw.to_uppercase()), kind, "{raw:?}");
    }
}

#[test]
fn fresh_records_hold_the_submission() {
    let r = record();
    assert_eq!(r.submission_id, "request");
    assert_eq!(r.attempt, 2);
    assert_eq!(r.bundle_id, None);
    assert_eq!(
        r.signature,
        solana_sdk::signature::Signature::from([1u8; 64]).to_string()
    );
    assert_eq!(r.tip_lamports, 5_000);
    assert_eq!(r.submitted_slot, Some(100));
    assert_eq!(r.leader_slot, Some(103));
    assert_eq!(r.blockhash, "hash");
    assert_eq!(r.last_valid_block_height, Some(9));
    assert_eq!(r.events.len(), 1);
    assert_eq!(r.events[0].stage, CommitmentStage::Submitted);
    assert_eq!(r.events[0].slot, Some(100));
    assert!(!r.is_terminal_success());
}

#[test]
fn records_start_now() {
    let before = chrono::Utc::now().timestamp();
    let r = LifecycleRecord::new(
        "r".to_string(),
        0,
        Signature { bytes: [0; 64] },
        0,
        None,
        None,
        String::new(),
        None,
    );
    let after = chrono::Utc::now().timestamp();
    assert!(before <= r.submitted_at.secs && r.submitted_at.secs <= after);
    assert!(r.submitted_at.nanos < 1_000_000_000);
}

#[test]
fn stages_stamp_once() {
    let mut r = record();
    r.add_stage_at(CommitmentStage::Processed, Some(104), None, at(1_001));
    r.add_stage_at(CommitmentStage::Processed, Some(200), Some("late".to_string()), at(1_009));
    assert_eq!(r.processed_at, Some(at(1_001)));
    assert_eq!(r.processed_slot, Some(104));
    assert_eq!(r.processed_latency_ms, Some(1_000));
    assert_eq!(r.events.len(), 3);
    assert_eq!(r.events[2].detail, Some("late".to_string()));
    assert!(!r.is_terminal_success());
}

#[test]
fn later_stages_inherit_the_slot() {
    let mut r = record();
    r.add_stage_at(CommitmentStage::Processed, Some(104), None, at(1_001));
    r.add_stage_at(CommitmentStage::Confirmed, None, None, at(1_002));
    r.add_stage_at(CommitmentStage::Finalized, None, None, at(1_030));
    assert_eq!(r.confirmed_slot, Some(104));
    assert_eq!(r.finalized_slot, Some(104));
    assert_eq!(r.confirmed_latency_ms, Some(2_000));
    assert_eq!(r.finalized_latency_ms, Some(30_000));
    assert!(r.is_terminal_success());

    let mut own = record();
    own.add_stage_at(CommitmentStage::Confirmed, Some(110), None, at(1_002));
    own.add_stage_at(CommitmentStage::Finalized, None, None, at(1_003));
    assert_eq!(own.processed_at, None);
    assert_eq!(own.confirmed_slot, Some(110));
    assert_eq!(own.finalized_slot, Some(110));
}

#[test]
fn submission_and_acceptance_stamp_nothing() {
    let mut r = record();
    r.add_stage_at(CommitmentStage::Submitted, Some(101), None, at(1_001));
    r.add_stage_at(CommitmentStage::Accepted, Some(102), None, at(1_001));
    assert_eq!(r.processed_at, None);
    assert_eq!(r.confirmed_at, None);
    assert_eq!(r.finalized_at, None);
    assert_eq!(r.events.len(), 3);
}

#[test]
fn stages_are_stamped_with_the_present() {
    let mut r = record();
    r.add_stage(CommitmentStage::Finalized, Some(1), None);
    let stamped = r.finalized_at.unwrap();
    assert!(stamped.secs > 1_600_000_000);
    assert_eq!(r.events[1].at, stamped);
}

#[test]
fn failures_replace_each_other() {
    let mut r = record();
    r.fail(FailureKind::Timeout, "slow".to_string());
    r.fail(FailureKind::BundleFailure, "dropped".to_string());
    assert_eq!(r.failure, Some(FailureKind::BundleFailure));
    assert_eq!(r.failure_detail, Some("dropped".to_string()));
    assert_eq!(r.events.len(), 1);
}
