use base64::Engine;
use tx_agent::agent::OperationalAction;
use tx_agent::config::{Config, Environment};
use tx_agent::jito::client::{BundleEvent, ConnectedValidator, JitoClient, SentBundle};
use tx_agent::jito::tip::TipData;
use tx_agent::lifecycle::{CommitmentStage, FailureKind, LifecycleRecord};
use tx_agent::networking::geyser::{
    block_event, Account, CommitmentLevel, Geyser, GeyserStream, SubscribeRequest, Update,
};
use tx_agent::solana::{Blockhash, Keypair, Pubkey, Signature, SignedTransaction};
use tx_agent::stack::{
    attempt_blockhash, decide_next_attempt, decode_signed_transaction, encode_signed_transaction,
    judge_transaction, next_attempt, ControlledSignedSubmitRequest, LeaderStep, LifecycleEvent, RpcAnswer, RpcStatus, SignedTransactionEncoding, SubmitError, TxStack,
};
use tx_agent::time::UtcTime;
use tx_agent::tx_factory::TransactionFactory;

fn at(secs: i64) -> UtcTime {
    UtcTime { secs, nanos: 0 }
}

fn stack() -> TxStack {
    let config = Config::from_env_and_args(
        &vec![],
        &Environment {
            vars: vec![
                ("MAX_AGENT_TIP_LAMPORTS".to_string(), "9000".to_string()),
                ("MAX_AGENT_RETRIES".to_string(), "1".to_string()),
                ("MAX_AGENT_WAIT_SLOTS".to_string(), "4".to_string()),
            ],
        },
    )
    .unwrap();
    let tips = TipData {
        time: "t".to_string(),
        landed_tips_25th_percentile: 1,
        landed_tips_50th_percentile: 2,
        landed_tips_75th_percentile: 3,
        landed_tips_95th_percentile: 4,
        landed_tips_99th_percentile: 5,
        ema_landed_tips_50th_percentile: 6,
    };
    TxStack::new(config, JitoClient::new(tips, vec![]))
}

fn transaction() -> SignedTransaction {
    TransactionFactory::new(Pubkey { bytes: [5; 32] }, 1)
        .build(&Keypair { secret: [9; 32] }, Blockhash { bytes: [7; 32] }, 1_000)
        .unwrap()
        .transaction
}

fn base64_of(bytes: &[u8]) -> String {
    base64::engine::general_purpose::STANDARD.encode(bytes)
}

fn request(encoded: String) -> ControlledSignedSubmitRequest {
    ControlledSignedSubmitRequest {
        submission_id: "r".to_string(),
        attempt: 1,
        encoded_transaction: encoded,
        encoding: SignedTransactionEncoding::Base64,
        wait_for_leader: false,
        max_wait_slots: None,
        observed_tip_lamports: Some(1_000),
    }
}

fn record() -> LifecycleRecord {
    let mut r = LifecycleRecord::new_at(
        "r".to_string(),
        0,
        Signature { bytes: [1; 64] },
        0,
        None,
        None,
        String::new(),
        None,
        at(0),
    );
    r.bundle_id = Some("mine".to_string());
    r
}

#[test]
fn built_transactions_move_what_they_say() {
    let payer = Keypair { secret: [9; 32] };
    let pair = solana_sdk::signature::Keypair::new_from_array([9; 32]);
    let built = TransactionFactory::new(Pubkey { bytes: [5; 32] }, 12)
        .build(&payer, Blockhash { bytes: [7; 32] }, 3_456)
        .unwrap();
    let tx: solana_sdk::transaction::VersionedTransaction =
        bincode::deserialize(&built.transaction.to_bytes()).unwrap();
    assert_eq!(tx.signatures.len(), 1);
    assert_eq!(<[u8; 64]>::from(tx.signatures[0]), built.signature.bytes);
    assert_eq!(built.blockhash.bytes, [7; 32]);
    assert_eq!(built.tip_lamports, 3_456);
    assert!(built.transaction.verifies());
    let key = solana_sdk::signer::Signer::pubkey(&pair);
    let expected = solana_sdk::message::v0::Message::try_compile(
        &key,
        &[
            solana_system_interface::instruction::transfer(&key, &key, 12),
            solana_system_interface::instruction::transfer(&key, &[5u8; 32].into(), 3_456),
        ],
        &[],
        [7u8; 32].into(),
    )
    .unwrap();
    assert_eq!(tx.message, solana_sdk::message::VersionedMessage::V0(expected));
}

#[test]
fn signed_transactions_are_read() {
    let tx = transaction();
    let bytes = tx.to_bytes();
    let encoded = format!(" {}\n", base64_of(&bytes));
    let read =
        decode_signed_transaction(&encoded, SignedTransactionEncoding::Base64, 77).unwrap();
    assert_eq!(read.transaction.to_bytes(), bytes);
    assert_eq!(read.signature.bytes.to_vec(), bytes[1..65].to_vec());
    assert_eq!(read.blockhash.bytes, [7; 32]);
    assert_eq!(read.tip_lamports, 77);
    let encoded = bs58::encode(&bytes).into_string();
    let read = decode_signed_transaction(&encoded, SignedTransactionEncoding::Base58, 0).unwrap();
    assert_eq!(read.transaction.to_bytes(), bytes);
}

#[test]
fn bytes_after_the_transaction_do_not_travel() {
    let bytes = transaction().to_bytes();
    let mut longer = bytes.clone();
    longer.extend([1, 2, 3]);
    let read =
        decode_signed_transaction(&base64_of(&longer), SignedTransactionEncoding::Base64, 0)
            .unwrap();
    assert_eq!(read.transaction.to_bytes(), bytes);
}

#[test]
fn bad_transactions_are_refused() {
    let good = transaction().to_bytes();
    let read = |text: &str, encoding| decode_signed_transaction(text, encoding, 0).err().unwrap();
    let base64 = SignedTransactionEncoding::Base64;
    let err = read("***", base64);
    assert_eq!(err, SubmitError::Base64);
    assert_eq!(err.message(), "failed to decode base64 signed transaction");
    let err = read("0OIl", SignedTransactionEncoding::Base58);
    assert_eq!(err, SubmitError::Base58);
    assert_eq!(err.message(), "failed to decode base58 signed transaction");
    let err = read(&base64_of(&[1, 2, 3]), base64);
    assert_eq!(err, SubmitError::Malformed);
    assert_eq!(err.message(), "failed to deserialize signed transaction");

    let mut forged = good.clone();
    forged[10] ^= 1;
    let err = read(&base64_of(&forged), base64);
    assert_eq!(err, SubmitError::Unverified);
    assert_eq!(err.message(), "signed transaction signature verification failed");

    let mut unsound = good.clone();
    assert_eq!(unsound[65], 0x80);
    unsound[66] = 2;
    let err = read(&base64_of(&unsound), base64);
    assert_eq!(err, SubmitError::Unsanitary);
    assert_eq!(err.message(), "signed transaction failed sanitization");
    assert_eq!(SubmitError::Unsigned.message(), "signed transaction has no signatures");
}

#[test]
fn submissions_carry_the_transaction_unchanged() {
    let mut s = stack();
    s.on_slot_event(GeyserStream::StreamCompleteOnSlot(50));
    let bytes = transaction().to_bytes();
    let made = s.submit_signed_encoded(&request(base64_of(&bytes)), Some(53)).unwrap();
    assert_eq!(made.send.packet.data, bytes);
    assert_eq!(made.record.submission_id, "r");
    assert_eq!(made.record.attempt, 1);
    assert_eq!(made.record.submitted_slot, Some(50));
    assert_eq!(made.record.leader_slot, Some(53));
    assert_eq!(made.record.tip_lamports, 1_000);
    assert_eq!(
        made.record.blockhash,
        solana_sdk::hash::Hash::from([7u8; 32]).to_string()
    );
    assert_eq!(
        made.record.signature,
        solana_sdk::signature::Signature::from(made.built.signature.bytes).to_string()
    );
    assert_eq!(
        s.submit_signed_encoded(&request("***".to_string()), None).err(),
        Some(SubmitError::Base64)
    );
}

#[test]
fn slot_events_move_the_stack() {
    let mut s = stack();
    assert!(!s.has_slot());
    s.on_slot_event(GeyserStream::BlockHash { slot: 9, hash: Blockhash { bytes: [3; 32] } });
    assert!(s.has_slot());
    assert_eq!(s.latest_slot, 9);
    assert_eq!(s.jito.current_slot, 9);
    assert_eq!(s.latest_blockhash, Some((9, Blockhash { bytes: [3; 32] })));
    s.on_slot_event(GeyserStream::StreamCompleteOnSlot(11));
    assert_eq!(s.latest_slot, 11);
    assert_eq!(s.latest_blockhash, Some((9, Blockhash { bytes: [3; 32] })));
    s.on_slot_event(GeyserStream::OnAccountUpdate {
        slot: 99,
        pubkey: Pubkey { bytes: [0; 32] },
        account_info: Account {
            lamports: 0,
            data: vec![],
            owner: Pubkey { bytes: [0; 32] },
            executable: false,
            rent_epoch: 0,
        },
    });
    assert_eq!(s.latest_slot, 11);
}

#[test]
fn the_state_of_the_network_is_told() {
    let mut s = stack();
    s.on_slot_event(GeyserStream::BlockHash { slot: 9, hash: Blockhash { bytes: [3; 32] } });
    let state = s.operational_state();
    assert_eq!(state.current_slot, 9);
    assert_eq!(state.latest_blockhash_slot, Some(9));
    assert_eq!(state.next_jito_leader_slot, None);
    assert_eq!(state.slots_until_jito_leader, None);
    assert_eq!(state.recent_tip.ema_landed_tips_50th_percentile, 6);
    assert_eq!(state.tip_floor_lamports, 1_000);
    assert_eq!(state.max_tip_lamports, 9_000);
    assert_eq!(state.leader_lookahead_slots, 3);
    s.jito.refresh_leader_schedule(Some(vec![ConnectedValidator {
        identity: solana_sdk::pubkey::Pubkey::from([1; 32]).to_string(),
        slots: vec![20],
    }]));
    let state = s.operational_state();
    assert_eq!(state.next_jito_leader_slot, Some(20));
    assert_eq!(state.slots_until_jito_leader, Some(11));
}

#[test]
fn leaders_are_asked_for_only_on_request() {
    let mut s = stack();
    s.on_slot_event(GeyserStream::StreamCompleteOnSlot(10));
    let mut r = request(String::new());
    assert_eq!(s.leader_step(&r, 10), LeaderStep::Go(None));
    r.wait_for_leader = true;
    assert_eq!(s.leader_step(&r, 10), LeaderStep::Refresh);
    s.jito.refresh_leader_schedule(Some(vec![ConnectedValidator {
        identity: solana_sdk::pubkey::Pubkey::from([1; 32]).to_string(),
        slots: vec![20],
    }]));
    assert_eq!(s.leader_step(&r, 10), LeaderStep::Sleep);
    assert_eq!(s.leader_step(&r, 6), LeaderStep::Go(None));
    r.max_wait_slots = Some(0);
    assert_eq!(s.leader_step(&r, 10), LeaderStep::Go(None));
    s.on_slot_event(GeyserStream::StreamCompleteOnSlot(17));
    assert_eq!(s.leader_step(&r, 10), LeaderStep::Go(Some(20)));
    r.wait_for_leader = false;
    assert_eq!(s.leader_step(&r, 10), LeaderStep::Go(Some(20)));
}

#[test]
fn sending_is_noted() {
    let mut s = stack();
    s.on_slot_event(GeyserStream::StreamCompleteOnSlot(10));
    let mut r = record();
    assert!(s.on_sent_at(&mut r, Ok(SentBundle { bundle_id: "id".to_string() }), at(3)));
    assert_eq!(r.bundle_id, Some("id".to_string()));
    assert_eq!(r.events[1].stage, CommitmentStage::Submitted);
    assert_eq!(r.events[1].slot, Some(10));
    assert_eq!(r.events[1].detail, Some("bundle_id=id".to_string()));
    assert_eq!(r.events[1].at, at(3));
    let mut r = record();
    assert!(!s.on_sent(&mut r, Err("rate limit".to_string())));
    assert_eq!(r.failure, Some(FailureKind::JitoRateLimited));
    assert_eq!(r.failure_detail, Some("rate limit".to_string()));
    let mut r = record();
    assert!(s.on_sent(&mut r, Ok(SentBundle { bundle_id: "id".to_string() })));
    assert!(r.events[1].at.secs > 1_600_000_000);
}

#[test]
fn failures_are_reported() {
    let mut r = record();
    assert!(TxStack::failure_report(&r).is_none());
    r.fail(FailureKind::Timeout, "slow".to_string());
    let report = TxStack::failure_report(&r).unwrap();
    assert_eq!(report.failure, FailureKind::Timeout);
    assert_eq!(report.detail, "slow");
    assert_eq!(report.submission_id, "r");
    r.failure_detail = None;
    assert_eq!(TxStack::failure_report(&r).unwrap().detail, "");
}

#[test]
fn only_the_own_bundle_matters() {
    let mut r = record();
    let event = |id: &str| BundleEvent::Processed {
        bundle_id: id.to_string(),
        slot: 8,
        validator_identity: "v".to_string(),
    };
    TxStack::apply_bundle_event(&mut r, event("other"), at(1));
    assert_eq!(r.events.len(), 1);
    TxStack::apply_bundle_event(&mut r, event("mine"), at(1));
    assert_eq!(r.processed_slot, Some(8));
    assert_eq!(r.events[1].detail, Some("jito_validator=v".to_string()));
    let mut nameless = record();
    nameless.bundle_id = None;
    TxStack::apply_bundle_event(&mut nameless, event("mine"), at(1));
    assert_eq!(nameless.events.len(), 1);
}

#[test]
fn bundle_events_become_stages() {
    let mine = || "mine".to_string();
    let mut r = record();
    TxStack::apply_bundle_event(
        &mut r,
        BundleEvent::Accepted { bundle_id: mine(), slot: 7, validator_identity: "v".to_string() },
        at(1),
    );
    assert_eq!(r.events[1].stage, CommitmentStage::Accepted);
    assert_eq!(r.events[1].detail, Some("forwarded_to=v".to_string()));
    TxStack::apply_bundle_event(&mut r, BundleEvent::Finalized { bundle_id: mine() }, at(2));
    assert_eq!(r.finalized_at, Some(at(2)));
    assert_eq!(r.events[2].detail, Some("Jito finalized".to_string()));
    TxStack::apply_bundle_event(
        &mut r,
        BundleEvent::Dropped { bundle_id: mine(), reason: "Blockhash expired".to_string() },
        at(3),
    );
    assert_eq!(r.failure, Some(FailureKind::ExpiredBlockhash));
    TxStack::apply_bundle_event(
        &mut r,
        BundleEvent::Rejected { bundle_id: mine(), reason: "lost".to_string() },
        at(3),
    );
    assert_eq!(r.failure, Some(FailureKind::BundleFailure));
    assert_eq!(r.failure_detail, Some("lost".to_string()));
}

#[test]
fn tracking_ends_where_it_should() {
    let own = Signature { bytes: [1; 64] };
    let step = |r: &mut LifecycleRecord, e| TxStack::wait_for_lifecycle_at(r, &own, e, at(5));
    let status = |byte: u8, error: Option<&str>| {
        LifecycleEvent::Signature(GeyserStream::TransactionStatus {
            slot: 6,
            signature: Signature { bytes: [byte; 64] },
            error: error.map(|e| e.to_string()),
        })
    };
    let mut r = record();
    assert!(!step(&mut r, LifecycleEvent::BundleLagged));
    assert!(!step(&mut r, LifecycleEvent::SignatureClosed));
    assert!(!step(&mut r, status(2, Some("fee"))));
    assert!(!step(&mut r, LifecycleEvent::Signature(GeyserStream::StreamCompleteOnSlot(3))));
    assert_eq!(r.events.len(), 1);
    assert_eq!(r.failure, None);
    assert!(!step(&mut r, status(1, None)));
    assert_eq!(r.processed_slot, Some(6));
    assert_eq!(
        r.events[1].detail,
        Some("observed by Yellowstone transactions_status".to_string())
    );
    assert!(step(&mut r, status(1, Some("compute"))));
    assert_eq!(r.failure, Some(FailureKind::ComputeExceeded));

    let mut r = record();
    assert!(!step(&mut r, LifecycleEvent::Bundle(BundleEvent::Finalized {
        bundle_id: "mine".to_string()
    })));
    assert!(step(&mut r, LifecycleEvent::Timeout));
    assert_eq!(r.failure, None);

    let mut r = record();
    assert!(step(&mut r, LifecycleEvent::Timeout));
    assert_eq!(r.failure, Some(FailureKind::Timeout));
    assert_eq!(r.failure_detail, Some("confirmation timeout elapsed".to_string()));

    let mut r = record();
    assert!(TxStack::wait_for_lifecycle(&mut r, &own, LifecycleEvent::BundleClosed));
    assert_eq!(r.failure, Some(FailureKind::BundleFailure));
    assert_eq!(r.failure_detail, Some("Jito bundle event stream closed".to_string()));
}

#[test]
fn the_rpc_node_fills_in() {
    let own = Signature { bytes: [1; 64] };
    let answer = |status, secs| RpcAnswer { status, at: at(secs) };
    let mut r = record();
    let poll = LifecycleEvent::Poll {
        processed: answer(RpcStatus::Succeeded, 1),
        confirmed: answer(RpcStatus::Succeeded, 2),
        finalized: answer(RpcStatus::Pending, 3),
    };
    assert!(!TxStack::wait_for_lifecycle(&mut r, &own, poll));
    assert_eq!(r.processed_at, Some(at(1)));
    assert_eq!(r.confirmed_at, Some(at(2)));
    assert_eq!(r.finalized_at, None);
    assert_eq!(r.events[1].detail, Some("RPC commitment fallback".to_string()));
    assert!(r.is_terminal_success());
    let poll = LifecycleEvent::Poll {
        processed: answer(RpcStatus::Unavailable, 4),
        confirmed: answer(RpcStatus::Unavailable, 4),
        finalized: answer(RpcStatus::Succeeded, 4),
    };
    assert!(TxStack::wait_for_lifecycle(&mut r, &own, poll));
    assert_eq!(r.finalized_at, Some(at(4)));

    let mut r = record();
    let poll = LifecycleEvent::Poll {
        processed: answer(RpcStatus::Failed("simulation".to_string()), 1),
        confirmed: answer(RpcStatus::Pending, 1),
        finalized: answer(RpcStatus::Pending, 1),
    };
    assert!(TxStack::wait_for_lifecycle(&mut r, &own, poll));
    assert_eq!(r.failure, Some(FailureKind::SimulationFailure));
}

#[test]
fn fault_runs_start_without_a_block() {
    let latest = Blockhash { bytes: [8; 32] };
    assert_eq!(attempt_blockhash(true, 0, latest).bytes, [0; 32]);
    assert_eq!(attempt_blockhash(true, 1, latest), latest);
    assert_eq!(attempt_blockhash(false, 0, latest), latest);
}

#[test]
fn expired_blockhashes_are_replaced_once() {
    let expired = Some(FailureKind::ExpiredBlockhash);
    assert_eq!(next_attempt(expired, 0), Some(1));
    assert_eq!(next_attempt(expired, 1), None);
    assert_eq!(next_attempt(expired, u32::MAX), None);
    assert_eq!(next_attempt(None, 0), None);
    assert_eq!(next_attempt(Some(FailureKind::FeeTooLow), 0), None);
}

#[test]
fn decisions_about_another_attempt_are_noted() {
    let mut r = record();
    assert!(r.agent_decision.is_none());
    assert_eq!(decide_next_attempt(&mut r), None);
    assert!(r.agent_decision.is_none());

    r.tip_lamports = 77;
    r.fail(FailureKind::ExpiredBlockhash, "blockhash not found".to_string());
    assert_eq!(decide_next_attempt(&mut r), Some(1));
    let again = r.agent_decision.clone().unwrap();
    assert_eq!(again.action, OperationalAction::Retry);
    assert!(again.refresh_blockhash);
    assert_eq!(again.tip_lamports, 77);
    assert_eq!(
        again.reason,
        "The blockhash expired; the transaction is built and signed again with the latest one."
    );
    r.add_stage(CommitmentStage::Processed, Some(5), None);
    assert_eq!(r.agent_decision.as_ref().unwrap().action, OperationalAction::Retry);

    r.attempt = 1;
    assert_eq!(decide_next_attempt(&mut r), None);
    let stopped = r.agent_decision.unwrap();
    assert_eq!(stopped.action, OperationalAction::Abandon);
    assert!(!stopped.refresh_blockhash);
    assert_eq!(stopped.source, "stack");
}

#[test]
fn built_transactions_are_submitted() {
    for secret in [1u8, 2, 3] {
        let built = TransactionFactory::new(Pubkey { bytes: [5; 32] }, 1)
            .build(&Keypair { secret: [secret; 32] }, Blockhash { bytes: [secret; 32] }, 1_000)
            .unwrap();
        assert_eq!(built.transaction.blockhash().bytes, [secret; 32]);
        assert!(built.transaction.is_sane());
        assert!(built.transaction.verifies());
        let text = encode_signed_transaction(&built.transaction).unwrap();
        let read = decode_signed_transaction(&text, SignedTransactionEncoding::Base64, 1).unwrap();
        assert_eq!(read.transaction.to_bytes(), built.transaction.to_bytes());
    }
}

#[test]
fn encoded_transactions_are_read_back() {
    let built = TransactionFactory::new(Pubkey { bytes: [5; 32] }, 1)
        .build(&Keypair { secret: [9; 32] }, Blockhash { bytes: [7; 32] }, 1_000)
        .unwrap();
    let wire = built.transaction.to_bytes();
    let base64 = encode_signed_transaction(&built.transaction).unwrap();
    assert_eq!(
        base64,
        base64::Engine::encode(&base64::engine::general_purpose::STANDARD, &wire)
    );
    let base58 = bs58::encode(&wire).into_string();
    for (text, encoding) in [
        (base64, SignedTransactionEncoding::Base64),
        (base58, SignedTransactionEncoding::Base58),
    ] {
        for padded in [text.clone(), format!(" \t{text}\r\n"), format!("\u{3000}{text}")] {
            let read = decode_signed_transaction(&padded, encoding, 6).unwrap();
            assert_eq!(read.transaction.to_bytes(), wire);
            assert_eq!(read.blockhash.bytes, [7; 32]);
            assert_eq!(read.signature.bytes, built.signature.bytes);
            assert_eq!(read.tip_lamports, 6);
        }
    }
    let mut broken = wire.clone();
    broken[1] ^= 1;
    let broken = SignedTransaction::from_bytes(&broken).unwrap();
    let text = encode_signed_transaction(&broken).unwrap();
    assert_eq!(
        decode_signed_transaction(&text, SignedTransactionEncoding::Base64, 6).err(),
        Some(SubmitError::Unverified)
    );
}

#[test]
fn subscriptions_ask_for_what_is_needed() {
    let slots = Geyser::new_geyser_slot_subscription();
    assert_eq!(slots.commitment, CommitmentLevel::Confirmed);
    assert_eq!(slots.blocks_meta, vec!["BlockHash".to_string()]);
    assert_eq!(slots.slots[0].name, "Slots");
    assert_eq!(slots.slots[0].filter_by_commitment, Some(true));
    let own = Signature { bytes: [2; 64] };
    let status = Geyser::new_geyser_signature_status_subscription(&own);
    assert_eq!(status.commitment, CommitmentLevel::Processed);
    assert_eq!(status.transactions_status[0].name, "SignatureStatus");
    assert_eq!(status.transactions_status[0].vote, Some(false));
    assert_eq!(status.transactions_status[0].failed, Some(true));
    assert_eq!(
        status.transactions_status[0].signature,
        Some(solana_sdk::signature::Signature::from([2u8; 64]).to_string())
    );
}

#[test]
fn connections_are_restored() {
    let request = Geyser::new_geyser_slot_subscription();
    let mut g = Geyser::start(&request);
    assert_eq!(g.begin(), 0);
    assert_eq!(g.from_slot, None);
    g.on_update(Update::Slot { slot: 70 });
    g.ended();
    assert_eq!(g.begin(), 1);
    assert_eq!(g.from_slot, Some(70));
    for pause in [2, 4, 8, 16, 32, 64, 64] {
        g.failed();
        assert_eq!(g.begin(), pause);
        assert_eq!(g.from_slot, Some(70));
    }
    g.on_update(Update::Slot { slot: 71 });
    g.ended();
    assert_eq!(g.begin(), 64);
    assert_eq!(g.from_slot, Some(71));
    let mut unseen = Geyser::start(&SubscribeRequest { from_slot: Some(0), ..request });
    unseen.failed();
    assert_eq!(unseen.begin(), 1);
    assert_eq!(unseen.from_slot, None);
}

#[test]
fn updates_become_events() {
    let mut g = Geyser::start(&Geyser::new_geyser_slot_subscription());
    assert!(matches!(
        g.on_update(Update::Slot { slot: 5 }),
        Some(GeyserStream::StreamCompleteOnSlot(5))
    ));
    assert_eq!(g.last_seen_slot, 5);
    let hash = solana_sdk::hash::Hash::from([6u8; 32]).to_string();
    assert!(matches!(
        g.on_update(Update::BlockMeta { slot: 8, blockhash: hash }),
        Some(GeyserStream::BlockHash { slot: 8, hash }) if hash.bytes == [6; 32]
    ));
    assert_eq!(g.last_seen_slot, 5);
    assert!(g
        .on_update(Update::BlockMeta { slot: 8, blockhash: "no hash".to_string() })
        .is_none());
    assert!(matches!(
        g.on_update(Update::TransactionStatus {
            slot: 9,
            signature: vec![3; 64],
            error: Some("e".to_string()),
        }),
        Some(GeyserStream::TransactionStatus { slot: 9, signature, error })
            if signature.bytes == [3; 64] && error == Some("e".to_string())
    ));
    assert!(g
        .on_update(Update::TransactionStatus { slot: 9, signature: vec![3; 63], error: None })
        .is_none());
    assert!(g.on_update(Update::Ping).is_none());
    assert!(g.on_update(Update::Pong).is_none());
    assert!(g.on_update(Update::Other).is_none());
}

#[test]
fn history_is_kept_over_many_events() {
    let own = Signature { bytes: [1; 64] };
    let mut r = record();
    let answer = |status| RpcAnswer { status, at: at(9) };
    let events = vec![
        LifecycleEvent::Bundle(BundleEvent::Processed {
            bundle_id: "mine".to_string(),
            slot: 4,
            validator_identity: "v".to_string(),
        }),
        LifecycleEvent::Signature(GeyserStream::TransactionStatus {
            slot: 5,
            signature: own,
            error: None,
        }),
        LifecycleEvent::Poll {
            processed: answer(RpcStatus::Succeeded),
            confirmed: answer(RpcStatus::Succeeded),
            finalized: answer(RpcStatus::Unavailable),
        },
        LifecycleEvent::Bundle(BundleEvent::Dropped {
            bundle_id: "mine".to_string(),
            reason: "lost".to_string(),
        }),
    ];
    let mut seen = r.events.len();
    for (i, event) in events.into_iter().enumerate() {
        TxStack::wait_for_lifecycle_at(&mut r, &own, event, at(i as i64 + 1));
        assert!(r.events.len() >= seen);
        seen = r.events.len();
        assert_eq!(r.processed_at, Some(at(1)));
        assert_eq!(r.processed_slot, Some(4));
        assert_eq!(r.processed_latency_ms, Some(1_000));
    }
    assert_eq!(r.confirmed_latency_ms, Some(9_000));
    assert!(r.processed_latency_ms <= r.confirmed_latency_ms);
    assert_eq!(r.failure, Some(FailureKind::BundleFailure));
    assert!(r.is_terminal_success());
}

#[test]
fn transactions_are_judged_by_their_first_fault() {
    let one = Signature { bytes: [1; 64] };
    let list = vec![one, Signature { bytes: [2; 64] }];
    assert_eq!(judge_transaction(false, false, &vec![]), Err(SubmitError::Unsanitary));
    assert_eq!(judge_transaction(true, false, &vec![]), Err(SubmitError::Unverified));
    assert_eq!(judge_transaction(true, true, &vec![]), Err(SubmitError::Unsigned));
    assert_eq!(judge_transaction(true, true, &list), Ok(one));
    assert!(block_event(1, None).is_none());
    assert!(matches!(
        block_event(1, Some(Blockhash { bytes: [4; 32] })),
        Some(GeyserStream::BlockHash { slot: 1, hash }) if hash.bytes == [4; 32]
    ));
}
