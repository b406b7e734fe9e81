use tx_agent::jito::client::{
    default_jito_tip_address, emit_bundle_result, fetch_tip_data, needs_tls,
    retry_after_from_status, tip_accounts_with_fallback, BundleEvent, BundleOutcome, BundleResult,
    ConnectedValidator, FirstTip, JitoClient, LeaderWait, SendReply, SendStep, Tries,
};
use tx_agent::jito::interceptor::{
    answer_challenge, auth_tokens, challenge_pubkey, AuthError, AuthSession, ClientInterceptor,
    RefreshPlan, Timestamp, Token, AUTHORIZATION_HEADER,
};
use tx_agent::jito::tip::{decode_ws_tip, TipAction, TipData, TipInput, TipStream, NO_TIP};
use tx_agent::solana::{Blockhash, Keypair, Pubkey};
use tx_agent::time::UtcTime;
use tx_agent::tx_factory::TransactionFactory;

const TIP_ADDRESS: &str = "DfXygSm4jCyNCybVYYK6DwvWqjKee8pbDmJGcLWNDXjh";

fn tips() -> TipData {
    TipData {
        time: "t".to_string(),
        landed_tips_25th_percentile: 1,
        landed_tips_50th_percentile: 2,
        landed_tips_75th_percentile: 3,
        landed_tips_95th_percentile: 4,
        landed_tips_99th_percentile: 5,
        ema_landed_tips_50th_percentile: 6,
    }
}

fn key(n: u8) -> Pubkey {
    Pubkey { bytes: [n; 32] }
}

fn name(n: u8) -> String {
    solana_sdk::pubkey::Pubkey::from([n; 32]).to_string()
}

fn validator(identity: &str, slots: &[u64]) -> ConnectedValidator {
    ConnectedValidator { identity: identity.to_string(), slots: slots.to_vec() }
}

fn client(current: u64, reply: Vec<ConnectedValidator>) -> JitoClient {
    let mut client = JitoClient::new(tips(), vec![]);
    client.update_current_slot(current);
    client.refresh_leader_schedule(Some(reply));
    client
}

#[test]
fn the_default_tip_account_is_the_named_one() {
    let expected: solana_sdk::pubkey::Pubkey = TIP_ADDRESS.parse().unwrap();
    assert_eq!(default_jito_tip_address().bytes, expected.to_bytes());
    assert_eq!(JitoClient::new(tips(), vec![]).tip_account(), default_jito_tip_address());
    assert_eq!(JitoClient::new(tips(), vec![key(1), key(2)]).tip_account(), key(1));
}

#[test]
fn tip_accounts_are_read() {
    let reply = vec![name(1), "nonsense".to_string(), name(2)];
    assert_eq!(tip_accounts_with_fallback(Some(reply)), vec![key(1), key(2)]);
    assert_eq!(tip_accounts_with_fallback(Some(vec![])), vec![]);
    assert_eq!(tip_accounts_with_fallback(None), vec![default_jito_tip_address()]);
}

#[test]
fn the_schedule_holds_future_slots() {
    let c = client(
        100,
        vec![
            validator(&name(1), &[99, 100, 108]),
            validator("nonsense", &[104]),
            validator(&name(2), &[104, 108]),
        ],
    );
    assert_eq!(c.leader_schedule.len(), 3);
    assert_eq!(c.leader_schedule[&100], key(1));
    assert_eq!(c.leader_schedule[&104], key(2));
    assert_eq!(c.leader_schedule[&108], key(2));
    assert_eq!(c.next_leader_slot(), Some((100, key(1))));
    assert_eq!(c.slots_until_next_leader(), Some(0));
}

#[test]
fn the_next_leader_is_the_first_to_come() {
    let mut c = client(100, vec![validator(&name(1), &[120, 110, 130])]);
    assert_eq!(c.next_leader_slot(), Some((110, key(1))));
    assert_eq!(c.slots_until_next_leader(), Some(10));
    c.update_current_slot(111);
    assert_eq!(c.current_slot(), 111);
    assert_eq!(c.next_leader_slot(), Some((120, key(1))));
    c.update_current_slot(131);
    assert_eq!(c.next_leader_slot(), None);
    assert_eq!(c.slots_until_next_leader(), None);
    c.refresh_leader_schedule(None);
    assert_eq!(c.leader_schedule.len(), 3);
}

#[test]
fn leaders_are_waited_for() {
    let c = client(100, vec![validator(&name(1), &[110])]);
    assert_eq!(c.wait_for_leader_window(100, 10, 5), LeaderWait::Ready(110));
    assert_eq!(c.wait_for_leader_window(100, 9, 5), LeaderWait::Sleep);
    assert_eq!(c.wait_for_leader_window(95, 9, 5), LeaderWait::GiveUp);
    assert_eq!(c.wait_for_leader_window(200, 9, 0), LeaderWait::GiveUp);
    assert_eq!(c.wait_for_leader_window(0, u64::MAX, 0), LeaderWait::Ready(110));
    let none = client(100, vec![]);
    assert_eq!(none.wait_for_leader_window(100, 9, 5), LeaderWait::Refresh);
    assert_eq!(none.wait_for_leader_window(96, 9, 5), LeaderWait::Refresh);
    assert_eq!(none.wait_for_leader_window(95, 9, 5), LeaderWait::GiveUp);
    assert_eq!(none.wait_for_leader_window(100, 9, 0), LeaderWait::GiveUp);
}

#[test]
fn tips_are_taken_over() {
    let mut c = JitoClient::new(tips(), vec![]);
    let mut newer = tips();
    newer.landed_tips_25th_percentile = 77;
    c.update_tip(Some(newer));
    assert_eq!(c.tip_data().landed_tips_25th_percentile, 77);
    c.update_tip(None);
    assert_eq!(c.tip_data().landed_tips_25th_percentile, 77);
    assert_eq!(c.tip_data().time, "t");
}

#[test]
fn bundles_are_sent_unchanged_and_again() {
    let payer = Keypair { secret: [9; 32] };
    let built = TransactionFactory::new(key(5), 1)
        .build(&payer, Blockhash { bytes: [7; 32] }, 1_000)
        .unwrap();
    let c = JitoClient::new(tips(), vec![]);
    let mut send = c.send_bundle(&built.transaction);
    assert_eq!(send.packet.data, built.transaction.to_bytes());
    assert_eq!(send.packet.size, send.packet.data.len() as u64);
    assert_eq!(send.packet.addr, "");
    assert_eq!(send.packet.port, 0);
    assert_eq!(send.packet.sender_stake, 0);
    let limited = |wait: Option<&str>| SendReply::RateLimited {
        wait_ms: wait.map(|w| w.to_string()),
        status: "busy".to_string(),
    };
    assert!(matches!(send.on_reply(limited(Some("250"))), SendStep::RetryAfter(250)));
    for _ in 0..4 {
        assert!(matches!(send.on_reply(limited(None)), SendStep::RetryAfter(1_000)));
    }
    match send.on_reply(limited(None)) {
        SendStep::Failed(reason) => {
            assert_eq!(reason, "Jito rate limited send_bundle after 5 retries: busy")
        }
        other => panic!("{other:?}"),
    }
    let mut fresh = c.send_bundle(&built.transaction);
    match fresh.on_reply(SendReply::Failed { status: "no".to_string() }) {
        SendStep::Failed(reason) => assert_eq!(reason, "Jito send_bundle failed: no"),
        other => panic!("{other:?}"),
    }
    match fresh.on_reply(SendReply::Taken { uuid: "id".to_string() }) {
        SendStep::Sent(sent) => assert_eq!(sent.bundle_id, "id"),
        other => panic!("{other:?}"),
    }
}

#[test]
fn pauses_are_read_from_the_header() {
    assert_eq!(retry_after_from_status(&Some("42".to_string())), 42);
    assert_eq!(retry_after_from_status(&Some("soon".to_string())), 1_000);
    assert_eq!(retry_after_from_status(&None), 1_000);
}

#[test]
fn requests_are_tried_so_often() {
    let mut tries = Tries::start(3);
    assert_eq!(tries.next(), Some(1));
    assert_eq!(tries.next(), Some(2));
    assert_eq!(tries.next(), Some(3));
    assert_eq!(tries.next(), None);
    assert_eq!(tries.next(), None);
}

#[test]
fn reports_become_events() {
    let report = |result| emit_bundle_result(BundleResult { bundle_id: "b".to_string(), result });
    assert!(matches!(
        report(Some(BundleOutcome::Accepted { slot: 4, validator_identity: "v".to_string() })),
        BundleEvent::Accepted { bundle_id, slot: 4, validator_identity }
            if bundle_id == "b" && validator_identity == "v"
    ));
    assert!(matches!(
        report(Some(BundleOutcome::Processed { slot: 5, validator_identity: "w".to_string() })),
        BundleEvent::Processed { bundle_id, slot: 5, validator_identity }
            if bundle_id == "b" && validator_identity == "w"
    ));
    assert!(matches!(
        report(Some(BundleOutcome::Finalized)),
        BundleEvent::Finalized { bundle_id } if bundle_id == "b"
    ));
    assert!(matches!(
        report(Some(BundleOutcome::Dropped { reason: "x".to_string() })),
        BundleEvent::Dropped { reason, .. } if reason == "x"
    ));
    assert!(matches!(
        report(Some(BundleOutcome::Rejected { reason: "y".to_string() })),
        BundleEvent::Rejected { reason, .. } if reason == "y"
    ));
    assert!(matches!(
        report(None),
        BundleEvent::Rejected { reason, .. } if reason == "empty Jito bundle result"
    ));
}

#[test]
fn first_tips_are_waited_for() {
    assert_eq!(fetch_tip_data(FirstTip::Arrived(5)), Ok(Some(5)));
    assert_eq!(fetch_tip_data::<u8>(FirstTip::TimedOut), Ok(None));
    assert_eq!(
        fetch_tip_data::<u8>(FirstTip::Closed),
        Err("Jito tip stream closed before first tip")
    );
    assert!(needs_tls("https://host"));
    assert!(!needs_tls("http://host"));
}

#[test]
fn the_last_tip_of_a_message_counts() {
    assert_eq!(decode_ws_tip(vec![1, 2, 3]), Ok(3));
    assert_eq!(decode_ws_tip::<u8>(vec![]), Err(NO_TIP));
}

#[test]
fn the_tip_stream_gives_up_after_failures_in_a_row() {
    let mut stream = TipStream::start();
    for _ in 0..4 {
        assert_eq!(stream.connect_failed(), Some(2));
    }
    stream.connected();
    for _ in 0..4 {
        assert_eq!(stream.connect_failed(), Some(2));
    }
    assert_eq!(stream.connect_failed(), None);
}

#[test]
fn the_tip_stream_reacts() {
    let stream = TipStream::start();
    for (input, action) in [
        (TipInput::Tip, TipAction::Emit),
        (TipInput::Undecodable, TipAction::Ignore),
        (TipInput::Ping, TipAction::Pong),
        (TipInput::Close, TipAction::Reconnect),
        (TipInput::Other, TipAction::Ignore),
        (TipInput::Error, TipAction::Reconnect),
        (TipInput::End, TipAction::Reconnect),
        (TipInput::Quiet, TipAction::Fetch),
        (TipInput::PingDue, TipAction::SendPing),
    ] {
        assert_eq!(stream.react(input), action);
    }
}

#[test]
fn challenges_are_signed() {
    let keypair = Keypair { secret: [4; 32] };
    let pair = solana_sdk::signature::Keypair::new_from_array([4; 32]);
    let pubkey = solana_sdk::signer::Signer::pubkey(&pair);
    let answer = answer_challenge(&keypair, "ch\u{e4}llenge");
    assert_eq!(answer.challenge, format!("{pubkey}-ch\u{e4}llenge"));
    assert_eq!(answer.client_pubkey, pubkey.to_bytes().to_vec());
    assert_eq!(challenge_pubkey(&keypair), pubkey.to_bytes().to_vec());
    let signature =
        solana_sdk::signature::Signature::try_from(answer.signed_challenge.as_slice()).unwrap();
    assert!(signature.verify(&pubkey.to_bytes(), answer.challenge.as_bytes()));
}

fn token(value: &str, expires_at: Option<i64>) -> Token {
    Token {
        value: value.to_string(),
        expires_at: expires_at.map(|seconds| Timestamp { seconds, nanos: 0 }),
    }
}

#[test]
fn both_tokens_are_needed() {
    let pair = auth_tokens(Some(token("a", None)), Some(token("r", None))).unwrap();
    assert_eq!(pair.0.value, "a");
    assert_eq!(pair.1.value, "r");
    let err = auth_tokens(None, Some(token("r", None))).err().unwrap();
    assert_eq!(err, AuthError::MissingAccessToken);
    assert_eq!(err.message(), "Jito auth response missing access token");
    let err = auth_tokens(Some(token("a", None)), None).err().unwrap();
    assert_eq!(err, AuthError::MissingRefreshToken);
    assert_eq!(err.message(), "Jito auth response missing refresh token");
}

#[test]
fn tokens_are_renewed_in_time() {
    let now = UtcTime { secs: 1_000, nanos: 0 };
    let session = |access: i64, refresh: Option<i64>| {
        AuthSession::start(&token("a", Some(access)), token("r", refresh)).unwrap()
    };
    assert_eq!(session(1_300, Some(1_300)).plan(now), RefreshPlan::Sleep);
    assert_eq!(session(1_299, Some(1_300)).plan(now), RefreshPlan::RefreshAccess);
    assert_eq!(session(1_300, Some(1_299)).plan(now), RefreshPlan::Reauthenticate);
    assert_eq!(session(0, Some(0)).plan(now), RefreshPlan::Reauthenticate);
    assert_eq!(session(9_999, None).plan(now), RefreshPlan::Reauthenticate);
    assert!(AuthSession::start(&token("a", None), token("r", None)).is_none());

    let mut s = session(1_299, Some(5_000));
    s.refreshed(None);
    assert_eq!(s.bearer, "a");
    s.refreshed(Some(token("b", None)));
    assert_eq!(s.bearer, "b");
    assert_eq!(s.plan(now), RefreshPlan::RefreshAccess);
    s.refreshed(Some(token("c", Some(9_000))));
    assert_eq!(s.plan(now), RefreshPlan::Sleep);
    s.reauthenticated(token("d", None), token("r2", Some(1)));
    assert_eq!(s.bearer, "d");
    assert_eq!(s.access_expires_at.seconds, 9_000);
    assert_eq!(s.plan(now), RefreshPlan::Reauthenticate);
}

#[test]
fn requests_carry_the_token() {
    assert_eq!(AUTHORIZATION_HEADER, "authorization");
    let carried = ClientInterceptor::new(&token("abc", None));
    assert_eq!(carried.call(), Ok(Some("Bearer abc".to_string())));
    assert_eq!(ClientInterceptor::new(&token("", None)).call(), Ok(None));
    for good in ["a\tb", "\u{e4}", "~ "] {
        let header = format!("Bearer {good}");
        assert_eq!(ClientInterceptor::new(&token(good, None)).call(), Ok(Some(header)));
    }
    for bad in ["a\nb", "\u{7f}", "\0"] {
        assert_eq!(
            ClientInterceptor::new(&token(bad, None)).call(),
            Err("invalid Jito auth token")
        );
    }
}
