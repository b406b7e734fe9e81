use tx_agent::config::{parse_mode, AgentLimits, Config, Environment, Mode};
use tx_agent::server::parse_bind_addr;
use tx_agent::solana::Keypair;

fn env(vars: &[(&str, &str)]) -> Environment {
    Environment { vars: vars.iter().map(|(k, v)| (k.to_string(), v.to_string())).collect() }
}

fn args(words: &[&str]) -> Vec<String> {
    words.iter().map(|w| w.to_string()).collect()
}

#[test]
fn modes_are_read() {
    let none = env(&[]);
    assert_eq!(parse_mode(&args(&[]), &none).unwrap(), Mode::Run);
    assert_eq!(parse_mode(&args(&["run", "x"]), &none).unwrap(), Mode::Run);
    assert_eq!(parse_mode(&args(&["submit"]), &none).unwrap(), Mode::Submit { count: 10 });
    assert_eq!(
        parse_mode(&args(&["submit"]), &env(&[("SUBMIT_COUNT", "4")])).unwrap(),
        Mode::Submit { count: 4 }
    );
    assert_eq!(
        parse_mode(&args(&["submit", "--count", "3", "-n", "7"]), &none).unwrap(),
        Mode::Submit { count: 7 }
    );
    assert_eq!(
        parse_mode(&args(&["fault", "expired-blockhash"]), &none).unwrap(),
        Mode::FaultExpiredBlockhash
    );
    assert_eq!(parse_mode(&args(&["print-log"]), &none).unwrap(), Mode::PrintLog);
}

#[test]
fn bad_commands_are_refused() {
    let none = env(&[]);
    for (words, message) in [
        (vec!["submit", "--count"], "--count requires a value"),
        (vec!["submit", "-n", "many"], "invalid --count value"),
        (vec!["submit", "--fast"], "unknown submit argument: --fast"),
        (vec!["fault"], "usage: tx_agent fault expired-blockhash"),
        (vec!["fault", "x"], "usage: tx_agent fault expired-blockhash"),
        (
            vec!["dance"],
            "unknown command dance; use run, submit --count N, fault expired-blockhash, or print-log",
        ),
    ] {
        let err = parse_mode(&args(&words), &none).err().unwrap();
        assert_eq!(err.message(), message);
        let err = Config::from_env_and_args(&args(&words), &none).err().unwrap();
        assert_eq!(err.message(), message);
    }
}

#[test]
fn settings_have_defaults() {
    let c = Config::from_env_and_args(&args(&[]), &env(&[])).unwrap();
    assert_eq!(c.mode, Mode::Run);
    assert_eq!(c.submit_count, 1);
    assert_eq!(c.yellowstone_endpoint, "https://yellowstone.eu.fluxrpc.com/");
    assert_eq!(c.yellowstone_token, None);
    assert_eq!(c.solana_rpc_url, "https://api.mainnet-beta.solana.com");
    assert_eq!(c.payer_keypair_path, None);
    assert_eq!(c.jito_auth_keypair_path, None);
    assert_eq!(c.jito_block_engine_url, "https://frankfurt.mainnet.block-engine.jito.wtf");
    assert_eq!(c.lifecycle_log_path, "lifecycle.log.jsonl");
    assert_eq!(c.leader_lookahead_slots, 3);
    assert_eq!(c.tip_floor_lamports, 1_000);
    assert_eq!(c.self_transfer_lamports, 1);
    assert_eq!(c.confirmation_timeout_secs, 90);
    assert_eq!(c.openai_api_key, None);
    assert_eq!(c.openai_model, "gpt-4.1-mini");
    assert_eq!(c.max_agent_tip_lamports, u64::MAX);
    assert_eq!(c.max_agent_retries, 0);
    assert_eq!(c.max_agent_wait_slots, 3);
}

#[test]
fn the_environment_limits_the_agent() {
    let e = env(&[
        ("MAX_AGENT_TIP_LAMPORTS", "7000"),
        ("MAX_AGENT_RETRIES", "4294967295"),
        ("MAX_AGENT_WAIT_SLOTS", "12"),
    ]);
    let expected = AgentLimits {
        max_agent_tip_lamports: 7_000,
        max_agent_retries: u32::MAX,
        max_agent_wait_slots: 12,
    };
    assert_eq!(AgentLimits::from_env(&e), expected);
    let c = Config::from_env_and_args(&args(&[]), &e).unwrap();
    assert_eq!(c.max_agent_tip_lamports, 7_000);
    assert_eq!(c.max_agent_retries, u32::MAX);
    assert_eq!(c.max_agent_wait_slots, 12);
    let unreadable = env(&[("MAX_AGENT_RETRIES", "4294967296"), ("MAX_AGENT_WAIT_SLOTS", "")]);
    let limits = AgentLimits::from_env(&unreadable);
    assert_eq!(limits.max_agent_retries, 0);
    assert_eq!(limits.max_agent_wait_slots, 3);
}

#[test]
fn the_environment_sets_them() {
    let e = env(&[
        ("YELLOWSTONE_ENDPOINT", ""),
        ("YELLOWSTONE_TOKEN", ""),
        ("SOLANA_RPC_URL", "rpc"),
        ("PAYER_KEYPAIR", "payer.json"),
        ("JITO_AUTH_KEYPAIR", ""),
        ("LIFECYCLE_LOG", "log"),
        ("SUBMIT_COUNT", "6"),
        ("LEADER_LOOKAHEAD_SLOTS", "x"),
        ("TIP_FLOOR_LAMPORTS", "5"),
        ("CONFIRMATION_TIMEOUT_SECS", "7"),
        ("OPENAI_API_KEY", "key"),
    ]);
    let c = Config::from_env_and_args(&args(&["print-log"]), &e).unwrap();
    assert_eq!(c.yellowstone_endpoint, "");
    assert_eq!(c.yellowstone_token, None);
    assert_eq!(c.solana_rpc_url, "rpc");
    assert_eq!(c.submit_count, 6);
    assert_eq!(c.leader_lookahead_slots, 3);
    assert_eq!(c.tip_floor_lamports, 5);
    assert_eq!(c.confirmation_timeout_secs, 7);
    assert_eq!(c.openai_api_key, Some("key".to_string()));
    let counted =
        Config::from_env_and_args(&args(&["submit", "-n", "2"]), &e).unwrap();
    assert_eq!(counted.submit_count, 2);
}

#[test]
fn key_pairs_are_chosen() {
    let none = Config::from_env_and_args(&args(&[]), &env(&[])).unwrap();
    let message = "PAYER_KEYPAIR is required for run/submit/fault modes";
    let key = Keypair { secret: [3; 32] };
    assert_eq!(none.payer_keypair().err().unwrap().message(), message);
    assert_eq!(none.jito_auth_keypair().err().unwrap().message(), message);
    assert_eq!(none.payer_pubkey(&key).err().unwrap().message(), message);

    let payer = env(&[("PAYER_KEYPAIR", "p")]);
    let c = Config::from_env_and_args(&args(&[]), &payer).unwrap();
    assert_eq!(c.payer_keypair().unwrap(), "p");
    assert_eq!(c.jito_auth_keypair().unwrap(), ("p".to_string(), true));
    let expected = solana_sdk::signature::Keypair::new_from_array([3; 32]);
    assert_eq!(
        c.payer_pubkey(&key).unwrap().bytes,
        solana_sdk::signer::Signer::pubkey(&expected).to_bytes()
    );

    let both = env(&[("PAYER_KEYPAIR", "p"), ("JITO_AUTH_KEYPAIR", "j")]);
    let c = Config::from_env_and_args(&args(&[]), &both).unwrap();
    assert_eq!(c.jito_auth_keypair().unwrap(), ("j".to_string(), false));
}

#[test]
fn the_server_listens_where_it_is_told() {
    assert_eq!(parse_bind_addr(&args(&[]), None).unwrap(), "127.0.0.1:8080");
    assert_eq!(parse_bind_addr(&args(&[]), Some("a:1".to_string())).unwrap(), "a:1");
    assert_eq!(
        parse_bind_addr(&args(&["--bind", "b:2", "--bind", "c:3"]), Some("a:1".to_string()))
            .unwrap(),
        "c:3"
    );
    assert_eq!(
        parse_bind_addr(&args(&["--bind"]), None).err().unwrap().message(),
        "--bind requires a value"
    );
    assert_eq!(
        parse_bind_addr(&args(&["x"]), None).err().unwrap().message(),
        "unknown agent_mcp argument: x"
    );
}
