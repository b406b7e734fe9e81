//! The programs that a report starts.

use crate::config;
use crate::host;
use crate::report::config::ReportConfig;
use crate::report::transactions::GeneratedTransaction;
use crate::report::types::{AgentRunReport, SubmissionReport};
use crate::server;
use crate::stack::SignedTransactionEncoding;
use crate::text;
use crate::text::decimal_text;
use crate::time;
use crate::time::{delta_ms, UtcTime};
use vstd::prelude::*;

verus! {

/// A program to start, with its arguments and what is set in its environment.
#[derive(Debug)]
pub struct CommandSpec {
    pub program: String,
    pub args: Vec<String>,
    pub env: Vec<(String, String)>,
}

/// What the environment of both programs sets, but for one variable of each.
pub open spec fn shared_env(
    config: ReportConfig,
    own: (Seq<char>, Seq<char>),
) -> Seq<(Seq<char>, Seq<char>)> {
    let all = seq![
        ("YELLOWSTONE_ENDPOINT"@, config.yellowstone_endpoint@),
        ("SOLANA_RPC_URL"@, config.solana_rpc_url@),
        ("JITO_AUTH_KEYPAIR"@, config.jito_auth_keypair_path@),
        ("LIFECYCLE_LOG"@, config.lifecycle_log_path@),
        own,
        ("MAX_AGENT_RETRIES"@, "0"@),
        ("CONFIRMATION_TIMEOUT_SECS"@, text::decimal(config.confirmation_timeout_secs as nat)),
        ("LEADER_LOOKAHEAD_SLOTS"@, text::decimal(config.leader_lookahead_slots as nat)),
        ("TIP_FLOOR_LAMPORTS"@, text::decimal(config.tip_lamports as nat)),
        ("MAX_AGENT_WAIT_SLOTS"@, text::decimal(config.max_agent_wait_slots as nat)),
    ];
    match config.yellowstone_token {
        Some(token) => all.push(("YELLOWSTONE_TOKEN"@, token@)),
        None => all,
    }
}

/// Where the server of a report is reached.
pub open spec fn url_of(config: ReportConfig) -> Seq<char> {
    "http://"@ + config.mcp_bind_addr@ + "/mcp"@
}

/// The arguments that submit a transaction through the host.
pub open spec fn host_args_of(config: ReportConfig, tx: GeneratedTransaction) -> Seq<Seq<char>> {
    seq![
        "--mcp-url"@,
        url_of(config),
        "--request-id"@,
        tx.request_id@,
        "--encoding"@,
        tx.encoding@,
        "--transaction-file"@,
        tx.transaction_file@,
        "--observed-tip-lamports"@,
        text::decimal(tx.tip_lamports as nat),
    ]
}

/// A variable to set.
fn var(name: &str, value: &str) -> (pair: (String, String))
    ensures
        pair.0@ == name@,
        pair.1@ == value@,
{
    (name.to_owned(), value.to_owned())
}

/// What the environment of both programs sets.
fn environment(config: &ReportConfig, own: (String, String)) -> (env: Vec<(String, String)>)
    ensures
        config::var_views(env@) == shared_env(*config, (own.0@, own.1@)),
{
    let mut env: Vec<(String, String)> = Vec::new();
    env.push(var("YELLOWSTONE_ENDPOINT", config.yellowstone_endpoint.as_str()));
    env.push(var("SOLANA_RPC_URL", config.solana_rpc_url.as_str()));
    env.push(var("JITO_AUTH_KEYPAIR", config.jito_auth_keypair_path.as_str()));
    env.push(var("LIFECYCLE_LOG", config.lifecycle_log_path.as_str()));
    env.push(own);
    env.push(var("MAX_AGENT_RETRIES", "0"));
    env.push(
        var(
            "CONFIRMATION_TIMEOUT_SECS",
            decimal_text(config.confirmation_timeout_secs).as_str(),
        ),
    );
    env.push(
        var("LEADER_LOOKAHEAD_SLOTS", decimal_text(config.leader_lookahead_slots).as_str()),
    );
    env.push(var("TIP_FLOOR_LAMPORTS", decimal_text(config.tip_lamports).as_str()));
    env.push(var("MAX_AGENT_WAIT_SLOTS", decimal_text(config.max_agent_wait_slots).as_str()));
    match &config.yellowstone_token {
        Some(token) => {
            env.push(var("YELLOWSTONE_TOKEN", token.as_str()));
        },
        None => {},
    }
    assert(config::var_views(env@) =~= shared_env(*config, (own.0@, own.1@)));
    env
}

/// How the server of a report is started.
pub fn start_agent(config: &ReportConfig) -> (command: CommandSpec)
    ensures
        command.program@ == "agent_mcp"@,
        text::texts(command.args@) == seq!["--bind"@, config.mcp_bind_addr@],
        config::var_views(command.env@) == shared_env(
            *config,
            ("MCP_BIND_ADDR"@, config.mcp_bind_addr@),
        ),
{
    let mut args: Vec<String> = Vec::new();
    args.push("--bind".to_owned());
    args.push(config.mcp_bind_addr.clone());
    assert(text::texts(args@) =~= seq!["--bind"@, config.mcp_bind_addr@]);
    let env = environment(config, var("MCP_BIND_ADDR", config.mcp_bind_addr.as_str()));
    CommandSpec { program: "agent_mcp".to_owned(), args, env }
}

/// How the host that submits a transaction is started.
pub fn run_agent_host(config: &ReportConfig, tx: &GeneratedTransaction) -> (command: CommandSpec)
    ensures
        command.program@ == "agent_host"@,
        text::texts(command.args@) == host_args_of(*config, *tx),
        config::var_views(command.env@) == shared_env(
            *config,
            ("MCP_SERVER_URL"@, url_of(*config)),
        ),
{
    let url = config.mcp_url();
    let mut args: Vec<String> = Vec::new();
    args.push("--mcp-url".to_owned());
    args.push(url.clone());
    args.push("--request-id".to_owned());
    args.push(tx.request_id.clone());
    args.push("--encoding".to_owned());
    args.push(tx.encoding.clone());
    args.push("--transaction-file".to_owned());
    args.push(tx.transaction_file.clone());
    args.push("--observed-tip-lamports".to_owned());
    args.push(decimal_text(tx.tip_lamports));
    assert(text::texts(args@) =~= host_args_of(*config, *tx));
    let env = environment(config, var("MCP_SERVER_URL", url.as_str()));
    CommandSpec { program: "agent_host".to_owned(), args, env }
}

/// What came of the host.
#[derive(Debug)]
pub struct HostOutput {
    pub exit_code: Option<i32>,
    pub success: bool,
    pub stdout: String,
    pub stderr: String,
}

/// Whether a report tells of a submission that ran from one moment to another.
pub open spec fn is_report_of(
    report: SubmissionReport,
    transaction: GeneratedTransaction,
    started_at: UtcTime,
    finished_at: UtcTime,
    output: HostOutput,
) -> bool {
    &&& report.request_id@ == transaction.request_id@
    &&& report.transaction == transaction
    &&& report.agent == (AgentRunReport {
        started_at,
        finished_at,
        duration_ms: time::elapsed_ms(started_at, finished_at) as u128,
        exit_code: output.exit_code,
        success: output.success,
        stdout: output.stdout,
        stderr: output.stderr,
    })
    &&& report.agent.duration_ms == time::elapsed_ms(started_at, finished_at)
    &&& report.lifecycle is None
    &&& report.validation is None
}

/// The report on a submission that ran from one moment to another.
pub fn submission_report(
    transaction: GeneratedTransaction,
    started_at: UtcTime,
    finished_at: UtcTime,
    output: HostOutput,
) -> (report: SubmissionReport)
    ensures
        is_report_of(report, transaction, started_at, finished_at, output),
{
    let duration_ms: u128 = delta_ms(started_at, finished_at);
    SubmissionReport {
        request_id: transaction.request_id.clone(),
        transaction,
        agent: AgentRunReport {
            started_at,
            finished_at,
            duration_ms,
            exit_code: output.exit_code,
            success: output.success,
            stdout: output.stdout,
            stderr: output.stderr,
        },
        lifecycle: None,
        validation: None,
    }
}

/// The host understands the arguments that a report starts it with: it submits
/// the transaction of the file under the request's name, through the report's
/// server, with the tip that the transaction carries.
pub proof fn host_understands_the_report(
    config: ReportConfig,
    tx: GeneratedTransaction,
    defaults: host::HostSettingsView,
)
    requires
        tx.encoding@ == "base64"@,
        defaults.encoded_transaction is None,
    ensures
        host::host_options(defaults, host_args_of(config, tx)) == Ok::<
            host::HostSettingsView,
            host::HostErrorView,
        >(
            host::HostSettingsView {
                request_id: tx.request_id@,
                mcp_url: url_of(config),
                encoded_transaction: None,
                transaction_file: Some(tx.transaction_file@),
                encoding: SignedTransactionEncoding::Base64,
                observed_tip_lamports: Some(tx.tip_lamports),
            },
        ),
{
    reveal_strlit("--mcp-url");
    reveal_strlit("--request-id");
    reveal_strlit("--encoding");
    reveal_strlit("--transaction-file");
    reveal_strlit("--encoded-transaction");
    reveal_strlit("--observed-tip-lamports");
    let tip = text::decimal(tx.tip_lamports as nat);
    text::decimal_reads_back(tx.tip_lamports as nat, u64::MAX as nat);
    let args = host_args_of(config, tx);
    let a1 = args.skip(2);
    let a2 = a1.skip(2);
    let a3 = a2.skip(2);
    let a4 = a3.skip(2);
    let a5 = a4.skip(2);
    assert(args[0] == "--mcp-url"@ && args[1] == url_of(config));
    assert(a1[0] == "--request-id"@ && a1[1] == tx.request_id@);
    assert(a2[0] == "--encoding"@ && a2[1] == tx.encoding@);
    assert(a3[0] == "--transaction-file"@ && a3[1] == tx.transaction_file@);
    assert(a4[0] == "--observed-tip-lamports"@ && a4[1] == tip);
    assert(a5.len() == 0);
    assert("--mcp-url"@.len() == 9);
    assert("--request-id"@.len() == 12);
    assert("--encoding"@.len() == 10);
    assert("--transaction-file"@.len() == 18);
    assert("--encoded-transaction"@.len() == 21);
    assert("--observed-tip-lamports"@.len() == 23);
    let s1 = host::HostSettingsView { mcp_url: url_of(config), ..defaults };
    let s2 = host::HostSettingsView { request_id: tx.request_id@, ..s1 };
    let s3 = host::HostSettingsView { encoding: SignedTransactionEncoding::Base64, ..s2 };
    let s4 = host::HostSettingsView { transaction_file: Some(tx.transaction_file@), ..s3 };
    let s5 = host::HostSettingsView { observed_tip_lamports: Some(tx.tip_lamports), ..s4 };
    assert(host::host_options(s5, a5) == Ok::<host::HostSettingsView, host::HostErrorView>(s5));
    assert(host::host_options(s4, a4) == host::host_options(s5, a5));
    assert(host::host_options(s3, a3) == host::host_options(s4, a4));
    assert(host::host_options(s2, a2) == host::host_options(s3, a3));
    assert(host::host_options(s1, a1) == host::host_options(s2, a2));
    assert(host::host_options(defaults, args) == host::host_options(s1, a1));
}

/// The server understands the arguments that a report starts it with: it listens
/// where the report looks for it.
pub proof fn server_understands_the_report(config: ReportConfig, bind: Seq<char>)
    ensures
        server::bind_of(seq!["--bind"@, config.mcp_bind_addr@], bind) == Ok::<
            Seq<char>,
            server::BindErrorView,
        >(config.mcp_bind_addr@),
{
    let args = seq!["--bind"@, config.mcp_bind_addr@];
    assert(args.skip(2).len() == 0);
    assert(server::bind_of(args.skip(2), args[1]) == Ok::<Seq<char>, server::BindErrorView>(
        args[1],
    ));
}

/// A variable that is set once is found by its name.
proof fn found_at(env: Seq<(Seq<char>, Seq<char>)>, k: int, name: Seq<char>)
    requires
        0 <= k < env.len(),
        env[k].0 == name,
        forall|i: int| 0 <= i < k ==> (#[trigger] env[i]).0 != name,
    ensures
        config::lookup(env, name) == Some(env[k].1),
{
    config::variables_are_found_by_name(env.take(k), name, env[k].1, env.skip(k + 1));
    assert(env.take(k) + seq![(name, env[k].1)] + env.skip(k + 1) =~= env);
}

/// Both programs find what the report was set to: its nodes, its keys, its log,
/// its limits and its tip as the floor, and that nothing is tried twice.
#[verifier::rlimit(40)]
pub proof fn programs_find_the_settings(config: ReportConfig, own: (Seq<char>, Seq<char>))
    requires
        own.0 == "MCP_BIND_ADDR"@ || own.0 == "MCP_SERVER_URL"@,
    ensures
        ({
            let env = shared_env(config, own);
            &&& config::lookup(env, "YELLOWSTONE_ENDPOINT"@) == Some(config.yellowstone_endpoint@)
            &&& config::lookup(env, "SOLANA_RPC_URL"@) == Some(config.solana_rpc_url@)
            &&& config::lookup(env, "JITO_AUTH_KEYPAIR"@) == Some(config.jito_auth_keypair_path@)
            &&& config::lookup(env, "LIFECYCLE_LOG"@) == Some(config.lifecycle_log_path@)
            &&& config::lookup(env, "MAX_AGENT_RETRIES"@) == Some("0"@)
            &&& config::lookup(env, "CONFIRMATION_TIMEOUT_SECS"@) == Some(text::decimal(config.confirmation_timeout_secs as nat))
            &&& config::lookup(env, "LEADER_LOOKAHEAD_SLOTS"@) == Some(text::decimal(config.leader_lookahead_slots as nat))
            &&& config::lookup(env, "TIP_FLOOR_LAMPORTS"@) == Some(text::decimal(config.tip_lamports as nat))
            &&& config::lookup(env, "MAX_AGENT_WAIT_SLOTS"@) == Some(text::decimal(config.max_agent_wait_slots as nat))
            &&& config::lookup(env, own.0) == Some(own.1)
            &&& config::lookup(env, "YELLOWSTONE_TOKEN"@) == text::opt_text(
                config.yellowstone_token,
            )
        }),
{
    let env = shared_env(config, own);
    reveal_strlit("YELLOWSTONE_ENDPOINT");
    reveal_strlit("SOLANA_RPC_URL");
    reveal_strlit("JITO_AUTH_KEYPAIR");
    reveal_strlit("LIFECYCLE_LOG");
    reveal_strlit("MAX_AGENT_RETRIES");
    reveal_strlit("CONFIRMATION_TIMEOUT_SECS");
    reveal_strlit("LEADER_LOOKAHEAD_SLOTS");
    reveal_strlit("TIP_FLOOR_LAMPORTS");
    reveal_strlit("MAX_AGENT_WAIT_SLOTS");
    reveal_strlit("YELLOWSTONE_TOKEN");
    reveal_strlit("MCP_BIND_ADDR");
    reveal_strlit("MCP_SERVER_URL");
    assert("YELLOWSTONE_ENDPOINT"@.len() == 20 && "YELLOWSTONE_ENDPOINT"@[0] == 'Y');
    assert("SOLANA_RPC_URL"@.len() == 14 && "SOLANA_RPC_URL"@[0] == 'S');
    assert("JITO_AUTH_KEYPAIR"@.len() == 17 && "JITO_AUTH_KEYPAIR"@[0] == 'J');
    assert("LIFECYCLE_LOG"@.len() == 13 && "LIFECYCLE_LOG"@[0] == 'L');
    assert("MAX_AGENT_RETRIES"@.len() == 17 && "MAX_AGENT_RETRIES"@[0] == 'M');
    assert("CONFIRMATION_TIMEOUT_SECS"@.len() == 25 && "CONFIRMATION_TIMEOUT_SECS"@[0] == 'C');
    assert("LEADER_LOOKAHEAD_SLOTS"@.len() == 22 && "LEADER_LOOKAHEAD_SLOTS"@[0] == 'L');
    assert("TIP_FLOOR_LAMPORTS"@.len() == 18 && "TIP_FLOOR_LAMPORTS"@[0] == 'T');
    assert("MAX_AGENT_WAIT_SLOTS"@.len() == 20 && "MAX_AGENT_WAIT_SLOTS"@[0] == 'M');
    assert("YELLOWSTONE_TOKEN"@.len() == 17 && "YELLOWSTONE_TOKEN"@[0] == 'Y');
    assert("MCP_BIND_ADDR"@.len() == 13 && "MCP_BIND_ADDR"@[0] == 'M');
    assert("MCP_SERVER_URL"@.len() == 14 && "MCP_SERVER_URL"@[0] == 'M');
    found_at(env, 0, "YELLOWSTONE_ENDPOINT"@);
    found_at(env, 1, "SOLANA_RPC_URL"@);
    found_at(env, 2, "JITO_AUTH_KEYPAIR"@);
    found_at(env, 3, "LIFECYCLE_LOG"@);
    found_at(env, 4, own.0);
    found_at(env, 5, "MAX_AGENT_RETRIES"@);
    found_at(env, 6, "CONFIRMATION_TIMEOUT_SECS"@);
    found_at(env, 7, "LEADER_LOOKAHEAD_SLOTS"@);
    found_at(env, 8, "TIP_FLOOR_LAMPORTS"@);
    found_at(env, 9, "MAX_AGENT_WAIT_SLOTS"@);
    match config.yellowstone_token {
        Some(token) => {
            found_at(env, 10, "YELLOWSTONE_TOKEN"@);
        },
        None => {
            config::variables_are_found_by_name(env, "YELLOWSTONE_TOKEN"@, own.1, Seq::empty());
        },
    }
}

/// The server is reached over plain transport at the address that it listens on,
/// under its fixed path.
pub proof fn servers_are_reached_where_they_listen(config: ReportConfig)
    ensures
        url_of(config) == "http://"@ + config.mcp_bind_addr@ + "/mcp"@,
{
}

/// A report keeps what came of the host and names the transaction; no record has
/// been looked at yet.
pub proof fn reports_keep_what_came_of_the_host(
    report: SubmissionReport,
    transaction: GeneratedTransaction,
    started_at: UtcTime,
    finished_at: UtcTime,
    output: HostOutput,
)
    requires
        is_report_of(report, transaction, started_at, finished_at, output),
    ensures
        report.request_id@ == report.transaction.request_id@,
        report.transaction.signature@ == transaction.signature@,
        report.agent.started_at == started_at,
        report.agent.finished_at == finished_at,
        report.agent.exit_code == output.exit_code,
        report.agent.success <==> output.success,
        report.agent.stdout@ == output.stdout@,
        report.agent.stderr@ == output.stderr@,
        report.lifecycle is None && report.validation is None,
{
}

} // verus!
