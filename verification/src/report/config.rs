//! The settings of a report.

use crate::config;
use crate::config::Environment;
use crate::lifecycle;
use crate::solana;
use crate::solana::{pubkey_from_text, Pubkey};
use crate::text;
use crate::text::{copy_opt, decimal_text, join2, join3, owned, parse_u64, same_text};
use vstd::prelude::*;

verus! {

/// Where the server listens by default.
pub const DEFAULT_BIND_ADDR: &'static str = "127.0.0.1:18080";

/// Where tips go by default.
pub const DEFAULT_JITO_TIP_ADDRESS: &'static str = "DfXygSm4jCyNCybVYYK6DwvWqjKee8pbDmJGcLWNDXjh";

/// How many transactions a report submits.
pub const REQUIRED_SUBMISSIONS: u64 = 10;

/// How many of them must be meant to fail, at least.
pub const REQUIRED_FAILURES: u64 = 2;

/// What `--help` says.
pub const HELP: &'static str =
    "Usage: cargo run --bin hackathon_report -- [options]\n\nRequired via args or env:\n  --rpc-url URL                      or SOLANA_RPC_URL\n  --yellowstone-endpoint URL         or YELLOWSTONE_ENDPOINT\n  --jito-auth-keypair PATH           or JITO_AUTH_KEYPAIR\n  --payer-keypair PATH               or TX_AGENT_REAL_PAYER_KEYPAIR\n\nCommon options:\n  --out PATH                         report JSON path (default hackathon_report.json)\n  --work-dir PATH                    generated tx and lifecycle log directory\n  --request-prefix ID                submission id prefix\n  --success-count N                  default 8\n  --failure-count N                  default 2, must be at least 2\n  --tip-lamports N                   default 1000\n  --tip-account PUBKEY               default Jito tip account\n  --bind HOST:PORT                   default 127.0.0.1:18080";

/// Why a report cannot be made.
#[derive(Debug)]
pub enum ReportError {
    /// The last argument needs a value.
    MissingValue(String),
    /// The value is no number.
    InvalidNumber(String),
    /// The argument is unknown.
    UnknownArgument(String),
    MissingRpcUrl,
    MissingYellowstoneEndpoint,
    /// The numbers of submissions do not add up.
    WrongTotal,
    /// Too few of them are meant to fail.
    TooFewFailures,
    MissingJitoAuthKeypair,
    MissingPayerKeypair,
    /// The tip account is no address.
    InvalidTipAccount(String),
}

/// What a report error holds.
pub ghost enum ReportErrorView {
    MissingValue(Seq<char>),
    InvalidNumber(Seq<char>),
    UnknownArgument(Seq<char>),
    MissingRpcUrl,
    MissingYellowstoneEndpoint,
    WrongTotal,
    TooFewFailures,
    MissingJitoAuthKeypair,
    MissingPayerKeypair,
    InvalidTipAccount(Seq<char>),
}

impl View for ReportError {
    type V = ReportErrorView;

    open spec fn view(&self) -> ReportErrorView {
        match *self {
            ReportError::MissingValue(flag) => ReportErrorView::MissingValue(flag@),
            ReportError::InvalidNumber(value) => ReportErrorView::InvalidNumber(value@),
            ReportError::UnknownArgument(arg) => ReportErrorView::UnknownArgument(arg@),
            ReportError::MissingRpcUrl => ReportErrorView::MissingRpcUrl,
            ReportError::MissingYellowstoneEndpoint => ReportErrorView::MissingYellowstoneEndpoint,
            ReportError::WrongTotal => ReportErrorView::WrongTotal,
            ReportError::TooFewFailures => ReportErrorView::TooFewFailures,
            ReportError::MissingJitoAuthKeypair => ReportErrorView::MissingJitoAuthKeypair,
            ReportError::MissingPayerKeypair => ReportErrorView::MissingPayerKeypair,
            ReportError::InvalidTipAccount(account) => ReportErrorView::InvalidTipAccount(account@),
        }
    }
}

/// What is said about a report error.
pub open spec fn report_message(error: ReportErrorView) -> Seq<char> {
    match error {
        ReportErrorView::MissingValue(flag) => flag + " requires a value"@,
        ReportErrorView::InvalidNumber(value) => "invalid number "@ + value,
        ReportErrorView::UnknownArgument(arg) => "unknown argument "@ + arg + "; use --help"@,
        ReportErrorView::MissingRpcUrl => "set SOLANA_RPC_URL or pass --rpc-url"@,
        ReportErrorView::MissingYellowstoneEndpoint =>
            "set YELLOWSTONE_ENDPOINT or pass --yellowstone-endpoint"@,
        ReportErrorView::WrongTotal => "success-count + failure-count must equal 10"@,
        ReportErrorView::TooFewFailures => "failure-count must be at least 2"@,
        ReportErrorView::MissingJitoAuthKeypair =>
            "set JITO_AUTH_KEYPAIR or pass --jito-auth-keypair"@,
        ReportErrorView::MissingPayerKeypair =>
            "set TX_AGENT_REAL_PAYER_KEYPAIR or pass --payer-keypair"@,
        ReportErrorView::InvalidTipAccount(account) => "invalid tip account "@ + account,
    }
}

impl ReportError {
    pub fn message(&self) -> (message: String)
        ensures
            message@ == report_message(self@),
    {
        match self {
            ReportError::MissingValue(flag) => join2(flag.as_str(), " requires a value"),
            ReportError::InvalidNumber(value) => join2("invalid number ", value.as_str()),
            ReportError::UnknownArgument(arg) => join3(
                "unknown argument ",
                arg.as_str(),
                "; use --help",
            ),
            ReportError::MissingRpcUrl => "set SOLANA_RPC_URL or pass --rpc-url".to_owned(),
            ReportError::MissingYellowstoneEndpoint =>
                "set YELLOWSTONE_ENDPOINT or pass --yellowstone-endpoint".to_owned(),
            ReportError::WrongTotal => "success-count + failure-count must equal 10".to_owned(),
            ReportError::TooFewFailures => "failure-count must be at least 2".to_owned(),
            ReportError::MissingJitoAuthKeypair =>
                "set JITO_AUTH_KEYPAIR or pass --jito-auth-keypair".to_owned(),
            ReportError::MissingPayerKeypair =>
                "set TX_AGENT_REAL_PAYER_KEYPAIR or pass --payer-keypair".to_owned(),
            ReportError::InvalidTipAccount(account) => join2(
                "invalid tip account ",
                account.as_str(),
            ),
        }
    }
}

/// The value that follows an argument.
pub fn next_arg(args: &Vec<String>, at: usize, name: &str) -> (out: Result<String, ReportError>)
    requires
        at <= args@.len(),
    ensures
        match out {
            Ok(value) => at < args@.len() && value@ == args@[at as int]@,
            Err(err) => at == args@.len() && err@ == ReportErrorView::MissingValue(name@),
        },
{
    if at < args.len() {
        Ok(args[at].clone())
    } else {
        Err(ReportError::MissingValue(owned(name)))
    }
}

/// The settings as the environment and the arguments give them, before they are
/// checked.
#[derive(Debug)]
pub struct ReportSettings {
    pub request_prefix: String,
    pub solana_rpc_url: String,
    pub yellowstone_endpoint: String,
    pub jito_auth_keypair_path: Option<String>,
    pub payer_keypair_path: Option<String>,
    pub tip_account: String,
    pub tip_lamports: u64,
    pub success_count: u64,
    pub failure_count: u64,
    pub mcp_bind_addr: String,
    pub work_dir: String,
    pub report_path: String,
    pub confirmation_timeout_secs: u64,
    pub leader_lookahead_slots: u64,
    pub max_agent_wait_slots: u64,
    pub server_ready_timeout_secs: u64,
    pub submission_timeout_secs: u64,
    pub yellowstone_token: Option<String>,
}

/// What report settings hold.
pub ghost struct SettingsView {
    pub request_prefix: Seq<char>,
    pub solana_rpc_url: Seq<char>,
    pub yellowstone_endpoint: Seq<char>,
    pub jito_auth_keypair_path: Option<Seq<char>>,
    pub payer_keypair_path: Option<Seq<char>>,
    pub tip_account: Seq<char>,
    pub tip_lamports: u64,
    pub success_count: u64,
    pub failure_count: u64,
    pub mcp_bind_addr: Seq<char>,
    pub work_dir: Seq<char>,
    pub report_path: Seq<char>,
    pub confirmation_timeout_secs: u64,
    pub leader_lookahead_slots: u64,
    pub max_agent_wait_slots: u64,
    pub server_ready_timeout_secs: u64,
    pub submission_timeout_secs: u64,
    pub yellowstone_token: Option<Seq<char>>,
}

impl View for ReportSettings {
    type V = SettingsView;

    open spec fn view(&self) -> SettingsView {
        SettingsView {
            request_prefix: self.request_prefix@,
            solana_rpc_url: self.solana_rpc_url@,
            yellowstone_endpoint: self.yellowstone_endpoint@,
            jito_auth_keypair_path: text::opt_text(self.jito_auth_keypair_path),
            payer_keypair_path: text::opt_text(self.payer_keypair_path),
            tip_account: self.tip_account@,
            tip_lamports: self.tip_lamports,
            success_count: self.success_count,
            failure_count: self.failure_count,
            mcp_bind_addr: self.mcp_bind_addr@,
            work_dir: self.work_dir@,
            report_path: self.report_path@,
            confirmation_timeout_secs: self.confirmation_timeout_secs,
            leader_lookahead_slots: self.leader_lookahead_slots,
            max_agent_wait_slots: self.max_agent_wait_slots,
            server_ready_timeout_secs: self.server_ready_timeout_secs,
            submission_timeout_secs: self.submission_timeout_secs,
            yellowstone_token: text::opt_text(self.yellowstone_token),
        }
    }
}

/// Whether an argument takes a text.
pub open spec fn is_text_flag(arg: Seq<char>) -> bool {
    ||| arg == "--request-prefix"@
    ||| arg == "--rpc-url"@
    ||| arg == "--yellowstone-endpoint"@
    ||| arg == "--jito-auth-keypair"@
    ||| arg == "--payer-keypair"@
    ||| arg == "--tip-account"@
    ||| arg == "--bind"@
    ||| arg == "--work-dir"@
    ||| arg == "--out"@
}

/// Whether an argument takes a number.
pub open spec fn is_number_flag(arg: Seq<char>) -> bool {
    ||| arg == "--tip-lamports"@
    ||| arg == "--success-count"@
    ||| arg == "--failure-count"@
    ||| arg == "--confirmation-timeout-secs"@
    ||| arg == "--leader-lookahead-slots"@
    ||| arg == "--max-agent-wait-slots"@
    ||| arg == "--server-ready-timeout-secs"@
    ||| arg == "--submission-timeout-secs"@
}

/// The settings after an argument with a text.
pub open spec fn with_text(settings: SettingsView, flag: Seq<char>, value: Seq<char>) -> SettingsView {
    if flag == "--request-prefix"@ {
        SettingsView { request_prefix: value, ..settings }
    } else if flag == "--rpc-url"@ {
        SettingsView { solana_rpc_url: value, ..settings }
    } else if flag == "--yellowstone-endpoint"@ {
        SettingsView { yellowstone_endpoint: value, ..settings }
    } else if flag == "--jito-auth-keypair"@ {
        SettingsView { jito_auth_keypair_path: Some(value), ..settings }
    } else if flag == "--payer-keypair"@ {
        SettingsView { payer_keypair_path: Some(value), ..settings }
    } else if flag == "--tip-account"@ {
        SettingsView { tip_account: value, ..settings }
    } else if flag == "--bind"@ {
        SettingsView { mcp_bind_addr: value, ..settings }
    } else if flag == "--work-dir"@ {
        SettingsView { work_dir: value, ..settings }
    } else {
        SettingsView { report_path: value, ..settings }
    }
}

/// The settings after an argument with a number.
pub open spec fn with_number(settings: SettingsView, flag: Seq<char>, value: u64) -> SettingsView {
    if flag == "--tip-lamports"@ {
        SettingsView { tip_lamports: value, ..settings }
    } else if flag == "--success-count"@ {
        SettingsView { success_count: value, ..settings }
    } else if flag == "--failure-count"@ {
        SettingsView { failure_count: value, ..settings }
    } else if flag == "--confirmation-timeout-secs"@ {
        SettingsView { confirmation_timeout_secs: value, ..settings }
    } else if flag == "--leader-lookahead-slots"@ {
        SettingsView { leader_lookahead_slots: value, ..settings }
    } else if flag == "--max-agent-wait-slots"@ {
        SettingsView { max_agent_wait_slots: value, ..settings }
    } else if flag == "--server-ready-timeout-secs"@ {
        SettingsView { server_ready_timeout_secs: value, ..settings }
    } else {
        SettingsView { submission_timeout_secs: value, ..settings }
    }
}

/// What the arguments come to.
pub ghost enum Parsed {
    Settings(SettingsView),
    Help,
    Error(ReportErrorView),
}

/// What the arguments make of settings, in their order. A plea for help ends the
/// reading.
pub open spec fn parsed(settings: SettingsView, args: Seq<Seq<char>>) -> Parsed
    decreases args.len(),
{
    if args.len() == 0 {
        Parsed::Settings(settings)
    } else if args[0] == "--help"@ || args[0] == "-h"@ {
        Parsed::Help
    } else if !is_text_flag(args[0]) && !is_number_flag(args[0]) {
        Parsed::Error(ReportErrorView::UnknownArgument(args[0]))
    } else if args.len() == 1 {
        Parsed::Error(ReportErrorView::MissingValue(args[0]))
    } else if is_text_flag(args[0]) {
        parsed(with_text(settings, args[0], args[1]), args.skip(2))
    } else {
        match text::parse_unsigned(args[1], u64::MAX as nat) {
            Some(n) => parsed(with_number(settings, args[0], n as u64), args.skip(2)),
            None => Parsed::Error(ReportErrorView::InvalidNumber(args[1])),
        }
    }
}

/// Whether an argument takes a text.
fn takes_text(arg: &str) -> (takes: bool)
    ensures
        takes == is_text_flag(arg@),
{
    same_text(arg, "--request-prefix")
        || same_text(arg, "--rpc-url")
        || same_text(arg, "--yellowstone-endpoint")
        || same_text(arg, "--jito-auth-keypair")
        || same_text(arg, "--payer-keypair")
        || same_text(arg, "--tip-account")
        || same_text(arg, "--bind")
        || same_text(arg, "--work-dir")
        || same_text(arg, "--out")
}

/// Whether an argument takes a number.
fn takes_number(arg: &str) -> (takes: bool)
    ensures
        takes == is_number_flag(arg@),
{
    same_text(arg, "--tip-lamports")
        || same_text(arg, "--success-count")
        || same_text(arg, "--failure-count")
        || same_text(arg, "--confirmation-timeout-secs")
        || same_text(arg, "--leader-lookahead-slots")
        || same_text(arg, "--max-agent-wait-slots")
        || same_text(arg, "--server-ready-timeout-secs")
        || same_text(arg, "--submission-timeout-secs")
}

/// A file in a directory, unless its name is a path of its own from the root.
pub open spec fn in_directory(directory: Seq<char>, name: Seq<char>) -> Seq<char> {
    if name.len() > 0 && name[0] == '/' {
        name
    } else if directory.len() == 0 || directory.last() == '/' {
        directory + name
    } else {
        directory + "/"@ + name
    }
}

/// A file in a directory, unless its name is a path of its own from the root.
pub fn join_path(directory: &str, name: &str) -> (path: String)
    ensures
        path@ == in_directory(directory@, name@),
{
    let above = text::chars_of(directory);
    let below = text::chars_of(name);
    if below.len() > 0 && below[0] == '/' {
        owned(name)
    } else if above.len() == 0 || above[above.len() - 1] == '/' {
        join2(directory, name)
    } else {
        join3(directory, "/", name)
    }
}

/// The settings without arguments, at a moment in milliseconds since the start
/// of 1970.
pub open spec fn default_settings(
    env: Seq<(Seq<char>, Seq<char>)>,
    now_ms: nat,
    temp_dir: Seq<char>,
) -> SettingsView {
    let max = u64::MAX as nat;
    SettingsView {
        request_prefix: "hackathon-"@ + text::decimal(now_ms),
        solana_rpc_url: config::value_or(config::lookup(env, "SOLANA_RPC_URL"@), Seq::empty()),
        yellowstone_endpoint: config::value_or(
            config::lookup(env, "YELLOWSTONE_ENDPOINT"@),
            Seq::empty(),
        ),
        jito_auth_keypair_path: config::lookup(env, "JITO_AUTH_KEYPAIR"@),
        payer_keypair_path: lifecycle::either(
            config::lookup(env, "TX_AGENT_REAL_PAYER_KEYPAIR"@),
            config::lookup(env, "PAYER_KEYPAIR"@),
        ),
        tip_account: config::value_or(
            config::lookup(env, "TX_AGENT_REAL_TIP_ACCOUNT"@),
            DEFAULT_JITO_TIP_ADDRESS@,
        ),
        tip_lamports: config::number_or(
            config::lookup(env, "TX_AGENT_REAL_TIP_LAMPORTS"@),
            max,
            1_000,
        ) as u64,
        success_count: config::number_or(
            config::lookup(env, "TX_AGENT_REAL_SUCCESS_COUNT"@),
            max,
            8,
        ) as u64,
        failure_count: config::number_or(
            config::lookup(env, "TX_AGENT_REAL_FAILURE_COUNT"@),
            max,
            2,
        ) as u64,
        mcp_bind_addr: config::value_or(
            config::lookup(env, "TX_AGENT_REAL_MCP_BIND_ADDR"@),
            DEFAULT_BIND_ADDR@,
        ),
        work_dir: config::value_or(
            config::lookup(env, "TX_AGENT_REPORT_WORK_DIR"@),
            in_directory(temp_dir, "tx-agent-hackathon-report-"@ + text::decimal(now_ms)),
        ),
        report_path: config::value_or(
            config::lookup(env, "TX_AGENT_HACKATHON_REPORT"@),
            "hackathon_report.json"@,
        ),
        confirmation_timeout_secs: config::number_or(
            config::lookup(env, "CONFIRMATION_TIMEOUT_SECS"@),
            max,
            45,
        ) as u64,
        leader_lookahead_slots: config::number_or(
            config::lookup(env, "LEADER_LOOKAHEAD_SLOTS"@),
            max,
            3,
        ) as u64,
        max_agent_wait_slots: config::number_or(
            config::lookup(env, "MAX_AGENT_WAIT_SLOTS"@),
            max,
            3,
        ) as u64,
        server_ready_timeout_secs: config::number_or(
            config::lookup(env, "TX_AGENT_SERVER_READY_TIMEOUT_SECS"@),
            max,
            180,
        ) as u64,
        submission_timeout_secs: config::number_or(
            config::lookup(env, "TX_AGENT_SUBMISSION_TIMEOUT_SECS"@),
            max,
            180,
        ) as u64,
        yellowstone_token: config::lookup(env, "YELLOWSTONE_TOKEN"@),
    }
}

impl ReportSettings {
    /// The settings without arguments.
    pub fn defaults(env: &Environment, now_ms: u64, temp_dir: &str) -> (settings: ReportSettings)
        ensures
            settings@ == default_settings(env@, now_ms as nat, temp_dir@),
    {
        proof {
            reveal_strlit("");
            assert(""@ =~= Seq::<char>::empty());
        }
        let now = decimal_text(now_ms);
        let default_work_dir = join_path(
            temp_dir,
            join2("tx-agent-hackathon-report-", now.as_str()).as_str(),
        );
        let real_payer = env.get("TX_AGENT_REAL_PAYER_KEYPAIR");
        ReportSettings {
            request_prefix: join2("hackathon-", now.as_str()),
            solana_rpc_url: env.get_or("SOLANA_RPC_URL", ""),
            yellowstone_endpoint: env.get_or("YELLOWSTONE_ENDPOINT", ""),
            jito_auth_keypair_path: env.get("JITO_AUTH_KEYPAIR"),
            payer_keypair_path: match real_payer {
                Some(path) => Some(path),
                None => env.get("PAYER_KEYPAIR"),
            },
            tip_account: env.get_or("TX_AGENT_REAL_TIP_ACCOUNT", DEFAULT_JITO_TIP_ADDRESS),
            tip_lamports: env.env_u64("TX_AGENT_REAL_TIP_LAMPORTS", 1_000),
            success_count: env.env_u64("TX_AGENT_REAL_SUCCESS_COUNT", 8),
            failure_count: env.env_u64("TX_AGENT_REAL_FAILURE_COUNT", 2),
            mcp_bind_addr: env.get_or("TX_AGENT_REAL_MCP_BIND_ADDR", DEFAULT_BIND_ADDR),
            work_dir: env.get_or("TX_AGENT_REPORT_WORK_DIR", default_work_dir.as_str()),
            report_path: env.get_or("TX_AGENT_HACKATHON_REPORT", "hackathon_report.json"),
            confirmation_timeout_secs: env.env_u64("CONFIRMATION_TIMEOUT_SECS", 45),
            leader_lookahead_slots: env.env_u64("LEADER_LOOKAHEAD_SLOTS", 3),
            max_agent_wait_slots: env.env_u64("MAX_AGENT_WAIT_SLOTS", 3),
            server_ready_timeout_secs: env.env_u64("TX_AGENT_SERVER_READY_TIMEOUT_SECS", 180),
            submission_timeout_secs: env.env_u64("TX_AGENT_SUBMISSION_TIMEOUT_SECS", 180),
            yellowstone_token: env.get("YELLOWSTONE_TOKEN"),
        }
    }

    /// Takes an argument with a text.
    fn set_text(&mut self, flag: &str, value: String)
        requires
            is_text_flag(flag@),
        ensures
            final(self)@ == with_text(old(self)@, flag@, value@),
    {
        if same_text(flag, "--request-prefix") {
            self.request_prefix = value;
        } else if same_text(flag, "--rpc-url") {
            self.solana_rpc_url = value;
        } else if same_text(flag, "--yellowstone-endpoint") {
            self.yellowstone_endpoint = value;
        } else if same_text(flag, "--jito-auth-keypair") {
            self.jito_auth_keypair_path = Some(value);
        } else if same_text(flag, "--payer-keypair") {
            self.payer_keypair_path = Some(value);
        } else if same_text(flag, "--tip-account") {
            self.tip_account = value;
        } else if same_text(flag, "--bind") {
            self.mcp_bind_addr = value;
        } else if same_text(flag, "--work-dir") {
            self.work_dir = value;
        } else {
            self.report_path = value;
        }
    }

    /// Takes an argument with a number.
    fn set_number(&mut self, flag: &str, value: u64)
        requires
            is_number_flag(flag@),
        ensures
            final(self)@ == with_number(old(self)@, flag@, value),
    {
        if same_text(flag, "--tip-lamports") {
            self.tip_lamports = value;
        } else if same_text(flag, "--success-count") {
            self.success_count = value;
        } else if same_text(flag, "--failure-count") {
            self.failure_count = value;
        } else if same_text(flag, "--confirmation-timeout-secs") {
            self.confirmation_timeout_secs = value;
        } else if same_text(flag, "--leader-lookahead-slots") {
            self.leader_lookahead_slots = value;
        } else if same_text(flag, "--max-agent-wait-slots") {
            self.max_agent_wait_slots = value;
        } else if same_text(flag, "--server-ready-timeout-secs") {
            self.server_ready_timeout_secs = value;
        } else {
            self.submission_timeout_secs = value;
        }
    }

    /// Takes the arguments in their order. Gives whether help was asked for.
    pub fn apply(&mut self, args: &Vec<String>) -> (out: Result<bool, ReportError>)
        ensures
            match parsed(old(self)@, text::texts(args@)) {
                Parsed::Settings(settings) => out matches Ok(help) && !help && final(self)@
                    == settings,
                Parsed::Help => out matches Ok(help) && help,
                Parsed::Error(why) => out matches Err(err) && err@ == why,
            },
    {
        let ghost all = text::texts(args@);
        let ghost first = self@;
        let mut i: usize = 0;
        assert(all.skip(0) =~= all);
        while i < args.len()
            invariant
                i <= args.len(),
                all == text::texts(args@),
                first == old(self)@,
                parsed(first, all) == parsed(self@, all.skip(i as int)),
            decreases args.len() - i,
        {
            let ghost rest = all.skip(i as int);
            assert(rest[0] == args@[i as int]@);
            let arg = args[i].as_str();
            if same_text(arg, "--help") || same_text(arg, "-h") {
                return Ok(true);
            }
            let is_text = takes_text(arg);
            if !is_text && !takes_number(arg) {
                return Err(ReportError::UnknownArgument(owned(arg)));
            }
            let value = match next_arg(args, i + 1, arg) {
                Ok(value) => value,
                Err(err) => return Err(err),
            };
            assert(rest[1] == args@[i + 1]@);
            assert(rest.skip(2) =~= all.skip(i + 2));
            if is_text {
                self.set_text(arg, value);
            } else {
                match parse_u64(value.as_str()) {
                    Some(n) => self.set_number(arg, n),
                    None => return Err(ReportError::InvalidNumber(value)),
                }
            }
            i = i + 2;
        }
        assert(all.skip(i as int) =~= Seq::<Seq<char>>::empty());
        Ok(false)
    }
}

/// What is wrong with settings whose tip account is the given address, if
/// anything: the first fault in this order.
pub open spec fn fault_with(settings: SettingsView, tip_account: Option<Seq<u8>>) -> Option<
    ReportErrorView,
> {
    if settings.solana_rpc_url.len() == 0 {
        Some(ReportErrorView::MissingRpcUrl)
    } else if settings.yellowstone_endpoint.len() == 0 {
        Some(ReportErrorView::MissingYellowstoneEndpoint)
    } else if settings.success_count + settings.failure_count != REQUIRED_SUBMISSIONS {
        Some(ReportErrorView::WrongTotal)
    } else if settings.failure_count < REQUIRED_FAILURES {
        Some(ReportErrorView::TooFewFailures)
    } else if settings.jito_auth_keypair_path is None {
        Some(ReportErrorView::MissingJitoAuthKeypair)
    } else if settings.payer_keypair_path is None {
        Some(ReportErrorView::MissingPayerKeypair)
    } else if tip_account is None {
        Some(ReportErrorView::InvalidTipAccount(settings.tip_account))
    } else {
        None
    }
}

/// What is wrong with settings, if anything.
pub open spec fn fault(settings: SettingsView) -> Option<ReportErrorView> {
    fault_with(settings, solana::address_bytes(settings.tip_account))
}

/// The settings of a report.
#[derive(Clone, Debug)]
pub struct ReportConfig {
    pub request_prefix: String,
    pub solana_rpc_url: String,
    pub yellowstone_endpoint: String,
    pub yellowstone_token: Option<String>,
    pub jito_auth_keypair_path: String,
    pub payer_keypair_path: String,
    pub tip_account: Pubkey,
    pub tip_lamports: u64,
    pub success_count: u64,
    pub failure_count: u64,
    pub mcp_bind_addr: String,
    pub work_dir: String,
    pub lifecycle_log_path: String,
    pub agent_log_path: String,
    pub report_path: String,
    pub confirmation_timeout_secs: u64,
    pub leader_lookahead_slots: u64,
    pub max_agent_wait_slots: u64,
    pub server_ready_timeout_secs: u64,
    pub submission_timeout_secs: u64,
}

/// What the arguments ask for.
#[derive(Debug)]
pub enum ReportRequest {
    Run(ReportConfig),
    Help,
}

impl ReportConfig {
    /// Whether the report makes the number of submissions that it must, with
    /// enough of them meant to fail.
    pub open spec fn wf(self) -> bool {
        &&& self.success_count + self.failure_count == REQUIRED_SUBMISSIONS
        &&& self.failure_count >= REQUIRED_FAILURES
        &&& self.solana_rpc_url@.len() > 0
        &&& self.yellowstone_endpoint@.len() > 0
    }

    /// Whether the settings are those that were given, with a tip account.
    pub open spec fn is_from(self, settings: SettingsView, tip_account: Option<Seq<u8>>) -> bool {
        &&& self.request_prefix@ == settings.request_prefix
        &&& self.solana_rpc_url@ == settings.solana_rpc_url
        &&& self.yellowstone_endpoint@ == settings.yellowstone_endpoint
        &&& text::opt_text(self.yellowstone_token) == settings.yellowstone_token
        &&& Some(self.jito_auth_keypair_path@) == settings.jito_auth_keypair_path
        &&& Some(self.payer_keypair_path@) == settings.payer_keypair_path
        &&& Some(self.tip_account@) == tip_account
        &&& self.tip_lamports == settings.tip_lamports
        &&& self.success_count == settings.success_count
        &&& self.failure_count == settings.failure_count
        &&& self.mcp_bind_addr@ == settings.mcp_bind_addr
        &&& self.work_dir@ == settings.work_dir
        &&& self.lifecycle_log_path@ == in_directory(settings.work_dir, "lifecycle.log.jsonl"@)
        &&& self.agent_log_path@ == in_directory(settings.work_dir, "agent_mcp.log"@)
        &&& self.report_path@ == settings.report_path
        &&& self.confirmation_timeout_secs == settings.confirmation_timeout_secs
        &&& self.leader_lookahead_slots == settings.leader_lookahead_slots
        &&& self.max_agent_wait_slots == settings.max_agent_wait_slots
        &&& self.server_ready_timeout_secs == settings.server_ready_timeout_secs
        &&& self.submission_timeout_secs == settings.submission_timeout_secs
    }

    /// Checks settings.
    pub fn from_settings(settings: ReportSettings) -> (out: Result<ReportConfig, ReportError>)
        ensures
            match fault(settings@) {
                Some(why) => out matches Err(err) && err@ == why,
                None => out matches Ok(made) && made.is_from(
                    settings@,
                    solana::address_bytes(settings@.tip_account),
                ) && made.wf(),
            },
    {
        let tip_account = match pubkey_from_text(settings.tip_account.as_str()) {
            Ok(key) => Some(key),
            Err(_) => None,
        };
        ReportConfig::with_tip_account(settings, tip_account)
    }

    /// Checks settings, with the address that the tip account's text stands for.
    pub fn with_tip_account(settings: ReportSettings, tip_account: Option<Pubkey>) -> (out: Result<
        ReportConfig,
        ReportError,
    >)
        ensures
            ({
                let bytes = match tip_account {
                    Some(key) => Some(key@),
                    None => None,
                };
                match fault_with(settings@, bytes) {
                    Some(why) => out matches Err(err) && err@ == why,
                    None => out matches Ok(made) && made.is_from(settings@, bytes) && made.wf(),
                }
            }),
    {
        if settings.solana_rpc_url.as_str().is_empty() {
            return Err(ReportError::MissingRpcUrl);
        }
        if settings.yellowstone_endpoint.as_str().is_empty() {
            return Err(ReportError::MissingYellowstoneEndpoint);
        }
        let total: u128 = settings.success_count as u128 + settings.failure_count as u128;
        if total != REQUIRED_SUBMISSIONS as u128 {
            return Err(ReportError::WrongTotal);
        }
        if settings.failure_count < REQUIRED_FAILURES {
            return Err(ReportError::TooFewFailures);
        }
        let lifecycle_log_path = join_path(settings.work_dir.as_str(), "lifecycle.log.jsonl");
        let agent_log_path = join_path(settings.work_dir.as_str(), "agent_mcp.log");
        let jito_auth_keypair_path = match settings.jito_auth_keypair_path {
            Some(path) => path,
            None => return Err(ReportError::MissingJitoAuthKeypair),
        };
        let payer_keypair_path = match settings.payer_keypair_path {
            Some(path) => path,
            None => return Err(ReportError::MissingPayerKeypair),
        };
        let tip_account = match tip_account {
            Some(key) => key,
            None => return Err(ReportError::InvalidTipAccount(settings.tip_account)),
        };
        Ok(
            ReportConfig {
                request_prefix: settings.request_prefix,
                solana_rpc_url: settings.solana_rpc_url,
                yellowstone_endpoint: settings.yellowstone_endpoint,
                yellowstone_token: copy_opt(&settings.yellowstone_token),
                jito_auth_keypair_path,
                payer_keypair_path,
                tip_account,
                tip_lamports: settings.tip_lamports,
                success_count: settings.success_count,
                failure_count: settings.failure_count,
                mcp_bind_addr: settings.mcp_bind_addr,
                work_dir: settings.work_dir,
                lifecycle_log_path,
                agent_log_path,
                report_path: settings.report_path,
                confirmation_timeout_secs: settings.confirmation_timeout_secs,
                leader_lookahead_slots: settings.leader_lookahead_slots,
                max_agent_wait_slots: settings.max_agent_wait_slots,
                server_ready_timeout_secs: settings.server_ready_timeout_secs,
                submission_timeout_secs: settings.submission_timeout_secs,
            },
        )
    }

    /// What the arguments and the environment ask for, at a moment in
    /// milliseconds since the start of 1970.
    pub fn from_args(args: &Vec<String>, env: &Environment, now_ms: u64, temp_dir: &str) -> (out:
        Result<ReportRequest, ReportError>)
        ensures
            match parsed(
                default_settings(env@, now_ms as nat, temp_dir@),
                text::texts(args@),
            ) {
                Parsed::Help => out matches Ok(ReportRequest::Help),
                Parsed::Error(why) => out matches Err(err) && err@ == why,
                Parsed::Settings(settings) => match fault(settings) {
                    Some(why) => out matches Err(err) && err@ == why,
                    None => out matches Ok(ReportRequest::Run(made)) && made.is_from(
                        settings,
                        solana::address_bytes(settings.tip_account),
                    ) && made.wf(),
                },
            },
    {
        let mut settings = ReportSettings::defaults(env, now_ms, temp_dir);
        match settings.apply(args) {
            Ok(true) => Ok(ReportRequest::Help),
            Ok(false) => match ReportConfig::from_settings(settings) {
                Ok(made) => Ok(ReportRequest::Run(made)),
                Err(err) => Err(err),
            },
            Err(err) => Err(err),
        }
    }

    /// Where the server is reached.
    pub fn mcp_url(&self) -> (url: String)
        ensures
            url@ == "http://"@ + self.mcp_bind_addr@ + "/mcp"@,
    {
        join3("http://", self.mcp_bind_addr.as_str(), "/mcp")
    }
}

// ---------------------------------------------------------------------------
// What the settings are for
// ---------------------------------------------------------------------------

/// Each argument with a text sets what its name says, and nothing else.
pub proof fn texts_set_what_they_name(settings: SettingsView, value: Seq<char>)
    ensures
        with_text(settings, "--request-prefix"@, value) == (SettingsView { request_prefix: value, ..settings }),
        with_text(settings, "--rpc-url"@, value) == (SettingsView { solana_rpc_url: value, ..settings }),
        with_text(settings, "--yellowstone-endpoint"@, value) == (SettingsView { yellowstone_endpoint: value, ..settings }),
        with_text(settings, "--jito-auth-keypair"@, value) == (SettingsView { jito_auth_keypair_path: Some(value), ..settings }),
        with_text(settings, "--payer-keypair"@, value) == (SettingsView { payer_keypair_path: Some(value), ..settings }),
        with_text(settings, "--tip-account"@, value) == (SettingsView { tip_account: value, ..settings }),
        with_text(settings, "--bind"@, value) == (SettingsView { mcp_bind_addr: value, ..settings }),
        with_text(settings, "--work-dir"@, value) == (SettingsView { work_dir: value, ..settings }),
        with_text(settings, "--out"@, value) == (SettingsView { report_path: value, ..settings }),
{
    reveal_strlit("--request-prefix");
    reveal_strlit("--rpc-url");
    reveal_strlit("--yellowstone-endpoint");
    reveal_strlit("--jito-auth-keypair");
    reveal_strlit("--payer-keypair");
    reveal_strlit("--tip-account");
    reveal_strlit("--bind");
    reveal_strlit("--work-dir");
    reveal_strlit("--out");
    assert("--request-prefix"@.len() == 16);
    assert("--rpc-url"@.len() == 9);
    assert("--yellowstone-endpoint"@.len() == 22);
    assert("--jito-auth-keypair"@.len() == 19);
    assert("--payer-keypair"@.len() == 15);
    assert("--tip-account"@.len() == 13);
    assert("--bind"@.len() == 6);
    assert("--work-dir"@.len() == 10);
    assert("--out"@.len() == 5);
}

/// Each argument with a number sets what its name says, and nothing else.
pub proof fn numbers_set_what_they_name(settings: SettingsView, value: u64)
    ensures
        with_number(settings, "--tip-lamports"@, value) == (SettingsView { tip_lamports: value, ..settings }),
        with_number(settings, "--success-count"@, value) == (SettingsView { success_count: value, ..settings }),
        with_number(settings, "--failure-count"@, value) == (SettingsView { failure_count: value, ..settings }),
        with_number(settings, "--confirmation-timeout-secs"@, value) == (SettingsView { confirmation_timeout_secs: value, ..settings }),
        with_number(settings, "--leader-lookahead-slots"@, value) == (SettingsView { leader_lookahead_slots: value, ..settings }),
        with_number(settings, "--max-agent-wait-slots"@, value) == (SettingsView { max_agent_wait_slots: value, ..settings }),
        with_number(settings, "--server-ready-timeout-secs"@, value) == (SettingsView { server_ready_timeout_secs: value, ..settings }),
        with_number(settings, "--submission-timeout-secs"@, value) == (SettingsView { submission_timeout_secs: value, ..settings }),
{
    reveal_strlit("--tip-lamports");
    reveal_strlit("--success-count");
    reveal_strlit("--failure-count");
    reveal_strlit("--confirmation-timeout-secs");
    reveal_strlit("--leader-lookahead-slots");
    reveal_strlit("--max-agent-wait-slots");
    reveal_strlit("--server-ready-timeout-secs");
    reveal_strlit("--submission-timeout-secs");
    assert("--tip-lamports"@.len() == 14);
    assert("--success-count"@.len() == 15);
    assert("--failure-count"@.len() == 15);
    assert("--confirmation-timeout-secs"@.len() == 27);
    assert("--leader-lookahead-slots"@.len() == 24);
    assert("--max-agent-wait-slots"@.len() == 22);
    assert("--server-ready-timeout-secs"@.len() == 27);
    assert("--submission-timeout-secs"@.len() == 25);
    assert("--success-count"@[2] != "--failure-count"@[2]);
    assert("--confirmation-timeout-secs"@[2] != "--server-ready-timeout-secs"@[2]);
}

/// One argument with its value acts on the settings, and those behind it act on
/// what it has set. Help ends the reading, and what cannot be used is refused.
pub proof fn arguments_are_taken_in_order(
    settings: SettingsView,
    flag: Seq<char>,
    value: Seq<char>,
    rest: Seq<Seq<char>>,
    n: u64,
)
    ensures
        parsed(settings, Seq::empty()) == Parsed::Settings(settings),
        parsed(settings, seq!["--help"@] + rest) == Parsed::Help,
        parsed(settings, seq!["-h"@] + rest) == Parsed::Help,
        flag != "--help"@ && flag != "-h"@ && is_text_flag(flag) ==> parsed(
            settings,
            seq![flag, value] + rest,
        ) == parsed(with_text(settings, flag, value), rest),
        flag != "--help"@ && flag != "-h"@ && is_number_flag(flag) && !is_text_flag(flag) ==> parsed(
            settings,
            seq![flag, text::decimal(n as nat)] + rest,
        ) == parsed(with_number(settings, flag, n), rest),
        flag != "--help"@ && flag != "-h"@ && is_number_flag(flag) && !is_text_flag(flag)
            && text::parse_unsigned(value, u64::MAX as nat) is None ==> parsed(
            settings,
            seq![flag, value] + rest,
        ) == Parsed::Error(ReportErrorView::InvalidNumber(value)),
        flag != "--help"@ && flag != "-h"@ && (is_text_flag(flag) || is_number_flag(flag))
            ==> parsed(settings, seq![flag]) == Parsed::Error(ReportErrorView::MissingValue(flag)),
        flag != "--help"@ && flag != "-h"@ && !is_text_flag(flag) && !is_number_flag(flag)
            ==> parsed(settings, seq![flag] + rest) == Parsed::Error(
            ReportErrorView::UnknownArgument(flag),
        ),
{
    text::decimal_reads_back(n as nat, u64::MAX as nat);
    assert((seq!["--help"@] + rest)[0] == "--help"@);
    assert((seq!["-h"@] + rest)[0] == "-h"@);
    assert((seq![flag] + rest)[0] == flag);
    let one = seq![flag, value] + rest;
    assert(one[0] == flag && one[1] == value);
    assert(one.skip(2) =~= rest);
    let two = seq![flag, text::decimal(n as nat)] + rest;
    assert(two[0] == flag && two[1] == text::decimal(n as nat));
    assert(two.skip(2) =~= rest);
}

/// The arguments that take a text, and those that take a number, are these.
pub proof fn arguments_are_known(flag: Seq<char>)
    ensures
        is_text_flag(flag) <==> {
            ||| flag == "--request-prefix"@
            ||| flag == "--rpc-url"@
            ||| flag == "--yellowstone-endpoint"@
            ||| flag == "--jito-auth-keypair"@
            ||| flag == "--payer-keypair"@
            ||| flag == "--tip-account"@
            ||| flag == "--bind"@
            ||| flag == "--work-dir"@
            ||| flag == "--out"@
        },
        is_number_flag(flag) <==> {
            ||| flag == "--tip-lamports"@
            ||| flag == "--success-count"@
            ||| flag == "--failure-count"@
            ||| flag == "--confirmation-timeout-secs"@
            ||| flag == "--leader-lookahead-slots"@
            ||| flag == "--max-agent-wait-slots"@
            ||| flag == "--server-ready-timeout-secs"@
            ||| flag == "--submission-timeout-secs"@
        },
{
}

/// Without any variable the settings are the defaults, with a name and a directory
/// that tell the moment; a variable that is set decides the setting of its name.
pub proof fn variables_set_the_defaults(
    env: Seq<(Seq<char>, Seq<char>)>,
    now_ms: nat,
    temp_dir: Seq<char>,
    value: Seq<char>,
    n: u64,
)
    ensures
        ({
            let plain = default_settings(Seq::empty(), now_ms, temp_dir);
            let told = default_settings(env, now_ms, temp_dir);
            &&& plain.tip_lamports == 1000
            &&& plain.success_count == 8
            &&& plain.failure_count == 2
            &&& plain.confirmation_timeout_secs == 45
            &&& plain.leader_lookahead_slots == 3
            &&& plain.max_agent_wait_slots == 3
            &&& plain.server_ready_timeout_secs == 180
            &&& plain.submission_timeout_secs == 180
            &&& plain.solana_rpc_url.len() == 0 && plain.yellowstone_endpoint.len() == 0
            &&& plain.jito_auth_keypair_path is None && plain.payer_keypair_path is None
            &&& plain.yellowstone_token is None
            &&& plain.tip_account == "DfXygSm4jCyNCybVYYK6DwvWqjKee8pbDmJGcLWNDXjh"@
            &&& plain.mcp_bind_addr == "127.0.0.1:18080"@
            &&& plain.report_path == "hackathon_report.json"@
            &&& plain.work_dir == in_directory(
                temp_dir,
                "tx-agent-hackathon-report-"@ + text::decimal(now_ms),
            )
            &&& told.request_prefix == "hackathon-"@ + text::decimal(now_ms)
            &&& config::lookup(env, "TX_AGENT_REAL_TIP_LAMPORTS"@) == Some(text::decimal(n as nat)) ==> told.tip_lamports
                == n
            &&& config::lookup(env, "TX_AGENT_REAL_SUCCESS_COUNT"@) == Some(text::decimal(n as nat)) ==> told.success_count
                == n
            &&& config::lookup(env, "TX_AGENT_REAL_FAILURE_COUNT"@) == Some(text::decimal(n as nat)) ==> told.failure_count
                == n
            &&& config::lookup(env, "CONFIRMATION_TIMEOUT_SECS"@) == Some(text::decimal(n as nat)) ==> told.confirmation_timeout_secs
                == n
            &&& config::lookup(env, "LEADER_LOOKAHEAD_SLOTS"@) == Some(text::decimal(n as nat)) ==> told.leader_lookahead_slots
                == n
            &&& config::lookup(env, "MAX_AGENT_WAIT_SLOTS"@) == Some(text::decimal(n as nat)) ==> told.max_agent_wait_slots
                == n
            &&& config::lookup(env, "TX_AGENT_SERVER_READY_TIMEOUT_SECS"@) == Some(text::decimal(n as nat)) ==> told.server_ready_timeout_secs
                == n
            &&& config::lookup(env, "TX_AGENT_SUBMISSION_TIMEOUT_SECS"@) == Some(text::decimal(n as nat)) ==> told.submission_timeout_secs
                == n
            &&& config::lookup(env, "SOLANA_RPC_URL"@) == Some(value) ==> told.solana_rpc_url == value
            &&& config::lookup(env, "YELLOWSTONE_ENDPOINT"@) == Some(value) ==> told.yellowstone_endpoint == value
            &&& config::lookup(env, "TX_AGENT_REAL_TIP_ACCOUNT"@) == Some(value) ==> told.tip_account == value
            &&& config::lookup(env, "TX_AGENT_REAL_MCP_BIND_ADDR"@) == Some(value) ==> told.mcp_bind_addr == value
            &&& config::lookup(env, "TX_AGENT_REPORT_WORK_DIR"@) == Some(value) ==> told.work_dir == value
            &&& config::lookup(env, "TX_AGENT_HACKATHON_REPORT"@) == Some(value) ==> told.report_path == value
            &&& told.jito_auth_keypair_path == config::lookup(env, "JITO_AUTH_KEYPAIR"@)
            &&& told.yellowstone_token == config::lookup(env, "YELLOWSTONE_TOKEN"@)
            &&& config::lookup(env, "TX_AGENT_REAL_PAYER_KEYPAIR"@) == Some(value)
                ==> told.payer_keypair_path == Some(value)
            &&& config::lookup(env, "TX_AGENT_REAL_PAYER_KEYPAIR"@) is None
                ==> told.payer_keypair_path == config::lookup(env, "PAYER_KEYPAIR"@)
        }),
{
    text::decimal_reads_back(n as nat, u64::MAX as nat);
}

/// Settings pass exactly where they name the two nodes, both key pairs and an
/// address for the tips, and make ten submissions of which two or more are meant
/// to fail.
pub proof fn settings_pass_when_complete(settings: SettingsView, tip_account: Option<Seq<u8>>)
    ensures
        fault_with(settings, tip_account) is None <==> {
            &&& settings.solana_rpc_url.len() > 0
            &&& settings.yellowstone_endpoint.len() > 0
            &&& settings.success_count + settings.failure_count == 10
            &&& settings.failure_count >= 2
            &&& settings.jito_auth_keypair_path is Some
            &&& settings.payer_keypair_path is Some
            &&& tip_account is Some
        },
        fault(settings) == fault_with(settings, solana::address_bytes(settings.tip_account)),
{
}

/// Each fault is told by its own error, the first of several in a fixed order.
pub proof fn faults_are_told_in_order(settings: SettingsView, tip_account: Option<Seq<u8>>)
    ensures
        ({
            let told = fault_with(settings, tip_account);
            let no_rpc = settings.solana_rpc_url.len() == 0;
            let no_stream = settings.yellowstone_endpoint.len() == 0;
            let wrong = settings.success_count + settings.failure_count != 10;
            let few = settings.failure_count < 2;
            let no_auth = settings.jito_auth_keypair_path is None;
            let no_payer = settings.payer_keypair_path is None;
            &&& told == Some(ReportErrorView::MissingRpcUrl) <==> no_rpc
            &&& told == Some(ReportErrorView::MissingYellowstoneEndpoint) <==> !no_rpc && no_stream
            &&& told == Some(ReportErrorView::WrongTotal) <==> !no_rpc && !no_stream && wrong
            &&& told == Some(ReportErrorView::TooFewFailures) <==> !no_rpc && !no_stream && !wrong
                && few
            &&& told == Some(ReportErrorView::MissingJitoAuthKeypair) <==> !no_rpc && !no_stream
                && !wrong && !few && no_auth
            &&& told == Some(ReportErrorView::MissingPayerKeypair) <==> !no_rpc && !no_stream
                && !wrong && !few && !no_auth && no_payer
            &&& told == Some(ReportErrorView::InvalidTipAccount(settings.tip_account)) <==> !no_rpc
                && !no_stream && !wrong && !few && !no_auth && !no_payer && tip_account is None
        }),
{
}

/// What was set is what the report runs with; its logs stand in its directory.
pub proof fn reports_run_with_what_was_set(
    made: ReportConfig,
    settings: SettingsView,
    tip_account: Option<Seq<u8>>,
)
    requires
        made.is_from(settings, tip_account),
    ensures
        made.request_prefix@ == settings.request_prefix,
        made.solana_rpc_url@ == settings.solana_rpc_url,
        made.yellowstone_endpoint@ == settings.yellowstone_endpoint,
        made.mcp_bind_addr@ == settings.mcp_bind_addr,
        made.work_dir@ == settings.work_dir,
        made.report_path@ == settings.report_path,
        made.tip_lamports == settings.tip_lamports,
        made.success_count == settings.success_count,
        made.failure_count == settings.failure_count,
        made.confirmation_timeout_secs == settings.confirmation_timeout_secs,
        made.leader_lookahead_slots == settings.leader_lookahead_slots,
        made.max_agent_wait_slots == settings.max_agent_wait_slots,
        made.server_ready_timeout_secs == settings.server_ready_timeout_secs,
        made.submission_timeout_secs == settings.submission_timeout_secs,
        settings.jito_auth_keypair_path == Some(made.jito_auth_keypair_path@),
        settings.payer_keypair_path == Some(made.payer_keypair_path@),
        text::opt_text(made.yellowstone_token) == settings.yellowstone_token,
        tip_account == Some(made.tip_account@),
        made.lifecycle_log_path@ == in_directory(settings.work_dir, "lifecycle.log.jsonl"@),
        made.agent_log_path@ == in_directory(settings.work_dir, "agent_mcp.log"@),
{
}

/// A file stands in its directory behind one slash, and a name from the root stays
/// as it is.
pub proof fn files_stand_in_their_directory(directory: Seq<char>, name: Seq<char>)
    ensures
        name.len() > 0 && name[0] == '/' ==> in_directory(directory, name) == name,
        !(name.len() > 0 && name[0] == '/') && directory.len() == 0 ==> in_directory(directory, name)
            == name,
        !(name.len() > 0 && name[0] == '/') && directory.len() > 0 ==> {
            let path = in_directory(directory, name);
            let base = if directory.last() == '/' {
                directory
            } else {
                directory.push('/')
            };
            path == base + name
        },
{
    reveal_strlit("/");
    assert(directory + "/"@ =~= directory.push('/'));
    assert(Seq::<char>::empty() + name =~= name);
    if directory.len() == 0 {
        assert(directory + name =~= name);
    }
}

/// Each error says what was wrong, and names the argument where there is one.
pub proof fn errors_say_what_was_wrong(name: Seq<char>)
    ensures
        report_message(ReportErrorView::MissingValue(name)) == name + " requires a value"@,
        report_message(ReportErrorView::InvalidNumber(name)) == "invalid number "@ + name,
        report_message(ReportErrorView::UnknownArgument(name)) == "unknown argument "@ + name
            + "; use --help"@,
        report_message(ReportErrorView::MissingRpcUrl) == "set SOLANA_RPC_URL or pass --rpc-url"@,
        report_message(ReportErrorView::MissingYellowstoneEndpoint)
            == "set YELLOWSTONE_ENDPOINT or pass --yellowstone-endpoint"@,
        report_message(ReportErrorView::WrongTotal)
            == "success-count + failure-count must equal 10"@,
        report_message(ReportErrorView::TooFewFailures) == "failure-count must be at least 2"@,
        report_message(ReportErrorView::MissingJitoAuthKeypair)
            == "set JITO_AUTH_KEYPAIR or pass --jito-auth-keypair"@,
        report_message(ReportErrorView::MissingPayerKeypair)
            == "set TX_AGENT_REAL_PAYER_KEYPAIR or pass --payer-keypair"@,
        report_message(ReportErrorView::InvalidTipAccount(name)) == "invalid tip account "@ + name,
{
}

/// Settings show what they hold.
pub proof fn settings_show_what_they_hold(settings: ReportSettings)
    ensures
        settings@.request_prefix == settings.request_prefix@,
        settings@.solana_rpc_url == settings.solana_rpc_url@,
        settings@.yellowstone_endpoint == settings.yellowstone_endpoint@,
        settings@.jito_auth_keypair_path == text::opt_text(settings.jito_auth_keypair_path),
        settings@.payer_keypair_path == text::opt_text(settings.payer_keypair_path),
        settings@.tip_account == settings.tip_account@,
        settings@.tip_lamports == settings.tip_lamports,
        settings@.success_count == settings.success_count,
        settings@.failure_count == settings.failure_count,
        settings@.mcp_bind_addr == settings.mcp_bind_addr@,
        settings@.work_dir == settings.work_dir@,
        settings@.report_path == settings.report_path@,
        settings@.confirmation_timeout_secs == settings.confirmation_timeout_secs,
        settings@.leader_lookahead_slots == settings.leader_lookahead_slots,
        settings@.max_agent_wait_slots == settings.max_agent_wait_slots,
        settings@.server_ready_timeout_secs == settings.server_ready_timeout_secs,
        settings@.submission_timeout_secs == settings.submission_timeout_secs,
        settings@.yellowstone_token == text::opt_text(settings.yellowstone_token),
{
}

} // verus!
