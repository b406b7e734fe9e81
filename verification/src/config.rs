//! The settings of a run: the command line, the environment and the defaults.

use crate::solana;
use crate::solana::{keypair_pubkey, Keypair, Pubkey};
use crate::text;
use crate::text::{join2, join3, owned, parse_u32, parse_u64, parse_usize, same_text};
use vstd::prelude::*;

verus! {

/// What the program is to do.
#[derive(Clone, Copy, Debug, PartialEq, Eq, Structural)]
pub enum Mode {
    Run,
    Submit { count: usize },
    FaultExpiredBlockhash,
    PrintLog,
}

/// Why the settings cannot be used.
#[derive(Debug)]
pub enum ConfigError {
    /// `--count` stands last.
    MissingCount,
    /// The value of `--count` is no number.
    InvalidCount,
    /// `submit` does not know the argument.
    UnknownSubmitArgument(String),
    /// `fault` names no known fault.
    FaultUsage,
    /// The command is unknown.
    UnknownCommand(String),
    /// No payer key pair is set.
    MissingPayer,
}

/// What a configuration error holds.
pub ghost enum ConfigErrorView {
    MissingCount,
    InvalidCount,
    UnknownSubmitArgument(Seq<char>),
    FaultUsage,
    UnknownCommand(Seq<char>),
    MissingPayer,
}

impl View for ConfigError {
    type V = ConfigErrorView;

    open spec fn view(&self) -> ConfigErrorView {
        match *self {
            ConfigError::MissingCount => ConfigErrorView::MissingCount,
            ConfigError::InvalidCount => ConfigErrorView::InvalidCount,
            ConfigError::UnknownSubmitArgument(arg) => ConfigErrorView::UnknownSubmitArgument(arg@),
            ConfigError::FaultUsage => ConfigErrorView::FaultUsage,
            ConfigError::UnknownCommand(command) => ConfigErrorView::UnknownCommand(command@),
            ConfigError::MissingPayer => ConfigErrorView::MissingPayer,
        }
    }
}

/// What is said about a configuration error.
pub open spec fn config_message(error: ConfigErrorView) -> Seq<char> {
    match error {
        ConfigErrorView::MissingCount => "--count requires a value"@,
        ConfigErrorView::InvalidCount => "invalid --count value"@,
        ConfigErrorView::UnknownSubmitArgument(arg) => "unknown submit argument: "@ + arg,
        ConfigErrorView::FaultUsage => "usage: tx_agent fault expired-blockhash"@,
        ConfigErrorView::UnknownCommand(command) => "unknown command "@ + command
            + "; use run, submit --count N, fault expired-blockhash, or print-log"@,
        ConfigErrorView::MissingPayer => "PAYER_KEYPAIR is required for run/submit/fault modes"@,
    }
}

impl ConfigError {
    pub fn message(&self) -> (message: String)
        ensures
            message@ == config_message(self@),
    {
        match self {
            ConfigError::MissingCount => "--count requires a value".to_owned(),
            ConfigError::InvalidCount => "invalid --count value".to_owned(),
            ConfigError::UnknownSubmitArgument(arg) => join2(
                "unknown submit argument: ",
                arg.as_str(),
            ),
            ConfigError::FaultUsage => "usage: tx_agent fault expired-blockhash".to_owned(),
            ConfigError::UnknownCommand(command) => join3(
                "unknown command ",
                command.as_str(),
                "; use run, submit --count N, fault expired-blockhash, or print-log",
            ),
            ConfigError::MissingPayer =>
                "PAYER_KEYPAIR is required for run/submit/fault modes".to_owned(),
        }
    }
}

/// The variables of the environment that were set.
#[derive(Debug)]
pub struct Environment {
    pub vars: Vec<(String, String)>,
}

/// What a list of variables holds.
pub open spec fn var_views(vars: Seq<(String, String)>) -> Seq<(Seq<char>, Seq<char>)> {
    vars.map_values(|v: (String, String)| (v.0@, v.1@))
}

/// The value of the first variable of a name.
pub open spec fn lookup(vars: Seq<(Seq<char>, Seq<char>)>, name: Seq<char>) -> Option<Seq<char>>
    decreases vars.len(),
{
    if vars.len() == 0 {
        None
    } else if vars[0].0 == name {
        Some(vars[0].1)
    } else {
        lookup(vars.drop_first(), name)
    }
}

/// A value, or the default where there is none.
pub open spec fn value_or(value: Option<Seq<char>>, default: Seq<char>) -> Seq<char> {
    match value {
        Some(v) => v,
        None => default,
    }
}

/// A value that is not empty.
pub open spec fn non_empty(value: Option<Seq<char>>) -> Option<Seq<char>> {
    match value {
        Some(v) => if v.len() > 0 {
            Some(v)
        } else {
            None
        },
        None => None,
    }
}

/// A number, or the default where the value is missing or no number.
pub open spec fn number_or(value: Option<Seq<char>>, max: nat, default: nat) -> nat {
    match value {
        Some(v) => match text::parse_unsigned(v, max) {
            Some(n) => n,
            None => default,
        },
        None => default,
    }
}

impl View for Environment {
    type V = Seq<(Seq<char>, Seq<char>)>;

    open spec fn view(&self) -> Seq<(Seq<char>, Seq<char>)> {
        var_views(self.vars@)
    }
}

impl Environment {
    /// The value of a variable.
    pub fn get(&self, name: &str) -> (value: Option<String>)
        ensures
            text::opt_text(value) == lookup(self@, name@),
    {
        assert(self@.skip(0) =~= self@);
        for i in 0..self.vars.len()
            invariant
                lookup(self@, name@) == lookup(self@.skip(i as int), name@),
        {
            let ghost rest = self@.skip(i as int);
            assert(rest[0] == (self.vars@[i as int].0@, self.vars@[i as int].1@));
            assert(rest.drop_first() =~= self@.skip(i + 1));
            if same_text(self.vars[i].0.as_str(), name) {
                return Some(self.vars[i].1.clone());
            }
        }
        None
    }

    /// The value of a variable, or the default.
    pub fn get_or(&self, name: &str, default: &str) -> (value: String)
        ensures
            value@ == value_or(lookup(self@, name@), default@),
    {
        match self.get(name) {
            Some(value) => value,
            None => owned(default),
        }
    }

    /// The value of a variable, unless it is empty.
    pub fn get_non_empty(&self, name: &str) -> (value: Option<String>)
        ensures
            text::opt_text(value) == non_empty(lookup(self@, name@)),
    {
        match self.get(name) {
            Some(value) => if value.as_str().is_empty() {
                None
            } else {
                Some(value)
            },
            None => None,
        }
    }

    /// The number in a variable, or the default where it is missing or none.
    pub fn env_u64(&self, name: &str, default: u64) -> (value: u64)
        ensures
            value == number_or(lookup(self@, name@), u64::MAX as nat, default as nat),
    {
        match self.get(name) {
            Some(value) => match parse_u64(value.as_str()) {
                Some(n) => n,
                None => default,
            },
            None => default,
        }
    }

    /// The number in a variable, or the default where it is missing or none.
    pub fn env_u32(&self, name: &str, default: u32) -> (value: u32)
        ensures
            value == number_or(lookup(self@, name@), u32::MAX as nat, default as nat),
    {
        match self.get(name) {
            Some(value) => match parse_u32(value.as_str()) {
                Some(n) => n,
                None => default,
            },
            None => default,
        }
    }

    /// The number in a variable, or the default where it is missing or none.
    pub fn env_usize(&self, name: &str, default: usize) -> (value: usize)
        ensures
            value == number_or(lookup(self@, name@), usize::MAX as nat, default as nat),
    {
        match self.get(name) {
            Some(value) => match parse_usize(value.as_str()) {
                Some(n) => n,
                None => default,
            },
            None => default,
        }
    }
}

/// How often `submit` submits: the last `--count` of its arguments, or the
/// given count where there is none.
pub open spec fn submit_mode(args: Seq<Seq<char>>, count: nat) -> Result<nat, ConfigErrorView>
    decreases args.len(),
{
    if args.len() == 0 {
        Ok(count)
    } else if args[0] == "--count"@ || args[0] == "-n"@ {
        if args.len() == 1 {
            Err(ConfigErrorView::MissingCount)
        } else {
            match text::parse_unsigned(args[1], usize::MAX as nat) {
                Some(n) => submit_mode(args.skip(2), n),
                None => Err(ConfigErrorView::InvalidCount),
            }
        }
    } else {
        Err(ConfigErrorView::UnknownSubmitArgument(args[0]))
    }
}

/// What a mode holds.
pub ghost enum ModeView {
    Run,
    Submit { count: nat },
    FaultExpiredBlockhash,
    PrintLog,
}

impl View for Mode {
    type V = ModeView;

    open spec fn view(&self) -> ModeView {
        match *self {
            Mode::Run => ModeView::Run,
            Mode::Submit { count } => ModeView::Submit { count: count as nat },
            Mode::FaultExpiredBlockhash => ModeView::FaultExpiredBlockhash,
            Mode::PrintLog => ModeView::PrintLog,
        }
    }
}

/// What the arguments ask for.
pub open spec fn mode_of(args: Seq<Seq<char>>, env: Seq<(Seq<char>, Seq<char>)>) -> Result<
    ModeView,
    ConfigErrorView,
> {
    if args.len() == 0 || args[0] == "run"@ {
        Ok(ModeView::Run)
    } else if args[0] == "submit"@ {
        match submit_mode(
            args.skip(1),
            number_or(lookup(env, "SUBMIT_COUNT"@), usize::MAX as nat, 10),
        ) {
            Ok(count) => Ok(ModeView::Submit { count }),
            Err(err) => Err(err),
        }
    } else if args[0] == "fault"@ {
        if args.len() > 1 && args[1] == "expired-blockhash"@ {
            Ok(ModeView::FaultExpiredBlockhash)
        } else {
            Err(ConfigErrorView::FaultUsage)
        }
    } else if args[0] == "print-log"@ {
        Ok(ModeView::PrintLog)
    } else {
        Err(ConfigErrorView::UnknownCommand(args[0]))
    }
}

/// The count that the arguments of `submit` ask for.
fn parse_submit(args: &Vec<String>, default: usize) -> (out: Result<usize, ConfigError>)
    requires
        args@.len() > 0,
    ensures
        match out {
            Ok(count) => submit_mode(text::texts(args@).skip(1), default as nat) == Ok::<
                nat,
                ConfigErrorView,
            >(count as nat),
            Err(err) => submit_mode(text::texts(args@).skip(1), default as nat) == Err::<
                nat,
                ConfigErrorView,
            >(err@),
        },
{
    let ghost all = text::texts(args@);
    let mut count: usize = default;
    let mut i: usize = 1;
    while i < args.len()
        invariant
            1 <= i <= args.len(),
            all == text::texts(args@),
            submit_mode(all.skip(1), default as nat) == submit_mode(
                all.skip(i as int),
                count as nat,
            ),
        decreases args.len() - i,
    {
        let ghost rest = all.skip(i as int);
        assert(rest[0] == args@[i as int]@);
        let arg = args[i].as_str();
        if same_text(arg, "--count") || same_text(arg, "-n") {
            if i + 1 >= args.len() {
                return Err(ConfigError::MissingCount);
            }
            assert(rest[1] == args@[i + 1]@);
            assert(rest.skip(2) =~= all.skip(i + 2));
            match parse_usize(args[i + 1].as_str()) {
                Some(n) => {
                    count = n;
                },
                None => {
                    return Err(ConfigError::InvalidCount);
                },
            }
            i = i + 2;
        } else {
            return Err(ConfigError::UnknownSubmitArgument(owned(arg)));
        }
    }
    Ok(count)
}

/// What the arguments ask for.
pub fn parse_mode(args: &Vec<String>, env: &Environment) -> (out: Result<Mode, ConfigError>)
    ensures
        match out {
            Ok(mode) => mode_of(text::texts(args@), env@) == Ok::<ModeView, ConfigErrorView>(mode@),
            Err(err) => mode_of(text::texts(args@), env@) == Err::<ModeView, ConfigErrorView>(err@),
        },
{
    if args.len() == 0 {
        return Ok(Mode::Run);
    }
    assert(text::texts(args@)[0] == args@[0]@);
    let command = args[0].as_str();
    if same_text(command, "run") {
        Ok(Mode::Run)
    } else if same_text(command, "submit") {
        let default: usize = env.env_usize("SUBMIT_COUNT", 10);
        match parse_submit(args, default) {
            Ok(count) => Ok(Mode::Submit { count }),
            Err(err) => Err(err),
        }
    } else if same_text(command, "fault") {
        if args.len() > 1 && same_text(args[1].as_str(), "expired-blockhash") {
            assert(text::texts(args@)[1] == args@[1]@);
            Ok(Mode::FaultExpiredBlockhash)
        } else {
            Err(ConfigError::FaultUsage)
        }
    } else if same_text(command, "print-log") {
        Ok(Mode::PrintLog)
    } else {
        Err(ConfigError::UnknownCommand(owned(command)))
    }
}

/// What the operator lets the agent do.
#[derive(Clone, Copy, Debug, PartialEq, Eq, Structural)]
pub struct AgentLimits {
    pub max_agent_tip_lamports: u64,
    pub max_agent_retries: u32,
    pub max_agent_wait_slots: u64,
}

impl AgentLimits {
    /// Whether the limits are those of an environment.
    pub open spec fn is_from(self, env: Seq<(Seq<char>, Seq<char>)>) -> bool {
        &&& self.max_agent_tip_lamports == number_or(
            lookup(env, "MAX_AGENT_TIP_LAMPORTS"@),
            u64::MAX as nat,
            u64::MAX as nat,
        )
        &&& self.max_agent_retries == number_or(
            lookup(env, "MAX_AGENT_RETRIES"@),
            u32::MAX as nat,
            0,
        )
        &&& self.max_agent_wait_slots == number_or(
            lookup(env, "MAX_AGENT_WAIT_SLOTS"@),
            u64::MAX as nat,
            3,
        )
    }

    /// The limits that the environment gives. Where it is silent, any tip will
    /// do, nothing is tried twice and a wait takes three slots at most.
    pub fn from_env(env: &Environment) -> (limits: AgentLimits)
        ensures
            limits.is_from(env@),
    {
        AgentLimits {
            max_agent_tip_lamports: env.env_u64("MAX_AGENT_TIP_LAMPORTS", u64::MAX),
            max_agent_retries: env.env_u32("MAX_AGENT_RETRIES", 0),
            max_agent_wait_slots: env.env_u64("MAX_AGENT_WAIT_SLOTS", 3),
        }
    }
}

/// The file of the payer's key pair, where one is set.
pub open spec fn payer_path(payer: Option<Seq<char>>) -> Result<Seq<char>, ConfigErrorView> {
    match payer {
        Some(path) => Ok(path),
        None => Err(ConfigErrorView::MissingPayer),
    }
}

/// The file of the key pair that authenticates, and whether it is the payer's.
pub open spec fn auth_path(own: Option<Seq<char>>, payer: Option<Seq<char>>) -> Result<
    (Seq<char>, bool),
    ConfigErrorView,
> {
    match own {
        Some(path) => Ok((path, false)),
        None => match payer {
            Some(path) => Ok((path, true)),
            None => Err(ConfigErrorView::MissingPayer),
        },
    }
}

/// The settings of a run.
#[derive(Clone, Debug)]
pub struct Config {
    pub mode: Mode,
    pub yellowstone_endpoint: String,
    pub yellowstone_token: Option<String>,
    pub solana_rpc_url: String,
    pub payer_keypair_path: Option<String>,
    pub jito_auth_keypair_path: Option<String>,
    pub jito_block_engine_url: String,
    pub lifecycle_log_path: String,
    pub submit_count: usize,
    pub leader_lookahead_slots: u64,
    pub tip_floor_lamports: u64,
    pub self_transfer_lamports: u64,
    pub confirmation_timeout_secs: u64,
    pub openai_api_key: Option<String>,
    pub openai_model: String,
    pub max_agent_tip_lamports: u64,
    pub max_agent_retries: u32,
    pub max_agent_wait_slots: u64,
}

impl Config {
    /// What the settings let the agent do.
    pub open spec fn limits(self) -> AgentLimits {
        AgentLimits {
            max_agent_tip_lamports: self.max_agent_tip_lamports,
            max_agent_retries: self.max_agent_retries,
            max_agent_wait_slots: self.max_agent_wait_slots,
        }
    }

    /// Whether the settings are those of a mode and an environment.
    pub open spec fn is_from(self, mode: ModeView, env: Seq<(Seq<char>, Seq<char>)>) -> bool {
        let u64_max = u64::MAX as nat;
        &&& self.mode@ == mode
        &&& self.submit_count == match mode {
            ModeView::Submit { count } => count,
            _ => number_or(lookup(env, "SUBMIT_COUNT"@), usize::MAX as nat, 1),
        }
        &&& self.yellowstone_endpoint@ == value_or(
            lookup(env, "YELLOWSTONE_ENDPOINT"@),
            "https://yellowstone.eu.fluxrpc.com/"@,
        )
        &&& text::opt_text(self.yellowstone_token) == non_empty(lookup(env, "YELLOWSTONE_TOKEN"@))
        &&& self.solana_rpc_url@ == value_or(
            lookup(env, "SOLANA_RPC_URL"@),
            "https://api.mainnet-beta.solana.com"@,
        )
        &&& text::opt_text(self.payer_keypair_path) == non_empty(lookup(env, "PAYER_KEYPAIR"@))
        &&& text::opt_text(self.jito_auth_keypair_path) == non_empty(
            lookup(env, "JITO_AUTH_KEYPAIR"@),
        )
        &&& self.jito_block_engine_url@ == value_or(
            lookup(env, "JITO_BLOCK_ENGINE_URL"@),
            "https://frankfurt.mainnet.block-engine.jito.wtf"@,
        )
        &&& self.lifecycle_log_path@ == value_or(
            lookup(env, "LIFECYCLE_LOG"@),
            "lifecycle.log.jsonl"@,
        )
        &&& self.leader_lookahead_slots == number_or(
            lookup(env, "LEADER_LOOKAHEAD_SLOTS"@),
            u64_max,
            3,
        )
        &&& self.tip_floor_lamports == number_or(lookup(env, "TIP_FLOOR_LAMPORTS"@), u64_max, 1_000)
        &&& self.self_transfer_lamports == number_or(
            lookup(env, "SELF_TRANSFER_LAMPORTS"@),
            u64_max,
            1,
        )
        &&& self.confirmation_timeout_secs == number_or(
            lookup(env, "CONFIRMATION_TIMEOUT_SECS"@),
            u64_max,
            90,
        )
        &&& text::opt_text(self.openai_api_key) == non_empty(lookup(env, "OPENAI_API_KEY"@))
        &&& self.openai_model@ == value_or(lookup(env, "OPENAI_MODEL"@), "gpt-4.1-mini"@)
        &&& self.limits().is_from(env)
    }

    /// The settings that the arguments and the environment give.
    pub fn from_env_and_args(args: &Vec<String>, env: &Environment) -> (out: Result<
        Config,
        ConfigError,
    >)
        ensures
            match (mode_of(text::texts(args@), env@), out) {
                (Ok(mode), Ok(config)) => config.is_from(mode, env@),
                (Err(why), Err(err)) => err@ == why,
                _ => false,
            },
    {
        let mode = match parse_mode(args, env) {
            Ok(mode) => mode,
            Err(err) => return Err(err),
        };
        let submit_count: usize = match mode {
            Mode::Submit { count } => count,
            _ => env.env_usize("SUBMIT_COUNT", 1),
        };
        let limits = AgentLimits::from_env(env);
        Ok(
            Config {
                mode,
                yellowstone_endpoint: env.get_or(
                    "YELLOWSTONE_ENDPOINT",
                    "https://yellowstone.eu.fluxrpc.com/",
                ),
                yellowstone_token: env.get_non_empty("YELLOWSTONE_TOKEN"),
                solana_rpc_url: env.get_or("SOLANA_RPC_URL", "https://api.mainnet-beta.solana.com"),
                payer_keypair_path: env.get_non_empty("PAYER_KEYPAIR"),
                jito_auth_keypair_path: env.get_non_empty("JITO_AUTH_KEYPAIR"),
                jito_block_engine_url: env.get_or(
                    "JITO_BLOCK_ENGINE_URL",
                    "https://frankfurt.mainnet.block-engine.jito.wtf",
                ),
                lifecycle_log_path: env.get_or("LIFECYCLE_LOG", "lifecycle.log.jsonl"),
                submit_count,
                leader_lookahead_slots: env.env_u64("LEADER_LOOKAHEAD_SLOTS", 3),
                tip_floor_lamports: env.env_u64("TIP_FLOOR_LAMPORTS", 1_000),
                self_transfer_lamports: env.env_u64("SELF_TRANSFER_LAMPORTS", 1),
                confirmation_timeout_secs: env.env_u64("CONFIRMATION_TIMEOUT_SECS", 90),
                openai_api_key: env.get_non_empty("OPENAI_API_KEY"),
                openai_model: env.get_or("OPENAI_MODEL", "gpt-4.1-mini"),
                max_agent_tip_lamports: limits.max_agent_tip_lamports,
                max_agent_retries: limits.max_agent_retries,
                max_agent_wait_slots: limits.max_agent_wait_slots,
            },
        )
    }

    /// The file of the payer's key pair.
    pub fn payer_keypair(&self) -> (out: Result<String, ConfigError>)
        ensures
            match (payer_path(text::opt_text(self.payer_keypair_path)), out) {
                (Ok(path), Ok(found)) => found@ == path,
                (Err(why), Err(err)) => err@ == why,
                _ => false,
            },
    {
        match &self.payer_keypair_path {
            Some(path) => Ok(path.clone()),
            None => Err(ConfigError::MissingPayer),
        }
    }

    /// The file of the key pair that authenticates with the block engine, and
    /// whether it is the payer's: that stands in where no other is set.
    pub fn jito_auth_keypair(&self) -> (out: Result<(String, bool), ConfigError>)
        ensures
            match (
                auth_path(
                    text::opt_text(self.jito_auth_keypair_path),
                    text::opt_text(self.payer_keypair_path),
                ),
                out,
            ) {
                (Ok(file), Ok(found)) => found.0@ == file.0 && found.1 == file.1,
                (Err(why), Err(err)) => err@ == why,
                _ => false,
            },
    {
        match &self.jito_auth_keypair_path {
            Some(path) => Ok((path.clone(), false)),
            None => match self.payer_keypair() {
                Ok(path) => Ok((path, true)),
                Err(err) => Err(err),
            },
        }
    }

    /// The payer's address, by the key pair that was read from its file.
    pub fn payer_pubkey(&self, payer: &Keypair) -> (out: Result<Pubkey, ConfigError>)
        ensures
            match out {
                Ok(key) => self.payer_keypair_path is Some && key@ == solana::ed25519_public(
                    payer@,
                ),
                Err(err) => self.payer_keypair_path is None && err@
                    == ConfigErrorView::MissingPayer,
            },
    {
        match self.payer_keypair() {
            Ok(_) => Ok(keypair_pubkey(payer)),
            Err(err) => Err(err),
        }
    }
}

// ---------------------------------------------------------------------------
// What the settings are for
// ---------------------------------------------------------------------------

/// A variable is found under its name behind variables of other names, and one
/// that is not set is not found.
pub proof fn variables_are_found_by_name(
    before: Seq<(Seq<char>, Seq<char>)>,
    name: Seq<char>,
    value: Seq<char>,
    after: Seq<(Seq<char>, Seq<char>)>,
)
    requires
        forall|i: int| 0 <= i < before.len() ==> (#[trigger] before[i]).0 != name,
    ensures
        lookup(before + seq![(name, value)] + after, name) == Some(value),
        lookup(before, name) is None,
    decreases before.len(),
{
    let all = before + seq![(name, value)] + after;
    if before.len() == 0 {
        assert(all[0] == (name, value));
    } else {
        assert(all[0] == before[0]);
        let rest = before.drop_first();
        assert forall|i: int| 0 <= i < rest.len() implies (#[trigger] rest[i]).0 != name by {
            assert(rest[i] == before[i + 1]);
        }
        variables_are_found_by_name(rest, name, value, after);
        assert(all.drop_first() =~= rest + seq![(name, value)] + after);
    }
}

/// A value that is there counts, and the default only where there is none; a
/// number counts where it can be read and fits; an empty value counts as none.
pub proof fn defaults_stand_in(value: Seq<char>, default: Seq<char>, n: nat, max: nat, other: nat)
    ensures
        value_or(Some(value), default) == value,
        value_or(None, default) == default,
        value.len() > 0 ==> non_empty(Some(value)) == Some(value),
        value.len() == 0 ==> non_empty(Some(value)) is None,
        non_empty(None) is None,
        n <= max ==> number_or(Some(text::decimal(n)), max, other) == n,
        text::parse_unsigned(value, max) is None ==> number_or(Some(value), max, other) == other,
        number_or(None, max, other) == other,
{
    if n <= max {
        text::decimal_reads_back(n, max);
    }
}

/// Each command asks for its mode, whatever stands behind it but for the fault's
/// name and the arguments of `submit`; no command asks for a run.
pub proof fn commands_ask_for_their_mode(
    rest: Seq<Seq<char>>,
    env: Seq<(Seq<char>, Seq<char>)>,
    count: nat,
    other: Seq<char>,
)
    ensures
        mode_of(Seq::empty(), env) == Ok::<ModeView, ConfigErrorView>(ModeView::Run),
        mode_of(seq!["run"@] + rest, env) == Ok::<ModeView, ConfigErrorView>(ModeView::Run),
        mode_of(seq!["print-log"@] + rest, env) == Ok::<ModeView, ConfigErrorView>(
            ModeView::PrintLog,
        ),
        mode_of(seq!["fault"@, "expired-blockhash"@] + rest, env) == Ok::<
            ModeView,
            ConfigErrorView,
        >(ModeView::FaultExpiredBlockhash),
        mode_of(seq!["fault"@], env) == Err::<ModeView, ConfigErrorView>(
            ConfigErrorView::FaultUsage,
        ),
        other != "expired-blockhash"@ ==> mode_of(seq!["fault"@, other] + rest, env) == Err::<
            ModeView,
            ConfigErrorView,
        >(ConfigErrorView::FaultUsage),
        lookup(env, "SUBMIT_COUNT"@) is None ==> mode_of(seq!["submit"@], env) == Ok::<
            ModeView,
            ConfigErrorView,
        >(ModeView::Submit { count: 10 }),
        count <= usize::MAX && lookup(env, "SUBMIT_COUNT"@) == Some(text::decimal(count))
            ==> mode_of(seq!["submit"@], env) == Ok::<ModeView, ConfigErrorView>(
            ModeView::Submit { count },
        ),
        count <= usize::MAX ==> mode_of(seq!["submit"@, "--count"@, text::decimal(count)], env)
            == Ok::<ModeView, ConfigErrorView>(ModeView::Submit { count }),
        count <= usize::MAX ==> mode_of(seq!["submit"@, "-n"@, text::decimal(count)], env) == Ok::<
            ModeView,
            ConfigErrorView,
        >(ModeView::Submit { count }),
        other != "run"@ && other != "submit"@ && other != "fault"@ && other != "print-log"@
            ==> mode_of(seq![other] + rest, env) == Err::<ModeView, ConfigErrorView>(
            ConfigErrorView::UnknownCommand(other),
        ),
{
    reveal_strlit("run");
    reveal_strlit("submit");
    reveal_strlit("fault");
    reveal_strlit("print-log");
    assert("run"@.len() == 3 && "submit"@.len() == 6 && "fault"@.len() == 5 && "print-log"@.len()
        == 9);
    assert((seq!["run"@] + rest)[0] == "run"@);
    assert((seq!["print-log"@] + rest)[0] == "print-log"@);
    assert((seq!["fault"@, "expired-blockhash"@] + rest)[0] == "fault"@);
    assert((seq!["fault"@, "expired-blockhash"@] + rest)[1] == "expired-blockhash"@);
    assert((seq!["fault"@, other] + rest)[0] == "fault"@);
    assert((seq!["fault"@, other] + rest)[1] == other);
    assert((seq![other] + rest)[0] == other);
    assert(seq!["submit"@].skip(1) =~= Seq::<Seq<char>>::empty());
    if count <= usize::MAX {
        text::decimal_reads_back(count, usize::MAX as nat);
    }
    let long = seq!["submit"@, "--count"@, text::decimal(count)];
    assert(long.skip(1)[0] == "--count"@ && long.skip(1)[1] == text::decimal(count));
    assert(long.skip(1).skip(2) =~= Seq::<Seq<char>>::empty());
    assert(submit_mode(long.skip(1).skip(2), count) == Ok::<nat, ConfigErrorView>(count));
    let short = seq!["submit"@, "-n"@, text::decimal(count)];
    assert(short.skip(1)[0] == "-n"@ && short.skip(1)[1] == text::decimal(count));
    assert(short.skip(1).skip(2) =~= Seq::<Seq<char>>::empty());
    assert(submit_mode(short.skip(1).skip(2), count) == Ok::<nat, ConfigErrorView>(count));
}

/// The last count of `submit` wins: arguments behind others act on what those have
/// set. One that is no count, or has no number, is refused.
pub proof fn the_last_count_wins(first: Seq<Seq<char>>, second: Seq<Seq<char>>, count: nat)
    ensures
        first.len() % 2 == 0 ==> match submit_mode(first, count) {
            Ok(next) => submit_mode(first + second, count) == submit_mode(second, next),
            Err(why) => submit_mode(first + second, count) == Err::<nat, ConfigErrorView>(why),
        },
        first.len() > 0 && first[0] != "--count"@ && first[0] != "-n"@ ==> submit_mode(first, count)
            == Err::<nat, ConfigErrorView>(ConfigErrorView::UnknownSubmitArgument(first[0])),
        first.len() == 1 && (first[0] == "--count"@ || first[0] == "-n"@) ==> submit_mode(
            first,
            count,
        ) == Err::<nat, ConfigErrorView>(ConfigErrorView::MissingCount),
        first.len() >= 2 && (first[0] == "--count"@ || first[0] == "-n"@) && text::parse_unsigned(
            first[1],
            usize::MAX as nat,
        ) is None ==> submit_mode(first, count) == Err::<nat, ConfigErrorView>(
            ConfigErrorView::InvalidCount,
        ),
    decreases first.len(),
{
    if first.len() == 0 {
        assert(first + second =~= second);
    } else if first.len() % 2 == 0 {
        assert((first + second)[0] == first[0]);
        assert((first + second)[1] == first[1]);
        assert((first + second).skip(2) =~= first.skip(2) + second);
        if let Some(n) = text::parse_unsigned(first[1], usize::MAX as nat) {
            the_last_count_wins(first.skip(2), second, n);
        }
    }
}

/// A variable that is set and can be read decides the setting of its name.
pub proof fn variables_set_what_they_name(
    config: Config,
    mode: ModeView,
    env: Seq<(Seq<char>, Seq<char>)>,
    value: Seq<char>,
    n: u64,
)
    requires
        config.is_from(mode, env),
    ensures
        lookup(env, "LEADER_LOOKAHEAD_SLOTS"@) == Some(text::decimal(n as nat)) ==> config.leader_lookahead_slots == n,
        lookup(env, "TIP_FLOOR_LAMPORTS"@) == Some(text::decimal(n as nat)) ==> config.tip_floor_lamports == n,
        lookup(env, "SELF_TRANSFER_LAMPORTS"@) == Some(text::decimal(n as nat)) ==> config.self_transfer_lamports == n,
        lookup(env, "CONFIRMATION_TIMEOUT_SECS"@) == Some(text::decimal(n as nat)) ==> config.confirmation_timeout_secs == n,
        lookup(env, "MAX_AGENT_TIP_LAMPORTS"@) == Some(text::decimal(n as nat)) ==> config.max_agent_tip_lamports == n,
        lookup(env, "MAX_AGENT_WAIT_SLOTS"@) == Some(text::decimal(n as nat)) ==> config.max_agent_wait_slots == n,
        lookup(env, "MAX_AGENT_RETRIES"@) == Some(text::decimal(n as nat)) && n <= u32::MAX
            ==> config.max_agent_retries == n,
        lookup(env, "YELLOWSTONE_ENDPOINT"@) == Some(value) ==> config.yellowstone_endpoint@ == value,
        lookup(env, "SOLANA_RPC_URL"@) == Some(value) ==> config.solana_rpc_url@ == value,
        lookup(env, "JITO_BLOCK_ENGINE_URL"@) == Some(value) ==> config.jito_block_engine_url@ == value,
        lookup(env, "LIFECYCLE_LOG"@) == Some(value) ==> config.lifecycle_log_path@ == value,
        lookup(env, "OPENAI_MODEL"@) == Some(value) ==> config.openai_model@ == value,
        lookup(env, "YELLOWSTONE_TOKEN"@) == Some(value) && value.len() > 0 ==> text::opt_text(
            config.yellowstone_token,
        ) == Some(value),
        lookup(env, "YELLOWSTONE_TOKEN"@) == Some(Seq::<char>::empty()) ==> config.yellowstone_token is None,
        lookup(env, "PAYER_KEYPAIR"@) == Some(value) && value.len() > 0 ==> text::opt_text(
            config.payer_keypair_path,
        ) == Some(value),
        lookup(env, "PAYER_KEYPAIR"@) == Some(Seq::<char>::empty()) ==> config.payer_keypair_path is None,
        lookup(env, "JITO_AUTH_KEYPAIR"@) == Some(value) && value.len() > 0 ==> text::opt_text(
            config.jito_auth_keypair_path,
        ) == Some(value),
        lookup(env, "JITO_AUTH_KEYPAIR"@) == Some(Seq::<char>::empty()) ==> config.jito_auth_keypair_path is None,
        lookup(env, "OPENAI_API_KEY"@) == Some(value) && value.len() > 0 ==> text::opt_text(
            config.openai_api_key,
        ) == Some(value),
        lookup(env, "OPENAI_API_KEY"@) == Some(Seq::<char>::empty()) ==> config.openai_api_key is None,
        config.mode@ == mode,
        mode matches ModeView::Submit { count } ==> config.submit_count == count,
{
    text::decimal_reads_back(n as nat, u64::MAX as nat);
    if n <= u32::MAX {
        text::decimal_reads_back(n as nat, u32::MAX as nat);
    }
}

/// Without any variable the settings are the defaults.
pub proof fn unset_variables_leave_the_defaults(config: Config, mode: ModeView)
    requires
        config.is_from(mode, Seq::empty()),
    ensures
        config.leader_lookahead_slots == 3,
        config.tip_floor_lamports == 1000,
        config.self_transfer_lamports == 1,
        config.confirmation_timeout_secs == 90,
        config.max_agent_tip_lamports == u64::MAX,
        config.max_agent_wait_slots == 3,
        config.max_agent_retries == 0,
        config.yellowstone_endpoint@ == "https://yellowstone.eu.fluxrpc.com/"@,
        config.solana_rpc_url@ == "https://api.mainnet-beta.solana.com"@,
        config.jito_block_engine_url@ == "https://frankfurt.mainnet.block-engine.jito.wtf"@,
        config.lifecycle_log_path@ == "lifecycle.log.jsonl"@,
        config.openai_model@ == "gpt-4.1-mini"@,
        config.yellowstone_token is None,
        config.payer_keypair_path is None,
        config.jito_auth_keypair_path is None,
        config.openai_api_key is None,
        !(mode is Submit) ==> config.submit_count == 1,
{
}

/// The key pair of its own authenticates where it is set, and the payer's stands
/// in for it where it is not; without either there is none.
pub proof fn the_payer_stands_in(own: Seq<char>, payer: Seq<char>, any: Option<Seq<char>>)
    ensures
        auth_path(Some(own), any) == Ok::<(Seq<char>, bool), ConfigErrorView>((own, false)),
        auth_path(None, Some(payer)) == Ok::<(Seq<char>, bool), ConfigErrorView>((payer, true)),
        auth_path(None, None) == Err::<(Seq<char>, bool), ConfigErrorView>(
            ConfigErrorView::MissingPayer,
        ),
        payer_path(Some(payer)) == Ok::<Seq<char>, ConfigErrorView>(payer),
        payer_path(None) == Err::<Seq<char>, ConfigErrorView>(ConfigErrorView::MissingPayer),
{
}

/// Each error says what was wrong, and names the argument where there is one.
pub proof fn errors_say_what_was_wrong(name: Seq<char>)
    ensures
        config_message(ConfigErrorView::MissingCount) == "--count requires a value"@,
        config_message(ConfigErrorView::InvalidCount) == "invalid --count value"@,
        config_message(ConfigErrorView::UnknownSubmitArgument(name)) == "unknown submit argument: "@
            + name,
        config_message(ConfigErrorView::FaultUsage) == "usage: tx_agent fault expired-blockhash"@,
        config_message(ConfigErrorView::UnknownCommand(name)) == "unknown command "@ + name
            + "; use run, submit --count N, fault expired-blockhash, or print-log"@,
        config_message(ConfigErrorView::MissingPayer)
            == "PAYER_KEYPAIR is required for run/submit/fault modes"@,
{
}

} // verus!
