//! The limits within which the agent may act.

use crate::agent;
use crate::agent::OperationalDecision;
use crate::config::Config;
use crate::text;
use crate::text::{decimal_text, join4};
use vstd::prelude::*;

verus! {

/// What the agent may do.
#[derive(Clone, Copy, Debug, PartialEq, Eq, Structural)]
pub struct PolicyLimits {
    pub min_tip_lamports: u64,
    pub max_tip_lamports: u64,
    pub max_retries: u32,
    pub max_wait_slots: u64,
}

impl PolicyLimits {
    pub fn from_config(config: &Config) -> (limits: PolicyLimits)
        ensures
            limits == limits_in(*config),
    {
        PolicyLimits {
            min_tip_lamports: config.tip_floor_lamports,
            max_tip_lamports: config.max_agent_tip_lamports,
            max_retries: config.max_agent_retries,
            max_wait_slots: config.max_agent_wait_slots,
        }
    }
}

/// The limits that settings ask for.
pub open spec fn limits_in(config: Config) -> PolicyLimits {
    PolicyLimits {
        min_tip_lamports: config.tip_floor_lamports,
        max_tip_lamports: config.max_agent_tip_lamports,
        max_retries: config.max_agent_retries,
        max_wait_slots: config.max_agent_wait_slots,
    }
}

/// A decision within the limits.
#[derive(Clone, Debug)]
pub struct ValidatedDecision {
    pub decision: OperationalDecision,
    pub limits: PolicyLimits,
}

/// Why a decision is refused.
#[derive(Clone, Copy, Debug, PartialEq, Eq, Structural)]
pub enum PolicyError {
    /// The tip is over the maximum.
    TipTooHigh { tip_lamports: u64, max_tip_lamports: u64 },
    /// It would submit after too many attempts.
    TooManyAttempts { attempt: u32, max_retries: u32 },
}

/// What is said about a refusal.
pub open spec fn policy_message(error: PolicyError) -> Seq<char> {
    match error {
        PolicyError::TipTooHigh { tip_lamports, max_tip_lamports } => "agent tip "@ + text::decimal(
            tip_lamports as nat,
        ) + " exceeds policy max "@ + text::decimal(max_tip_lamports as nat),
        PolicyError::TooManyAttempts { attempt, max_retries } =>
            "agent requested write action on attempt "@ + text::decimal(attempt as nat)
            + ", above max retries "@ + text::decimal(max_retries as nat),
    }
}

impl PolicyError {
    pub fn message(&self) -> (message: String)
        ensures
            message@ == policy_message(*self),
    {
        match *self {
            PolicyError::TipTooHigh { tip_lamports, max_tip_lamports } => join4(
                "agent tip ",
                decimal_text(tip_lamports).as_str(),
                " exceeds policy max ",
                decimal_text(max_tip_lamports).as_str(),
            ),
            PolicyError::TooManyAttempts { attempt, max_retries } => join4(
                "agent requested write action on attempt ",
                decimal_text(attempt as u64).as_str(),
                ", above max retries ",
                decimal_text(max_retries as u64).as_str(),
            ),
        }
    }
}

/// A decision held to the limits: the tip is raised to the minimum and the wait
/// cut to the maximum; a tip over the maximum, or a submission after too many
/// attempts, is refused.
pub open spec fn limited(decision: agent::DecisionView, attempt: u32, limits: PolicyLimits) -> Result<
    agent::DecisionView,
    PolicyError,
> {
    let tip = agent::larger(decision.tip_lamports, limits.min_tip_lamports);
    if tip > limits.max_tip_lamports {
        Err(
            PolicyError::TipTooHigh {
                tip_lamports: tip,
                max_tip_lamports: limits.max_tip_lamports,
            },
        )
    } else if decision.writes() && attempt > limits.max_retries {
        Err(PolicyError::TooManyAttempts { attempt, max_retries: limits.max_retries })
    } else {
        Ok(
            agent::DecisionView {
                tip_lamports: tip,
                max_wait_slots: agent::smaller(decision.max_wait_slots, limits.max_wait_slots),
                ..decision
            },
        )
    }
}

/// Holds a decision to the limits.
pub fn validate_decision(
    decision: OperationalDecision,
    attempt: u32,
    limits: &PolicyLimits,
) -> (out: Result<ValidatedDecision, PolicyError>)
    ensures
        match out {
            Ok(validated) => {
                &&& limited(decision@, attempt, *limits) == Ok::<agent::DecisionView, PolicyError>(
                    validated.decision@,
                )
                &&& validated.limits == *limits
            },
            Err(err) => limited(decision@, attempt, *limits) == Err::<
                agent::DecisionView,
                PolicyError,
            >(err),
        },
{
    let mut decision = decision;
    if decision.tip_lamports < limits.min_tip_lamports {
        decision.tip_lamports = limits.min_tip_lamports;
    }
    if decision.tip_lamports > limits.max_tip_lamports {
        return Err(
            PolicyError::TipTooHigh {
                tip_lamports: decision.tip_lamports,
                max_tip_lamports: limits.max_tip_lamports,
            },
        );
    }
    if decision.max_wait_slots > limits.max_wait_slots {
        decision.max_wait_slots = limits.max_wait_slots;
    }
    if decision.is_write_action() && attempt > limits.max_retries {
        return Err(PolicyError::TooManyAttempts { attempt, max_retries: limits.max_retries });
    }
    Ok(ValidatedDecision { decision, limits: *limits })
}

/// What passes the policy is within its limits, and says what was decided.
pub proof fn accepted_decisions_are_within_limits(
    decision: agent::DecisionView,
    attempt: u32,
    limits: PolicyLimits,
)
    requires
        limited(decision, attempt, limits) is Ok,
    ensures
        ({
            let accepted = limited(decision, attempt, limits)->Ok_0;
            &&& limits.min_tip_lamports <= accepted.tip_lamports <= limits.max_tip_lamports
            &&& accepted.max_wait_slots <= limits.max_wait_slots
            &&& accepted.writes() ==> attempt <= limits.max_retries
            &&& accepted.action == decision.action
            &&& accepted.reason == decision.reason
            &&& accepted.refresh_blockhash == decision.refresh_blockhash
            &&& accepted.source == decision.source
        }),
{
}

/// What has passed the policy passes it again unchanged.
pub proof fn policy_is_idempotent(
    decision: agent::DecisionView,
    attempt: u32,
    limits: PolicyLimits,
)
    requires
        limited(decision, attempt, limits) is Ok,
    ensures
        limited(limited(decision, attempt, limits)->Ok_0, attempt, limits) == limited(
            decision,
            attempt,
            limits,
        ),
{
}

/// A decision that is within the limits already passes unchanged.
pub proof fn decisions_within_limits_pass(
    decision: agent::DecisionView,
    attempt: u32,
    limits: PolicyLimits,
)
    requires
        limits.min_tip_lamports <= decision.tip_lamports <= limits.max_tip_lamports,
        decision.max_wait_slots <= limits.max_wait_slots,
        decision.writes() ==> attempt <= limits.max_retries,
    ensures
        limited(decision, attempt, limits) == Ok::<agent::DecisionView, PolicyError>(decision),
{
}

/// A decision is refused for its tip exactly where the tip, raised to the minimum,
/// is over the maximum.
pub proof fn high_tips_are_refused(
    decision: agent::DecisionView,
    attempt: u32,
    limits: PolicyLimits,
)
    ensures
        decision.tip_lamports > limits.max_tip_lamports && decision.tip_lamports
            >= limits.min_tip_lamports ==> limited(decision, attempt, limits) == Err::<
            agent::DecisionView,
            PolicyError,
        >(
            PolicyError::TipTooHigh {
                tip_lamports: decision.tip_lamports,
                max_tip_lamports: limits.max_tip_lamports,
            },
        ),
        limits.min_tip_lamports > limits.max_tip_lamports && decision.tip_lamports
            < limits.min_tip_lamports ==> limited(decision, attempt, limits) == Err::<
            agent::DecisionView,
            PolicyError,
        >(
            PolicyError::TipTooHigh {
                tip_lamports: limits.min_tip_lamports,
                max_tip_lamports: limits.max_tip_lamports,
            },
        ),
        decision.tip_lamports <= limits.max_tip_lamports && limits.min_tip_lamports
            <= limits.max_tip_lamports ==> !(limited(decision, attempt, limits) matches Err(
            PolicyError::TipTooHigh { .. },
        )),
{
}

/// A decision with a fitting tip is refused for the attempts exactly where it
/// would submit after more of them than are allowed; any other one passes.
pub proof fn late_submissions_are_refused(
    decision: agent::DecisionView,
    attempt: u32,
    limits: PolicyLimits,
)
    requires
        decision.tip_lamports <= limits.max_tip_lamports,
        limits.min_tip_lamports <= limits.max_tip_lamports,
    ensures
        ({
            let submits = decision.action == agent::OperationalAction::SubmitNow || decision.action
                == agent::OperationalAction::Retry;
            &&& submits && attempt > limits.max_retries ==> limited(decision, attempt, limits)
                == Err::<agent::DecisionView, PolicyError>(
                PolicyError::TooManyAttempts { attempt, max_retries: limits.max_retries },
            )
            &&& !submits || attempt <= limits.max_retries ==> limited(decision, attempt, limits)
                is Ok
        }),
{
}

/// A decision that passes has its own tip, or the minimum where that is more, and
/// its own wait, or the maximum where that is less.
pub proof fn passing_decisions_are_fitted(
    decision: agent::DecisionView,
    attempt: u32,
    limits: PolicyLimits,
)
    requires
        limited(decision, attempt, limits) is Ok,
    ensures
        ({
            let fitted = limited(decision, attempt, limits)->Ok_0;
            &&& decision.tip_lamports >= limits.min_tip_lamports ==> fitted.tip_lamports
                == decision.tip_lamports
            &&& decision.tip_lamports < limits.min_tip_lamports ==> fitted.tip_lamports
                == limits.min_tip_lamports
            &&& decision.max_wait_slots <= limits.max_wait_slots ==> fitted.max_wait_slots
                == decision.max_wait_slots
            &&& decision.max_wait_slots > limits.max_wait_slots ==> fitted.max_wait_slots
                == limits.max_wait_slots
        }),
{
}

/// The floor of the settings is the least tip, and what the operator allows the
/// agent is the most.
pub proof fn settings_are_the_limits(config: Config)
    ensures
        limits_in(config).min_tip_lamports == config.tip_floor_lamports,
        limits_in(config).max_tip_lamports == config.max_agent_tip_lamports,
        limits_in(config).max_retries == config.max_agent_retries,
        limits_in(config).max_wait_slots == config.max_agent_wait_slots,
{
}

/// A refusal names what was asked for and what is allowed, in this order.
pub proof fn refusals_name_both_numbers(a: u64, b: u64, c: u32, d: u32)
    ensures
        policy_message(PolicyError::TipTooHigh { tip_lamports: a, max_tip_lamports: b })
            == "agent tip "@ + text::decimal(a as nat) + " exceeds policy max "@ + text::decimal(
            b as nat,
        ),
        policy_message(PolicyError::TooManyAttempts { attempt: c, max_retries: d })
            == "agent requested write action on attempt "@ + text::decimal(c as nat)
            + ", above max retries "@ + text::decimal(d as nat),
{
}

} // verus!
