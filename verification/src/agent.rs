//! The agent's decision on a transaction that is already signed: submit it,
//! wait for a leader, retry it, abandon it, or escalate.

use crate::config::Config;
use crate::jito::tip::TipData;
use crate::lifecycle::FailureKind;
use crate::text;
use crate::text::{copy_opt, join2};
use vstd::prelude::*;

verus! {

/// What to do with the transaction.
#[derive(Clone, Copy, Debug, PartialEq, Eq, Structural)]
pub enum OperationalAction {
    SubmitNow,
    WaitForLeader,
    Retry,
    Abandon,
    Escalate,
}

/// The failure that a decision is made on.
#[derive(Clone, Debug)]
pub struct AgentFailureReport {
    pub failure: FailureKind,
    pub detail: String,
    pub submitted_slot: Option<u64>,
    pub blockhash: String,
    pub processed_latency_ms: Option<u128>,
    pub confirmed_latency_ms: Option<u128>,
}

/// What a decision is made on.
#[derive(Clone, Debug)]
pub struct OperationalContext {
    pub request_id: String,
    pub attempt: u32,
    pub current_slot: Option<u64>,
    pub leader_slot: Option<u64>,
    pub slots_until_leader: Option<u64>,
    pub recent_tip: TipData,
    pub previous_tip_lamports: u64,
    pub tip_floor_lamports: u64,
    pub max_tip_lamports: u64,
    pub can_refresh_blockhash: bool,
    pub can_adjust_tip: bool,
    pub failure: Option<AgentFailureReport>,
}

/// A decision.
#[derive(Debug)]
pub struct OperationalDecision {
    pub action: OperationalAction,
    pub reason: String,
    pub refresh_blockhash: bool,
    pub tip_lamports: u64,
    pub max_wait_slots: u64,
    pub source: String,
}

/// What a decision holds.
pub ghost struct DecisionView {
    pub action: OperationalAction,
    pub reason: Seq<char>,
    pub refresh_blockhash: bool,
    pub tip_lamports: u64,
    pub max_wait_slots: u64,
    pub source: Seq<char>,
}

impl View for OperationalDecision {
    type V = DecisionView;

    open spec fn view(&self) -> DecisionView {
        DecisionView {
            action: self.action,
            reason: self.reason@,
            refresh_blockhash: self.refresh_blockhash,
            tip_lamports: self.tip_lamports,
            max_wait_slots: self.max_wait_slots,
            source: self.source@,
        }
    }
}

impl DecisionView {
    /// Whether the decision leads to a submission.
    pub open spec fn writes(self) -> bool {
        self.action == OperationalAction::SubmitNow || self.action == OperationalAction::Retry
    }
}

impl OperationalDecision {
    /// Whether the decision leads to a submission.
    pub fn is_write_action(&self) -> (writes: bool)
        ensures
            writes == self@.writes(),
    {
        matches!(self.action, OperationalAction::SubmitNow | OperationalAction::Retry)
    }
}

impl Clone for OperationalDecision {
    fn clone(&self) -> (out: OperationalDecision)
        ensures
            out@ == self@,
    {
        OperationalDecision {
            action: self.action,
            reason: self.reason.clone(),
            refresh_blockhash: self.refresh_blockhash,
            tip_lamports: self.tip_lamports,
            max_wait_slots: self.max_wait_slots,
            source: self.source.clone(),
        }
    }
}

/// How pressing the next leader's slot is, as a fraction: 0 where it is far, 1
/// where it has come.
#[derive(Clone, Copy, Debug, PartialEq, Eq, Structural)]
pub struct SlotPressure {
    pub numerator: u64,
    pub denominator: u64,
}

impl SlotPressure {
    /// Whether the pressure is over the fraction `numerator / denominator`.
    pub open spec fn over(self, numerator: nat, denominator: nat) -> bool {
        self.numerator * denominator > numerator * self.denominator
    }

    /// The pressure of a leader so many slots away, which falls to none over
    /// three slots. There is none without a leader.
    pub fn from_slots(slots_until_leader: Option<u64>) -> (pressure: SlotPressure)
        ensures
            pressure == pressure_of(slots_until_leader),
    {
        let numerator: u64 = match slots_until_leader {
            Some(slots) => if slots < 3 {
                3 - slots
            } else {
                0
            },
            None => 0,
        };
        SlotPressure { numerator, denominator: 3 }
    }
}

/// The pressure of a leader so many slots away.
pub open spec fn pressure_of(slots_until_leader: Option<u64>) -> SlotPressure {
    SlotPressure {
        numerator: match slots_until_leader {
            Some(slots) => if slots < 3 {
                (3 - slots) as u64
            } else {
                0
            },
            None => 0,
        },
        denominator: 3,
    }
}

/// The larger of two amounts.
pub open spec fn larger(a: u64, b: u64) -> u64 {
    if a < b {
        b
    } else {
        a
    }
}

/// The smaller of two amounts.
pub open spec fn smaller(a: u64, b: u64) -> u64 {
    if a < b {
        a
    } else {
        b
    }
}

/// The tip for a pressure: the 95th percentile over three quarters, the 75th
/// over 35 hundredths, else the moving median; never below the floor.
pub open spec fn pressed_tip(tip: TipData, pressure: SlotPressure, floor: u64) -> u64 {
    larger(
        if pressure.over(3, 4) {
            tip.landed_tips_95th_percentile
        } else if pressure.over(35, 100) {
            tip.landed_tips_75th_percentile
        } else {
            tip.ema_landed_tips_50th_percentile
        },
        floor,
    )
}

/// The tip for a leader so many slots away, within the floor and the maximum;
/// the maximum wins.
pub open spec fn context_tip(ctx: OperationalContext) -> u64 {
    smaller(
        larger(
            match ctx.slots_until_leader {
                Some(slots) => if slots == 0 {
                    ctx.recent_tip.landed_tips_95th_percentile
                } else if slots == 1 {
                    ctx.recent_tip.landed_tips_75th_percentile
                } else {
                    ctx.recent_tip.ema_landed_tips_50th_percentile
                },
                None => ctx.recent_tip.ema_landed_tips_50th_percentile,
            },
            ctx.tip_floor_lamports,
        ),
        ctx.max_tip_lamports,
    )
}

/// How far a leader may be for a submission.
pub const NEAR_SLOTS: u64 = 3;

/// The decision by fixed rules.
///
/// After a failure nothing is submitted: what another signature could mend is
/// escalated, what the transaction itself or its payer causes is abandoned, and
/// what may pass is waited out. Without a failure the transaction is submitted once a leader
/// is near.
pub open spec fn fallback_decision(ctx: OperationalContext) -> DecisionView {
    let source = "fallback_reasoner"@;
    let kept_tip = larger(ctx.previous_tip_lamports, ctx.tip_floor_lamports);
    match ctx.failure {
        Some(report) => match report.failure {
            FailureKind::ExpiredBlockhash => DecisionView {
                action: OperationalAction::Escalate,
                reason:
                    "The signed transaction's blockhash expired and this agent cannot refresh or re-sign it; a new signed transaction is required."@,
                refresh_blockhash: false,
                tip_lamports: kept_tip,
                max_wait_slots: 0,
                source,
            },
            FailureKind::ComputeExceeded | FailureKind::SimulationFailure => DecisionView {
                action: OperationalAction::Abandon,
                reason: "The failure is transaction-shape related, not a timing or tip issue."@,
                refresh_blockhash: false,
                tip_lamports: kept_tip,
                max_wait_slots: 0,
                source,
            },
            FailureKind::InsufficientFunds => DecisionView {
                action: OperationalAction::Abandon,
                reason:
                    "The payer has no funds, which neither a wait nor another tip changes; it has to be funded first."@,
                refresh_blockhash: false,
                tip_lamports: kept_tip,
                max_wait_slots: 0,
                source,
            },
            FailureKind::FeeTooLow | FailureKind::BundleFailure => DecisionView {
                action: OperationalAction::Escalate,
                reason:
                    "The signed transaction appears underbid or dropped, but this agent cannot change its embedded tip; a newly signed transaction with a higher tip is required."@,
                refresh_blockhash: false,
                tip_lamports: smaller(
                    larger(ctx.recent_tip.landed_tips_95th_percentile, context_tip(ctx)),
                    ctx.max_tip_lamports,
                ),
                max_wait_slots: 0,
                source,
            },
            FailureKind::JitoRateLimited | FailureKind::Timeout | FailureKind::Unknown =>
                DecisionView {
                action: OperationalAction::WaitForLeader,
                reason:
                    "The evidence is inconclusive or rate-limited; wait for fresher leader and tip data before another write."@,
                refresh_blockhash: false,
                tip_lamports: context_tip(ctx),
                max_wait_slots: 3,
                source,
            },
        },
        None => if ctx.slots_until_leader matches Some(slots) && slots <= NEAR_SLOTS {
            DecisionView {
                action: OperationalAction::SubmitNow,
                reason: "A connected Jito leader is inside the near submission window."@,
                refresh_blockhash: false,
                tip_lamports: context_tip(ctx),
                max_wait_slots: 3,
                source,
            }
        } else {
            DecisionView {
                action: OperationalAction::WaitForLeader,
                reason: "No near connected Jito leader is available yet."@,
                refresh_blockhash: false,
                tip_lamports: context_tip(ctx),
                max_wait_slots: 3,
                source,
            }
        },
    }
}

/// A decision of the language model, fit to the context: without a tip it gets
/// the larger of the floor and the previous one, and it refreshes the blockhash
/// only where that is possible.
pub open spec fn fitted_decision(decision: DecisionView, ctx: OperationalContext) -> DecisionView {
    DecisionView {
        tip_lamports: if decision.tip_lamports == 0 {
            larger(ctx.tip_floor_lamports, ctx.previous_tip_lamports)
        } else {
            decision.tip_lamports
        },
        refresh_blockhash: decision.refresh_blockhash && ctx.can_refresh_blockhash,
        ..decision
    }
}

/// The decision with what a language model answered, if one was asked and its
/// answer could be read.
pub open spec fn decision_of(
    has_key: bool,
    ctx: OperationalContext,
    answer: Option<DecisionView>,
) -> DecisionView {
    if has_key && answer is Some {
        fitted_decision(DecisionView { source: "openai"@, ..answer->0 }, ctx)
    } else {
        fallback_decision(ctx)
    }
}

/// The message to the language model that says what its task is.
pub const SYSTEM_PROMPT: &'static str =
    "Make one bounded Solana transaction operation decision. Balance landing probability, tip cost, leader timing, and failure evidence. Do not invent tools or request private-key access.";

/// The start of the message to the language model; the evidence follows.
pub const USER_PROMPT: &'static str =
    "You are the bounded operational agent for a Solana Jito transaction stack. You do not sign transactions and cannot call Solana or Jito directly. The transaction is already signed; if can_refresh_blockhash=false or can_adjust_tip=false, do not choose retry as though those fields can be mutated. Escalate when a new signed transaction is needed. Choose exactly one action from submit_now, wait_for_leader, retry, abandon, escalate. Return only JSON matching: {\"action\":\"submit_now|wait_for_leader|retry|abandon|escalate\",\"reason\":\"...\",\"refresh_blockhash\":true|false,\"tip_lamports\":123,\"max_wait_slots\":3,\"source\":\"openai\"}.\nEvidence and policy limits:\n";

/// The message of the error for an answer without content.
pub const NO_CHOICES: &'static str = "OpenAI response contained no choices";

/// The larger of two amounts.
fn max_of(a: u64, b: u64) -> (out: u64)
    ensures
        out == larger(a, b),
{
    if a < b {
        b
    } else {
        a
    }
}

/// The smaller of two amounts.
fn min_of(a: u64, b: u64) -> (out: u64)
    ensures
        out == smaller(a, b),
{
    if a < b {
        a
    } else {
        b
    }
}

/// The decision maker, with the language model it may ask.
#[derive(Clone, Debug)]
pub struct AiAgent {
    pub api_key: Option<String>,
    pub model: String,
}

impl AiAgent {
    pub fn new(config: &Config) -> (agent: AiAgent)
        ensures
            text::opt_text(agent.api_key) == text::opt_text(config.openai_api_key),
            agent.model@ == config.openai_model@,
    {
        AiAgent { api_key: copy_opt(&config.openai_api_key), model: config.openai_model.clone() }
    }

    /// The tip for a pressure.
    pub fn choose_tip_lamports(&self, tip: &TipData, slot_pressure: SlotPressure, floor: u64) -> (
    lamports: u64)
        ensures
            lamports == pressed_tip(*tip, slot_pressure, floor),
            lamports >= floor,
            slot_pressure.numerator * 100 <= 35 * slot_pressure.denominator ==> lamports == if tip
                .ema_landed_tips_50th_percentile < floor {
                floor
            } else {
                tip.ema_landed_tips_50th_percentile
            },
            slot_pressure.numerator * 100 > 35 * slot_pressure.denominator
                && slot_pressure.numerator * 4 <= 3 * slot_pressure.denominator ==> lamports
                == if tip.landed_tips_75th_percentile < floor {
                floor
            } else {
                tip.landed_tips_75th_percentile
            },
            slot_pressure.numerator * 4 > 3 * slot_pressure.denominator ==> lamports == if tip
                .landed_tips_95th_percentile < floor {
                floor
            } else {
                tip.landed_tips_95th_percentile
            },
    {
        let numerator: u128 = slot_pressure.numerator as u128;
        let denominator: u128 = slot_pressure.denominator as u128;
        let percentile_tip: u64 = if numerator * 4 > 3 * denominator {
            tip.landed_tips_95th_percentile
        } else if numerator * 100 > 35 * denominator {
            tip.landed_tips_75th_percentile
        } else {
            tip.ema_landed_tips_50th_percentile
        };
        max_of(percentile_tip, floor)
    }

    /// The decision, with what the language model answered: nothing where it
    /// was not asked or its answer could not be read.
    pub fn decide_operation(
        &self,
        ctx: &OperationalContext,
        answer: Option<OperationalDecision>,
    ) -> (decision: OperationalDecision)
        ensures
            decision@ == decision_of(
                self.api_key is Some,
                *ctx,
                match answer {
                    Some(d) => Some(d@),
                    None => None,
                },
            ),
    {
        match (&self.api_key, answer) {
            (Some(_), Some(answer)) => {
                let mut decision = answer;
                decision.source = "openai".to_owned();
                validate_operational_decision(decision, ctx)
            },
            _ => self.fallback_operation(ctx),
        }
    }

    /// The message to the language model, with the evidence in JSON.
    pub fn user_prompt(&self, evidence: &str) -> (prompt: String)
        ensures
            prompt@ == USER_PROMPT@ + evidence@,
    {
        join2(USER_PROMPT, evidence)
    }

    /// The content that counts in an answer: the first choice.
    pub fn first_choice(&self, choices: Vec<String>) -> (out: Result<String, &'static str>)
        ensures
            match out {
                Ok(content) => choices@.len() > 0 && content@ == choices@[0]@,
                Err(message) => choices@.len() == 0 && message@ == NO_CHOICES@,
            },
    {
        if choices.len() == 0 {
            Err(NO_CHOICES)
        } else {
            Ok(choices[0].clone())
        }
    }

    /// The decision by fixed rules.
    pub fn fallback_operation(&self, ctx: &OperationalContext) -> (decision: OperationalDecision)
        ensures
            decision@ == fallback_decision(*ctx),
    {
        let pressure = SlotPressure::from_slots(ctx.slots_until_leader);
        let pressed: u64 = self.choose_tip_lamports(
            &ctx.recent_tip,
            pressure,
            ctx.tip_floor_lamports,
        );
        let default_tip: u64 = min_of(pressed, ctx.max_tip_lamports);
        assert(default_tip == context_tip(*ctx));
        let kept_tip: u64 = max_of(ctx.previous_tip_lamports, ctx.tip_floor_lamports);
        let source = "fallback_reasoner".to_owned();
        match &ctx.failure {
            Some(report) => match report.failure {
                FailureKind::ExpiredBlockhash => OperationalDecision {
                    action: OperationalAction::Escalate,
                    reason:
                        "The signed transaction's blockhash expired and this agent cannot refresh or re-sign it; a new signed transaction is required.".to_owned(),
                    refresh_blockhash: false,
                    tip_lamports: kept_tip,
                    max_wait_slots: 0,
                    source,
                },
                FailureKind::ComputeExceeded | FailureKind::SimulationFailure =>
                    OperationalDecision {
                    action: OperationalAction::Abandon,
                    reason:
                        "The failure is transaction-shape related, not a timing or tip issue.".to_owned(),
                    refresh_blockhash: false,
                    tip_lamports: kept_tip,
                    max_wait_slots: 0,
                    source,
                },
                FailureKind::InsufficientFunds => OperationalDecision {
                    action: OperationalAction::Abandon,
                    reason:
                        "The payer has no funds, which neither a wait nor another tip changes; it has to be funded first.".to_owned(),
                    refresh_blockhash: false,
                    tip_lamports: kept_tip,
                    max_wait_slots: 0,
                    source,
                },
                FailureKind::FeeTooLow | FailureKind::BundleFailure => {
                    let target_tip: u64 = min_of(
                        max_of(ctx.recent_tip.landed_tips_95th_percentile, default_tip),
                        ctx.max_tip_lamports,
                    );
                    OperationalDecision {
                        action: OperationalAction::Escalate,
                        reason:
                            "The signed transaction appears underbid or dropped, but this agent cannot change its embedded tip; a newly signed transaction with a higher tip is required.".to_owned(),
                        refresh_blockhash: false,
                        tip_lamports: target_tip,
                        max_wait_slots: 0,
                        source,
                    }
                },
                FailureKind::JitoRateLimited | FailureKind::Timeout | FailureKind::Unknown =>
                    OperationalDecision {
                    action: OperationalAction::WaitForLeader,
                    reason:
                        "The evidence is inconclusive or rate-limited; wait for fresher leader and tip data before another write.".to_owned(),
                    refresh_blockhash: false,
                    tip_lamports: default_tip,
                    max_wait_slots: 3,
                    source,
                },
            },
            None => {
                let near = match ctx.slots_until_leader {
                    Some(slots) => slots <= NEAR_SLOTS,
                    None => false,
                };
                if near {
                    OperationalDecision {
                        action: OperationalAction::SubmitNow,
                        reason:
                            "A connected Jito leader is inside the near submission window.".to_owned(),
                        refresh_blockhash: false,
                        tip_lamports: default_tip,
                        max_wait_slots: 3,
                        source,
                    }
                } else {
                    OperationalDecision {
                        action: OperationalAction::WaitForLeader,
                        reason: "No near connected Jito leader is available yet.".to_owned(),
                        refresh_blockhash: false,
                        tip_lamports: default_tip,
                        max_wait_slots: 3,
                        source,
                    }
                }
            },
        }
    }
}

/// A decision of the language model, fit to the context.
pub fn validate_operational_decision(
    decision: OperationalDecision,
    ctx: &OperationalContext,
) -> (out: OperationalDecision)
    ensures
        out@ == fitted_decision(decision@, *ctx),
{
    let mut decision = decision;
    if decision.tip_lamports == 0 {
        decision.tip_lamports = max_of(ctx.tip_floor_lamports, ctx.previous_tip_lamports);
    }
    if !ctx.can_refresh_blockhash {
        decision.refresh_blockhash = false;
    }
    decision
}

/// The fixed rules never retry, never refresh the blockhash, and submit nothing
/// after a failure.
pub proof fn fallback_never_rewrites(ctx: OperationalContext)
    ensures
        fallback_decision(ctx).action != OperationalAction::Retry,
        !fallback_decision(ctx).refresh_blockhash,
        ctx.failure is Some ==> !fallback_decision(ctx).writes(),
{
}

/// The fixed rules submit exactly when nothing has failed and a leader is near.
pub proof fn fallback_submits_near_leaders(ctx: OperationalContext)
    ensures
        fallback_decision(ctx).action == OperationalAction::SubmitNow <==> ctx.failure is None && (
        ctx.slots_until_leader matches Some(slots) && slots <= NEAR_SLOTS),
{
}

/// Expired blockhashes and low tips are escalated for a new signature, and
/// failures that the transaction or its payer causes are abandoned.
pub proof fn fallback_stops_on_lasting_failures(ctx: OperationalContext)
    requires
        ctx.failure is Some,
    ensures
        ({
            let kind = ctx.failure->0.failure;
            let action = fallback_decision(ctx).action;
            &&& action == OperationalAction::Escalate <==> kind == FailureKind::ExpiredBlockhash
                || kind == FailureKind::FeeTooLow || kind == FailureKind::BundleFailure
            &&& action == OperationalAction::Abandon <==> kind == FailureKind::ComputeExceeded
                || kind == FailureKind::SimulationFailure || kind == FailureKind::InsufficientFunds
        }),
{
}

/// The fixed rules ask for no other tip where the payer has no funds.
pub proof fn missing_funds_raise_no_tip(ctx: OperationalContext)
    requires
        ctx.failure is Some,
        ctx.failure->0.failure == FailureKind::InsufficientFunds,
        ctx.tip_floor_lamports <= ctx.previous_tip_lamports,
    ensures
        fallback_decision(ctx).tip_lamports == ctx.previous_tip_lamports,
        !fallback_decision(ctx).writes(),
{
}

/// No decision refreshes a blockhash that cannot be refreshed, whoever made it.
pub proof fn signed_blockhash_is_never_refreshed(
    has_key: bool,
    ctx: OperationalContext,
    answer: Option<DecisionView>,
)
    requires
        !ctx.can_refresh_blockhash,
    ensures
        !decision_of(has_key, ctx, answer).refresh_blockhash,
{
}

/// Without a key to a language model the decision follows the fixed rules.
pub proof fn no_key_means_fixed_rules(ctx: OperationalContext, answer: Option<DecisionView>)
    ensures
        decision_of(false, ctx, answer) == fallback_decision(ctx),
{
}

/// A submission by the fixed rules tips no more than the maximum, and no less
/// than the floor where the maximum allows it.
pub proof fn fallback_tips_within_limits(ctx: OperationalContext)
    requires
        ctx.tip_floor_lamports <= ctx.max_tip_lamports,
        fallback_decision(ctx).writes(),
    ensures
        ctx.tip_floor_lamports <= fallback_decision(ctx).tip_lamports <= ctx.max_tip_lamports,
{
}

/// More pressure never asks for a lower percentile.
pub proof fn pressure_raises_the_percentile(lower: SlotPressure, higher: SlotPressure)
    requires
        lower.denominator == higher.denominator,
        lower.numerator <= higher.numerator,
    ensures
        lower.over(3, 4) ==> higher.over(3, 4),
        lower.over(35, 100) ==> higher.over(35, 100),
        lower.over(3, 4) ==> lower.over(35, 100),
{
}

/// Under little pressure, up to 35 hundredths, the tip is the moving median of
/// landed tips; up to three quarters it is the 75th percentile; over that it is
/// the 95th. The floor is kept in each case.
pub proof fn tips_follow_the_pressure(tip: TipData, pressure: SlotPressure, floor: u64)
    ensures
        ({
            let chosen = pressed_tip(tip, pressure, floor);
            let wanted = if pressure.numerator * 4 > 3 * pressure.denominator {
                tip.landed_tips_95th_percentile
            } else if pressure.numerator * 100 > 35 * pressure.denominator {
                tip.landed_tips_75th_percentile
            } else {
                tip.ema_landed_tips_50th_percentile
            };
            &&& wanted >= floor ==> chosen == wanted
            &&& wanted < floor ==> chosen == floor
        }),
{
}

/// The pressure is full when the leader's slot has come, falls by a third with
/// each slot, and is none from three slots on or without a leader.
pub proof fn pressure_falls_with_distance(slots: u64)
    ensures
        pressure_of(None).numerator == 0,
        slots >= 3 ==> pressure_of(Some(slots)).numerator == 0,
        slots < 3 ==> pressure_of(Some(slots)).numerator == pressure_of(Some(slots)).denominator
            - slots,
        pressure_of(Some(slots)).denominator == 3,
        pressure_of(None).denominator == 3,
{
}

/// The tip for a leader that has come is the 95th percentile of landed tips, for
/// one that is a slot away the 75th, and for one that is further or unknown the
/// moving median.
pub proof fn distances_choose_the_percentile(tip: TipData, slots: u64, floor: u64)
    requires
        floor <= tip.landed_tips_95th_percentile,
        floor <= tip.landed_tips_75th_percentile,
        floor <= tip.ema_landed_tips_50th_percentile,
    ensures
        pressed_tip(tip, pressure_of(Some(0)), floor) == tip.landed_tips_95th_percentile,
        pressed_tip(tip, pressure_of(Some(1)), floor) == tip.landed_tips_75th_percentile,
        slots >= 2 ==> pressed_tip(tip, pressure_of(Some(slots)), floor)
            == tip.ema_landed_tips_50th_percentile,
        pressed_tip(tip, pressure_of(None), floor) == tip.ema_landed_tips_50th_percentile,
{
}

/// The tip of a context is the one for the distance of its leader, raised to the
/// floor and then cut to the maximum.
pub proof fn context_tips_are_clamped(ctx: OperationalContext)
    ensures
        ({
            let wanted = match ctx.slots_until_leader {
                Some(0) => ctx.recent_tip.landed_tips_95th_percentile,
                Some(1) => ctx.recent_tip.landed_tips_75th_percentile,
                _ => ctx.recent_tip.ema_landed_tips_50th_percentile,
            };
            let chosen = context_tip(ctx);
            &&& chosen <= ctx.max_tip_lamports
            &&& ctx.tip_floor_lamports <= wanted <= ctx.max_tip_lamports ==> chosen == wanted
            &&& wanted < ctx.tip_floor_lamports <= ctx.max_tip_lamports ==> chosen
                == ctx.tip_floor_lamports
            &&& ctx.max_tip_lamports <= wanted ==> chosen == ctx.max_tip_lamports
            &&& ctx.max_tip_lamports <= ctx.tip_floor_lamports ==> chosen == ctx.max_tip_lamports
        }),
{
}

/// Without a failure the fixed rules submit where the leader is three slots away
/// at most, and wait otherwise; they tip by the distance and wait three slots at
/// most.
pub proof fn fallback_acts_on_the_leader(ctx: OperationalContext)
    requires
        ctx.failure is None,
    ensures
        ({
            let decision = fallback_decision(ctx);
            &&& match ctx.slots_until_leader {
                Some(slots) => {
                    &&& slots <= 3 ==> decision.action == OperationalAction::SubmitNow
                    &&& slots > 3 ==> decision.action == OperationalAction::WaitForLeader
                },
                None => decision.action == OperationalAction::WaitForLeader,
            }
            &&& decision.tip_lamports == context_tip(ctx)
            &&& decision.max_wait_slots == 3
            &&& decision.source == "fallback_reasoner"@
        }),
{
}

/// After a failure the fixed rules act on its kind: what needs a new signature is
/// escalated, with the tip of before for an expired blockhash and a higher one for
/// a low fee; what the transaction or its payer causes is abandoned with the tip
/// of before; and what may pass is waited out for three slots.
pub proof fn fallback_acts_on_the_failure(ctx: OperationalContext)
    requires
        ctx.failure is Some,
    ensures
        ({
            let kind = ctx.failure->0.failure;
            let decision = fallback_decision(ctx);
            let kept = if ctx.previous_tip_lamports < ctx.tip_floor_lamports {
                ctx.tip_floor_lamports
            } else {
                ctx.previous_tip_lamports
            };
            let high = ctx.recent_tip.landed_tips_95th_percentile;
            &&& kind == FailureKind::ExpiredBlockhash ==> decision.action
                == OperationalAction::Escalate && decision.tip_lamports == kept
                && decision.max_wait_slots == 0
            &&& kind == FailureKind::ComputeExceeded || kind == FailureKind::SimulationFailure
                || kind == FailureKind::InsufficientFunds ==> decision.action
                == OperationalAction::Abandon && decision.tip_lamports == kept
                && decision.max_wait_slots == 0
            &&& kind == FailureKind::FeeTooLow || kind == FailureKind::BundleFailure ==> {
                &&& decision.action == OperationalAction::Escalate
                &&& decision.max_wait_slots == 0
                &&& decision.tip_lamports <= ctx.max_tip_lamports
                &&& context_tip(ctx) <= decision.tip_lamports
                &&& high <= ctx.max_tip_lamports ==> high <= decision.tip_lamports
                &&& high <= ctx.max_tip_lamports ==> decision.tip_lamports == high
                    || decision.tip_lamports == context_tip(ctx)
                &&& high > ctx.max_tip_lamports ==> decision.tip_lamports == ctx.max_tip_lamports
            }
            &&& kind == FailureKind::JitoRateLimited || kind == FailureKind::Timeout || kind
                == FailureKind::Unknown ==> decision.action == OperationalAction::WaitForLeader
                && decision.tip_lamports == context_tip(ctx) && decision.max_wait_slots == 3
            &&& decision.source == "fallback_reasoner"@
            &&& !decision.refresh_blockhash
        }),
{
}

/// What a language model decides is kept, but that the decision is marked as its
/// own, a missing tip becomes the larger of the floor and the one of before, and a
/// blockhash is refreshed only where that is possible.
pub proof fn model_decisions_are_kept(ctx: OperationalContext, answer: DecisionView)
    ensures
        ({
            let decision = decision_of(true, ctx, Some(answer));
            &&& decision.action == answer.action
            &&& decision.reason == answer.reason
            &&& decision.max_wait_slots == answer.max_wait_slots
            &&& decision.source == "openai"@
            &&& decision.refresh_blockhash <==> answer.refresh_blockhash
                && ctx.can_refresh_blockhash
            &&& answer.tip_lamports > 0 ==> decision.tip_lamports == answer.tip_lamports
            &&& answer.tip_lamports == 0 ==> decision.tip_lamports >= ctx.tip_floor_lamports
                && decision.tip_lamports >= ctx.previous_tip_lamports && (decision.tip_lamports
                == ctx.tip_floor_lamports || decision.tip_lamports == ctx.previous_tip_lamports)
        }),
{
}

/// Without an answer of a language model the fixed rules decide, whether there is
/// a key or not.
pub proof fn no_answer_means_fixed_rules(has_key: bool, ctx: OperationalContext)
    ensures
        decision_of(has_key, ctx, None) == fallback_decision(ctx),
{
}

/// A decision leads to a submission exactly where it is to submit or to retry.
pub proof fn writes_are_submissions_and_retries(decision: DecisionView)
    ensures
        decision.action == OperationalAction::SubmitNow ==> decision.writes(),
        decision.action == OperationalAction::Retry ==> decision.writes(),
        decision.action == OperationalAction::WaitForLeader ==> !decision.writes(),
        decision.action == OperationalAction::Abandon ==> !decision.writes(),
        decision.action == OperationalAction::Escalate ==> !decision.writes(),
{
}

/// A decision shows what it holds.
pub proof fn decisions_show_what_they_hold(decision: OperationalDecision)
    ensures
        decision@.action == decision.action,
        decision@.reason == decision.reason@,
        decision@.refresh_blockhash == decision.refresh_blockhash,
        decision@.tip_lamports == decision.tip_lamports,
        decision@.max_wait_slots == decision.max_wait_slots,
        decision@.source == decision.source@,
{
}

} // verus!
