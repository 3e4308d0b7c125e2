use vstd::prelude::*;

use crate::errors::{XacmlError, XacmlErrorType};
use crate::expression::{spec_eval_condition, ConditionType};
use crate::meta::{AdviceExpressionsType, ObligationExpressionsType};
use crate::target::{spec_target, TargetResult, TargetType};

verus! {

/// The effect a rule carries when it applies: permit or deny access.
#[derive(Debug, Clone, Copy, PartialEq, Eq, Structural)]
pub enum EffectType {
    Permit,
    Deny,
}

/// The five-valued outcome of evaluating one rule against a request, plus
/// `NotApplicable`; the `Indeterminate` variants record which effect the
/// rule would have produced had it not faulted.
#[derive(Debug, Clone, Copy, PartialEq, Eq, Structural)]
pub enum RuleResult {
    Permit,
    Deny,
    IndeterminateDP,
    IndeterminateD,
    IndeterminateP,
    NotApplicable,
}

impl RuleResult {
    /// Collapses the effect-indexed indeterminate variants into
    /// `IndeterminateDP`, as the legacy combining algorithms expect.
    pub fn get_legacy_result(&self) -> (r: RuleResult)
        ensures
            r == spec_rule_legacy(*self),
    {
        match self {
            RuleResult::IndeterminateP => RuleResult::IndeterminateDP,
            RuleResult::IndeterminateD => RuleResult::IndeterminateDP,
            _ => *self,
        }
    }
}

/// The legacy collapse of a rule result: both one-sided indeterminate
/// variants become `IndeterminateDP`, everything else is unchanged.
pub open spec fn spec_rule_legacy(r: RuleResult) -> RuleResult {
    match r {
        RuleResult::IndeterminateP => RuleResult::IndeterminateDP,
        RuleResult::IndeterminateD => RuleResult::IndeterminateDP,
        _ => r,
    }
}

/// What to do when a rule's condition fails to evaluate: report the fault
/// to the caller as a hard error (this engine's established behavior), or
/// absorb it into the rule's effect-indexed indeterminate result as target
/// faults are.
#[derive(Debug, Clone, Copy, PartialEq, Eq, Structural)]
pub enum ConditionErrorHandling {
    Propagate,
    Absorb,
}

/// A rule: an effect guarded by an optional target and an optional
/// condition.
#[derive(Debug, PartialEq, Eq)]
pub struct RuleType {
    pub rule_id: String,
    pub effect: EffectType,
    pub description: Option<String>,
    pub target: Option<TargetType>,
    pub condition: Option<ConditionType>,
    pub obligation_expressions: Option<ObligationExpressionsType>,
    pub advice_expressions: Option<AdviceExpressionsType>,
}

/// The rule's effect as a rule result.
pub open spec fn spec_effect_result(e: EffectType) -> RuleResult {
    match e {
        EffectType::Permit => RuleResult::Permit,
        EffectType::Deny => RuleResult::Deny,
    }
}

/// The rule's effect as an effect-indexed indeterminate result.
pub open spec fn spec_effect_indeterminate(e: EffectType) -> RuleResult {
    match e {
        EffectType::Permit => RuleResult::IndeterminateP,
        EffectType::Deny => RuleResult::IndeterminateD,
    }
}

/// What a rule's target evaluates to; an absent target always matches.
pub open spec fn spec_rule_target(rule: RuleType, req: crate::request::RequestType) -> Result<
    TargetResult,
    XacmlErrorType,
> {
    match rule.target {
        Some(t) => spec_target(t, req),
        None => Ok(TargetResult::Match),
    }
}

/// What a rule's condition evaluates to; an absent condition is true.
pub open spec fn spec_rule_condition(rule: RuleType, req: crate::request::RequestType) -> Result<
    bool,
    XacmlErrorType,
> {
    match rule.condition {
        Some(c) => spec_eval_condition(c, req),
        None => Ok(true),
    }
}

/// What evaluating a rule yields. Target `NoMatch` gives `NotApplicable`;
/// target `Indeterminate` gives the effect-indexed indeterminate result; on
/// target `Match` the condition decides: true gives the effect, false gives
/// `NotApplicable`, and a condition fault is handled per `handling` —
/// propagated as a hard error, or absorbed into the effect-indexed
/// indeterminate result.
pub open spec fn spec_evaluate_rule_with(
    rule: RuleType,
    req: crate::request::RequestType,
    handling: ConditionErrorHandling,
) -> Result<RuleResult, XacmlErrorType> {
    match spec_rule_target(rule, req) {
        Err(k) => Err(k),
        Ok(TargetResult::NoMatch) => Ok(RuleResult::NotApplicable),
        Ok(TargetResult::Indeterminate) => Ok(spec_effect_indeterminate(rule.effect)),
        Ok(TargetResult::Match) => match spec_rule_condition(rule, req) {
            Ok(true) => Ok(spec_effect_result(rule.effect)),
            Ok(false) => Ok(RuleResult::NotApplicable),
            Err(k) => match handling {
                ConditionErrorHandling::Propagate => Err(k),
                ConditionErrorHandling::Absorb => Ok(spec_effect_indeterminate(rule.effect)),
            },
        },
    }
}

/// What evaluating a rule yields under this engine's established
/// condition-fault policy: the fault propagates as a hard error.
pub open spec fn spec_evaluate_rule(rule: RuleType, req: crate::request::RequestType) -> Result<
    RuleResult,
    XacmlErrorType,
> {
    spec_evaluate_rule_with(rule, req, ConditionErrorHandling::Propagate)
}

/// Whether an exec rule result agrees with the specified one.
pub open spec fn spec_rr_result_matches(
    r: Result<RuleResult, XacmlError>,
    s: Result<RuleResult, XacmlErrorType>,
) -> bool {
    match (r, s) {
        (Ok(t), Ok(st)) => t == st,
        (Err(e), Err(k)) => e.error_type == k,
        _ => false,
    }
}

impl RuleType {
    /// Evaluates this rule with an explicit choice of condition-fault
    /// handling.
    pub fn evaluate_rule_with(
        &self,
        request: &crate::request::RequestType,
        handling: ConditionErrorHandling,
    ) -> (r: Result<RuleResult, XacmlError>)
        ensures
            spec_rr_result_matches(r, spec_evaluate_rule_with(*self, *request, handling)),
    {
        let target_result = match &self.target {
            Some(t) => t.match_request(request)?,
            None => TargetResult::Match,
        };
        match target_result {
            TargetResult::NoMatch => Ok(RuleResult::NotApplicable),
            TargetResult::Indeterminate => match self.effect {
                EffectType::Deny => Ok(RuleResult::IndeterminateD),
                EffectType::Permit => Ok(RuleResult::IndeterminateP),
            },
            TargetResult::Match => {
                let cond = match &self.condition {
                    Some(c) => c.evaluate(request),
                    None => Ok(true),
                };
                match cond {
                    Ok(true) => match self.effect {
                        EffectType::Deny => Ok(RuleResult::Deny),
                        EffectType::Permit => Ok(RuleResult::Permit),
                    },
                    Ok(false) => Ok(RuleResult::NotApplicable),
                    Err(e) => match handling {
                        ConditionErrorHandling::Propagate => Err(e),
                        ConditionErrorHandling::Absorb => match self.effect {
                            EffectType::Deny => Ok(RuleResult::IndeterminateD),
                            EffectType::Permit => Ok(RuleResult::IndeterminateP),
                        },
                    },
                }
            },
        }
    }

    /// Evaluates this rule; a condition fault propagates as a hard error
    /// out of the evaluation.
    pub fn evaluate_rule(&self, request: &crate::request::RequestType) -> (r: Result<
        RuleResult,
        XacmlError,
    >)
        ensures
            spec_rr_result_matches(r, spec_evaluate_rule(*self, *request)),
    {
        self.evaluate_rule_with(request, ConditionErrorHandling::Propagate)
    }
}

} // verus!
