use vstd::prelude::*;

use crate::combining::{
    spec_combine, spec_pr_result_matches, PolicyCombiningAlgorithms, PolicyResult,
    RuleCombiningAlgorithms,
};
use crate::errors::{XacmlError, XacmlErrorType};
use crate::meta::{
    AdviceExpressionsType, CombinerParametersType, DefaultsType, IdReferenceType,
    ObligationExpressionsType, PolicyIssuerType, PolicySetCombinerParametersType,
    RuleCombinerParametersType,
};
use crate::request::RequestType;
use crate::rule::{spec_evaluate_rule, spec_rr_result_matches, RuleResult, RuleType};
use crate::target::{spec_target, spec_tr_result_matches, TargetResult, TargetType};

verus! {

/// A policy or policy set version: numbers separated by dots.
#[derive(Debug, PartialEq, Eq)]
pub struct VersionType(pub String);

/// A policy: an ordered list of rules guarded by a target and reduced by a
/// rule-combining algorithm — the smallest unit a decision point
/// evaluates.
#[derive(Debug, PartialEq, Eq)]
pub struct PolicyType {
    pub xmlns: Option<String>,
    pub xmlns_xsi: Option<String>,
    pub policy_id: String,
    pub version: VersionType,
    pub rule_combining_alg_id: RuleCombiningAlgorithms,
    pub max_delegation_depth: Option<i32>,
    pub description: Option<String>,
    pub policy_issuer: Option<PolicyIssuerType>,
    pub policy_defaults: Option<DefaultsType>,
    pub combiner_parameters: Option<Vec<CombinerParametersType>>,
    pub rule_combiner_parameters: Option<Vec<RuleCombinerParametersType>>,
    pub target: Option<TargetType>,
    pub variable_definition: Option<Vec<String>>,
    pub rule: Vec<RuleType>,
    pub obligation_expressions: Option<Vec<ObligationExpressionsType>>,
    pub advice_expressions: Option<Vec<AdviceExpressionsType>>,
}

/// A policy set: policies and nested policy sets under a shared target.
/// The engine does not evaluate policy sets; the type exists for the wire
/// format.
#[derive(Debug, PartialEq, Eq)]
pub struct PolicySetType {
    pub xmlns: Option<String>,
    pub xmlns_xsi: Option<String>,
    pub policy_set_id: String,
    pub version: VersionType,
    pub policy_combining_alg_id: PolicyCombiningAlgorithms,
    pub max_delegation_depth: Option<i32>,
    pub description: Option<String>,
    pub policy_issuer: Option<PolicyIssuerType>,
    pub policy_set_defaults: Option<DefaultsType>,
    pub target: TargetType,
    pub policy_set: Option<Vec<PolicySetType>>,
    pub policy: Option<Vec<PolicyType>>,
    pub policy_set_id_reference: Option<Vec<IdReferenceType>>,
    pub policy_id_reference: Option<Vec<IdReferenceType>>,
    pub combiner_parameters: Option<Vec<CombinerParametersType>>,
    pub policy_combiner_parameters: Option<Vec<PolicySetCombinerParametersType>>,
    pub policy_set_combiner_parameters: Option<Vec<PolicySetCombinerParametersType>>,
}

/// What a policy's target evaluates to; an absent target always matches.
pub open spec fn spec_policy_target(p: PolicyType, req: RequestType) -> Result<
    TargetResult,
    XacmlErrorType,
> {
    match p.target {
        Some(t) => spec_target(t, req),
        None => Ok(TargetResult::Match),
    }
}

/// The results of the rules of a policy, evaluated in declared order; the
/// leftmost error wins.
pub open spec fn spec_rule_list(rules: Seq<RuleType>, req: RequestType) -> Result<
    Seq<RuleResult>,
    XacmlErrorType,
>
    decreases rules.len(),
{
    if rules.len() == 0 {
        Ok(Seq::empty())
    } else {
        match spec_rule_list(rules.drop_last(), req) {
            Err(k) => Err(k),
            Ok(front) => match spec_evaluate_rule(rules.last(), req) {
                Err(k) => Err(k),
                Ok(t) => Ok(front.push(t)),
            },
        }
    }
}

/// The downgrade applied when a policy's own target was `Indeterminate`: a
/// combined `Deny` becomes `IndeterminateD`, a combined `Permit` becomes
/// `IndeterminateP`, everything else passes through.
pub open spec fn spec_downgrade(pr: PolicyResult) -> PolicyResult {
    match pr {
        PolicyResult::Deny => PolicyResult::IndeterminateD,
        PolicyResult::Permit => PolicyResult::IndeterminateP,
        _ => pr,
    }
}

/// What evaluating a policy yields. Target `NoMatch` gives
/// `NotApplicable` without touching the rules; otherwise every rule is
/// evaluated in declared order and the results are combined by the
/// policy's rule-combining algorithm; a target `Indeterminate` downgrades
/// the combined result. Rule errors and an unimplemented combining
/// algorithm abort the evaluation.
pub open spec fn spec_evaluate_policy(p: PolicyType, req: RequestType) -> Result<
    PolicyResult,
    XacmlErrorType,
> {
    match spec_policy_target(p, req) {
        Err(k) => Err(k),
        Ok(TargetResult::NoMatch) => Ok(PolicyResult::NotApplicable),
        Ok(tr) => match spec_rule_list(p.rule@, req) {
            Err(k) => Err(k),
            Ok(rrs) => match spec_combine(p.rule_combining_alg_id, rrs) {
                Err(k) => Err(k),
                Ok(pr) => Ok(
                    if tr is Indeterminate {
                        spec_downgrade(pr)
                    } else {
                        pr
                    },
                ),
            },
        },
    }
}

/// An error of one rule makes the whole rule list evaluate to the leftmost
/// such error.
proof fn lemma_rule_list_prefix_err(rules: Seq<RuleType>, req: RequestType, i: int, k: XacmlErrorType)
    requires
        0 <= i < rules.len(),
        spec_rule_list(rules.take(i), req) is Ok,
        spec_evaluate_rule(rules[i], req) == Err::<RuleResult, XacmlErrorType>(k),
    ensures
        spec_rule_list(rules, req) == Err::<Seq<RuleResult>, XacmlErrorType>(k),
    decreases rules.len(),
{
    if i == rules.len() - 1 {
        assert(rules.drop_last() =~= rules.take(i));
        assert(rules.last() == rules[i]);
    } else {
        assert(rules.drop_last().take(i) =~= rules.take(i));
        assert(rules.drop_last()[i] == rules[i]);
        lemma_rule_list_prefix_err(rules.drop_last(), req, i, k);
    }
}

impl PolicyType {
    /// Evaluates this policy's target against a request; an absent target
    /// always matches.
    pub fn match_request(&self, request: &RequestType) -> (r: Result<TargetResult, XacmlError>)
        ensures
            spec_tr_result_matches(r, spec_policy_target(*self, *request)),
    {
        match &self.target {
            Some(t) => t.match_request(request),
            None => Ok(TargetResult::Match),
        }
    }

    /// Evaluates this policy: its target, then every rule in declared
    /// order, then the rule-combining algorithm, downgrading the combined
    /// result when the target was `Indeterminate`.
    #[verifier::loop_isolation(false)]
    pub fn evaluate_policy(&self, request: &RequestType) -> (r: Result<PolicyResult, XacmlError>)
        ensures
            spec_pr_result_matches(r, spec_evaluate_policy(*self, *request)),
    {
        let target_result = self.match_request(request)?;
        if matches!(target_result, TargetResult::NoMatch) {
            return Ok(PolicyResult::NotApplicable);
        }
        let ghost rules = self.rule@;
        let mut rule_results: Vec<RuleResult> = Vec::new();
        let n = self.rule.len();
        let mut i: usize = 0;
        while i < n
            invariant
                i <= n,
                n == rules.len(),
                spec_rule_list(rules.take(i as int), *request) == Ok::<
                    Seq<RuleResult>,
                    XacmlErrorType,
                >(rule_results@),
            decreases n - i,
        {
            proof {
                assert(rules.take(i + 1 as int).drop_last() =~= rules.take(i as int));
                assert(rules.take(i + 1 as int).last() == rules[i as int]);
            }
            let rr = self.rule[i].evaluate_rule(request);
            match rr {
                Err(e) => {
                    proof {
                        lemma_rule_list_prefix_err(rules, *request, i as int, e.error_type);
                    }
                    return Err(e);
                },
                Ok(t) => {
                    rule_results.push(t);
                },
            }
            i += 1;
        }
        proof {
            assert(rules.take(n as int) =~= rules);
        }
        let combined = self.rule_combining_alg_id.apply(
            &rule_results,
            &self.rule_combiner_parameters,
        )?;
        if matches!(target_result, TargetResult::Indeterminate) {
            Ok(
                match combined {
                    PolicyResult::Deny => PolicyResult::IndeterminateD,
                    PolicyResult::Permit => PolicyResult::IndeterminateP,
                    _ => combined,
                },
            )
        } else {
            Ok(combined)
        }
    }
}

} // verus!
