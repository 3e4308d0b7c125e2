use vstd::prelude::*;

use crate::combining::PolicyResult;
use crate::errors::XacmlError;
use crate::meta::{AssociatedAdviceType, ObligationsType, PolicyIdentifierListType};
use crate::request::AttributesType;
use crate::rule::RuleResult;

verus! {

/// The user-visible decision of a request: the three `Indeterminate`
/// variants of the internal results collapse into one.
#[derive(Debug, Clone, Copy, PartialEq, Eq, Structural)]
pub enum DecisionType {
    Permit,
    Deny,
    Indeterminate,
    NotApplicable,
}

/// The decision a rule result collapses to.
pub open spec fn spec_decision_of_rule(r: RuleResult) -> DecisionType {
    match r {
        RuleResult::Permit => DecisionType::Permit,
        RuleResult::Deny => DecisionType::Deny,
        RuleResult::IndeterminateDP => DecisionType::Indeterminate,
        RuleResult::IndeterminateD => DecisionType::Indeterminate,
        RuleResult::IndeterminateP => DecisionType::Indeterminate,
        RuleResult::NotApplicable => DecisionType::NotApplicable,
    }
}

/// The decision a policy result collapses to.
pub open spec fn spec_decision_of_policy(r: PolicyResult) -> DecisionType {
    match r {
        PolicyResult::Permit => DecisionType::Permit,
        PolicyResult::Deny => DecisionType::Deny,
        PolicyResult::IndeterminateDP => DecisionType::Indeterminate,
        PolicyResult::IndeterminateD => DecisionType::Indeterminate,
        PolicyResult::IndeterminateP => DecisionType::Indeterminate,
        PolicyResult::NotApplicable => DecisionType::NotApplicable,
    }
}

impl vstd::std_specs::convert::FromSpecImpl<RuleResult> for DecisionType {
    open spec fn obeys_from_spec() -> bool {
        true
    }

    open spec fn from_spec(v: RuleResult) -> DecisionType {
        spec_decision_of_rule(v)
    }
}

impl From<RuleResult> for DecisionType {
    fn from(rule_result: RuleResult) -> (r: Self) {
        match rule_result {
            RuleResult::Permit => DecisionType::Permit,
            RuleResult::Deny => DecisionType::Deny,
            RuleResult::IndeterminateDP => DecisionType::Indeterminate,
            RuleResult::IndeterminateD => DecisionType::Indeterminate,
            RuleResult::IndeterminateP => DecisionType::Indeterminate,
            RuleResult::NotApplicable => DecisionType::NotApplicable,
        }
    }
}

impl vstd::std_specs::convert::FromSpecImpl<PolicyResult> for DecisionType {
    open spec fn obeys_from_spec() -> bool {
        true
    }

    open spec fn from_spec(v: PolicyResult) -> DecisionType {
        spec_decision_of_policy(v)
    }
}

impl From<PolicyResult> for DecisionType {
    fn from(policy_result: PolicyResult) -> (r: Self) {
        match policy_result {
            PolicyResult::Permit => DecisionType::Permit,
            PolicyResult::Deny => DecisionType::Deny,
            PolicyResult::IndeterminateDP => DecisionType::Indeterminate,
            PolicyResult::IndeterminateD => DecisionType::Indeterminate,
            PolicyResult::IndeterminateP => DecisionType::Indeterminate,
            PolicyResult::NotApplicable => DecisionType::NotApplicable,
        }
    }
}

/// A status code of a decision result, possibly refined by minor codes.
#[derive(Debug, PartialEq, Eq)]
pub struct StatusCodeType {
    pub value: String,
    pub status_code: Option<Vec<StatusCodeType>>,
}

/// The status message of a decision result.
#[derive(Debug, PartialEq, Eq)]
pub struct StatusMessageType {
    pub value: String,
}

impl StatusMessageType {
    pub fn new(value: String) -> (r: StatusMessageType)
        ensures
            r.value == value,
    {
        StatusMessageType { value }
    }
}

/// Free-form status detail of a decision result.
#[derive(Debug, PartialEq, Eq)]
pub struct StatusDetailType {
    pub any: String,
}

/// The status of a decision result: a code, and optionally a message and
/// detail.
#[derive(Debug, PartialEq, Eq)]
pub struct StatusType {
    pub status_code: StatusCodeType,
    pub status_message: Option<StatusMessageType>,
    pub status_detail: Option<StatusDetailType>,
}

/// One result of a decision request: the decision itself plus optional
/// status and attachments.
#[derive(Debug, PartialEq, Eq)]
pub struct ResultType {
    pub decision: DecisionType,
    pub status: Option<StatusType>,
    pub obligations: Option<ObligationsType>,
    pub associated_advice: Option<AssociatedAdviceType>,
    pub attributes: Option<Vec<AttributesType>>,
    pub policy_identifier_list: Option<PolicyIdentifierListType>,
}

/// The response to a decision request: a list of results.
#[derive(Debug, PartialEq, Eq)]
pub struct ResponseType {
    pub result: Vec<ResultType>,
}

impl ResponseType {
    /// A response holding a single bare result with the given decision.
    pub fn from_decision(decision: DecisionType) -> (r: ResponseType)
        ensures
            r.result@.len() == 1,
            r.result@[0].decision == decision,
            r.result@[0].status is None,
    {
        let mut result: Vec<ResultType> = Vec::new();
        result.push(
            ResultType {
                decision,
                status: None,
                obligations: None,
                associated_advice: None,
                attributes: None,
                policy_identifier_list: None,
            },
        );
        ResponseType { result }
    }

    /// A response holding a single bare `Permit` result.
    pub fn get_permit_response() -> (r: Result<ResponseType, XacmlError>)
        ensures
            r matches Ok(resp) && resp.result@.len() == 1 && resp.result@[0].decision
                == DecisionType::Permit,
    {
        Ok(ResponseType::from_decision(DecisionType::Permit))
    }

    /// A response holding a single bare `Deny` result.
    pub fn get_deny_response() -> (r: Result<ResponseType, XacmlError>)
        ensures
            r matches Ok(resp) && resp.result@.len() == 1 && resp.result@[0].decision
                == DecisionType::Deny,
    {
        Ok(ResponseType::from_decision(DecisionType::Deny))
    }
}

} // verus!
