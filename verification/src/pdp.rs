use vstd::prelude::*;

use vstd::string::StringExecFns;

use crate::errors::XacmlError;
use crate::policy::{spec_evaluate_policy, PolicyType};
use crate::request::RequestType;
use crate::response::{
    spec_decision_of_policy, ResponseType, ResultType, StatusCodeType, StatusMessageType,
    StatusType,
};

verus! {

/// Decides a request against a policy: the policy is evaluated, the
/// five-valued result collapses to the user-visible decision, and the
/// response carries that decision with an `ok` status. `Indeterminate` is
/// a successful outcome — the policy could not determine an answer — while
/// structural faults, rule-condition faults and unimplemented features
/// fail the call outright.
pub fn decide_request(request: &RequestType, policy: &PolicyType) -> (r: Result<
    ResponseType,
    XacmlError,
>)
    ensures
        match (r, spec_evaluate_policy(*policy, *request)) {
            (Ok(resp), Ok(pr)) => resp.result@.len() == 1 && resp.result@[0].decision
                == spec_decision_of_policy(pr) && (resp.result@[0].status matches Some(st)
                && st.status_code.value@ == "urn:oasis:names:tc:xacml:1.0:status:ok"@),
            (Err(e), Err(k)) => e.error_type == k,
            _ => false,
        },
{
    let policy_result = policy.evaluate_policy(request)?;
    let decision = crate::response::DecisionType::from(policy_result);
    let mut result: Vec<ResultType> = Vec::new();
    result.push(
        ResultType {
            decision,
            status: Some(
                StatusType {
                    status_code: StatusCodeType {
                        value: "urn:oasis:names:tc:xacml:1.0:status:ok".to_owned(),
                        status_code: None,
                    },
                    status_message: Some(
                        StatusMessageType::new(String::from_str("Policy evaluation completed")),
                    ),
                    status_detail: None,
                },
            ),
            obligations: None,
            associated_advice: None,
            attributes: None,
            policy_identifier_list: None,
        },
    );
    Ok(ResponseType { result })
}

} // verus!
