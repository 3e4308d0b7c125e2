use vstd::prelude::*;

use crate::errors::{XacmlError, XacmlErrorType};
use crate::meta::RuleCombinerParametersType;
use crate::rule::RuleResult;

verus! {

/// The five-valued outcome of evaluating a whole policy, plus
/// `NotApplicable`; structurally identical to `RuleResult`, kept distinct
/// for clarity of layering.
#[derive(Debug, Clone, Copy, PartialEq, Eq, Structural)]
pub enum PolicyResult {
    Permit,
    Deny,
    IndeterminateDP,
    IndeterminateD,
    IndeterminateP,
    NotApplicable,
}

impl PolicyResult {
    /// Collapses the effect-indexed indeterminate variants into
    /// `IndeterminateDP`, as the legacy combining algorithms expect.
    pub fn get_legacy_result(&self) -> (r: PolicyResult)
        ensures
            r == spec_policy_legacy(*self),
    {
        match self {
            PolicyResult::IndeterminateP => PolicyResult::IndeterminateDP,
            PolicyResult::IndeterminateD => PolicyResult::IndeterminateDP,
            _ => *self,
        }
    }
}

/// The legacy collapse of a policy result: both one-sided indeterminate
/// variants become `IndeterminateDP`, everything else is unchanged.
pub open spec fn spec_policy_legacy(r: PolicyResult) -> PolicyResult {
    match r {
        PolicyResult::IndeterminateP => PolicyResult::IndeterminateDP,
        PolicyResult::IndeterminateD => PolicyResult::IndeterminateDP,
        _ => r,
    }
}

/// The rule-combining algorithms of the standard; only deny-overrides is
/// implemented, every other identifier reports `NotImplemented` rather
/// than silently approximating.
#[derive(Debug, Clone, Copy, PartialEq, Eq, Structural)]
pub enum RuleCombiningAlgorithms {
    DenyOverrides,
    PermitOverrides,
    FirstApplicable,
    OrderedDenyOverrides,
    OrderedPermitOverrides,
    DenyUnlessPermit,
    PermitUnlessDeny,
    LegacyDenyOverrides,
    LegacyPermitOverrides,
    LegacyOrderedDenyOverrides,
    LegacyOrderedPermitOverrides,
}

/// The policy-combining algorithms of the standard; none is implemented by
/// this engine, the identifiers exist for the wire format.
#[derive(Debug, Clone, Copy, PartialEq, Eq, Structural)]
pub enum PolicyCombiningAlgorithms {
    DenyOverrides,
    PermitOverrides,
    FirstApplicable,
    OnlyOneApplicable,
    OrderedDenyOverrides,
    OrderedPermitOverrides,
    DenyUnlessPermit,
    PermitUnlessDeny,
    LegacyDenyOverrides,
    LegacyPermitOverrides,
    LegacyOrderedDenyOverrides,
    LegacyOrderedPermitOverrides,
}

/// The wire identifier of a rule-combining algorithm.
pub open spec fn spec_rule_alg_id(a: RuleCombiningAlgorithms) -> Seq<char> {
    match a {
        RuleCombiningAlgorithms::DenyOverrides => "urn:oasis:names:tc:xacml:3.0:rule-combining-algorithm:deny-overrides"@,
        RuleCombiningAlgorithms::PermitOverrides => "urn:oasis:names:tc:xacml:3.0:rule-combining-algorithm:permit-overrides"@,
        RuleCombiningAlgorithms::FirstApplicable => "urn:oasis:names:tc:xacml:1.0:rule-combining-algorithm:first-applicable"@,
        RuleCombiningAlgorithms::OrderedDenyOverrides => "urn:oasis:names:tc:xacml:3.0:rule-combining-algorithm:ordered-deny-overrides"@,
        RuleCombiningAlgorithms::OrderedPermitOverrides => "urn:oasis:names:tc:xacml:3.0:rule-combining-algorithm:ordered-permit-overrides"@,
        RuleCombiningAlgorithms::DenyUnlessPermit => "urn:oasis:names:tc:xacml:3.0:rule-combining-algorithm:deny-unless-permit"@,
        RuleCombiningAlgorithms::PermitUnlessDeny => "urn:oasis:names:tc:xacml:3.0:rule-combining-algorithm:permit-unless-deny"@,
        RuleCombiningAlgorithms::LegacyDenyOverrides => "urn:oasis:names:tc:xacml:1.0:rule-combining-algorithm:deny-overrides"@,
        RuleCombiningAlgorithms::LegacyPermitOverrides => "urn:oasis:names:tc:xacml:1.0:rule-combining-algorithm:permit-overrides"@,
        RuleCombiningAlgorithms::LegacyOrderedDenyOverrides => "urn:oasis:names:tc:xacml:1.1:rule-combining-algorithm:ordered-deny-overrides"@,
        RuleCombiningAlgorithms::LegacyOrderedPermitOverrides => "urn:oasis:names:tc:xacml:1.1:rule-combining-algorithm:ordered-permit-overrides"@,
    }
}

/// The rule-combining algorithm, if any, whose wire identifier is `v`.
pub open spec fn spec_rule_alg_from(v: Seq<char>) -> Option<RuleCombiningAlgorithms> {
    if v == "urn:oasis:names:tc:xacml:3.0:rule-combining-algorithm:deny-overrides"@ {
        Some(RuleCombiningAlgorithms::DenyOverrides)
    } else if v == "urn:oasis:names:tc:xacml:3.0:rule-combining-algorithm:permit-overrides"@ {
        Some(RuleCombiningAlgorithms::PermitOverrides)
    } else if v == "urn:oasis:names:tc:xacml:1.0:rule-combining-algorithm:first-applicable"@ {
        Some(RuleCombiningAlgorithms::FirstApplicable)
    } else if v == "urn:oasis:names:tc:xacml:3.0:rule-combining-algorithm:ordered-deny-overrides"@ {
        Some(RuleCombiningAlgorithms::OrderedDenyOverrides)
    } else if v
        == "urn:oasis:names:tc:xacml:3.0:rule-combining-algorithm:ordered-permit-overrides"@ {
        Some(RuleCombiningAlgorithms::OrderedPermitOverrides)
    } else if v == "urn:oasis:names:tc:xacml:3.0:rule-combining-algorithm:deny-unless-permit"@ {
        Some(RuleCombiningAlgorithms::DenyUnlessPermit)
    } else if v == "urn:oasis:names:tc:xacml:3.0:rule-combining-algorithm:permit-unless-deny"@ {
        Some(RuleCombiningAlgorithms::PermitUnlessDeny)
    } else if v == "urn:oasis:names:tc:xacml:1.0:rule-combining-algorithm:deny-overrides"@ {
        Some(RuleCombiningAlgorithms::LegacyDenyOverrides)
    } else if v == "urn:oasis:names:tc:xacml:1.0:rule-combining-algorithm:permit-overrides"@ {
        Some(RuleCombiningAlgorithms::LegacyPermitOverrides)
    } else if v == "urn:oasis:names:tc:xacml:1.1:rule-combining-algorithm:ordered-deny-overrides"@ {
        Some(RuleCombiningAlgorithms::LegacyOrderedDenyOverrides)
    } else if v
        == "urn:oasis:names:tc:xacml:1.1:rule-combining-algorithm:ordered-permit-overrides"@ {
        Some(RuleCombiningAlgorithms::LegacyOrderedPermitOverrides)
    } else {
        None
    }
}

impl RuleCombiningAlgorithms {
    pub fn to_xacml_id(&self) -> (r: &'static str)
        ensures
            r@ == spec_rule_alg_id(*self),
    {
        match self {
            RuleCombiningAlgorithms::DenyOverrides => "urn:oasis:names:tc:xacml:3.0:rule-combining-algorithm:deny-overrides",
            RuleCombiningAlgorithms::PermitOverrides => "urn:oasis:names:tc:xacml:3.0:rule-combining-algorithm:permit-overrides",
            RuleCombiningAlgorithms::FirstApplicable => "urn:oasis:names:tc:xacml:1.0:rule-combining-algorithm:first-applicable",
            RuleCombiningAlgorithms::OrderedDenyOverrides => "urn:oasis:names:tc:xacml:3.0:rule-combining-algorithm:ordered-deny-overrides",
            RuleCombiningAlgorithms::OrderedPermitOverrides => "urn:oasis:names:tc:xacml:3.0:rule-combining-algorithm:ordered-permit-overrides",
            RuleCombiningAlgorithms::DenyUnlessPermit => "urn:oasis:names:tc:xacml:3.0:rule-combining-algorithm:deny-unless-permit",
            RuleCombiningAlgorithms::PermitUnlessDeny => "urn:oasis:names:tc:xacml:3.0:rule-combining-algorithm:permit-unless-deny",
            RuleCombiningAlgorithms::LegacyDenyOverrides => "urn:oasis:names:tc:xacml:1.0:rule-combining-algorithm:deny-overrides",
            RuleCombiningAlgorithms::LegacyPermitOverrides => "urn:oasis:names:tc:xacml:1.0:rule-combining-algorithm:permit-overrides",
            RuleCombiningAlgorithms::LegacyOrderedDenyOverrides => "urn:oasis:names:tc:xacml:1.1:rule-combining-algorithm:ordered-deny-overrides",
            RuleCombiningAlgorithms::LegacyOrderedPermitOverrides => "urn:oasis:names:tc:xacml:1.1:rule-combining-algorithm:ordered-permit-overrides",
        }
    }

    /// Parses a wire identifier back into a rule-combining algorithm.
    pub fn from_xacml_id(s: &str) -> (r: Option<RuleCombiningAlgorithms>)
        ensures
            r == spec_rule_alg_from(s@),
    {
        if crate::identifiers::str_eq(
            s,
            "urn:oasis:names:tc:xacml:3.0:rule-combining-algorithm:deny-overrides",
        ) {
            Some(RuleCombiningAlgorithms::DenyOverrides)
        } else if crate::identifiers::str_eq(
            s,
            "urn:oasis:names:tc:xacml:3.0:rule-combining-algorithm:permit-overrides",
        ) {
            Some(RuleCombiningAlgorithms::PermitOverrides)
        } else if crate::identifiers::str_eq(
            s,
            "urn:oasis:names:tc:xacml:1.0:rule-combining-algorithm:first-applicable",
        ) {
            Some(RuleCombiningAlgorithms::FirstApplicable)
        } else if crate::identifiers::str_eq(
            s,
            "urn:oasis:names:tc:xacml:3.0:rule-combining-algorithm:ordered-deny-overrides",
        ) {
            Some(RuleCombiningAlgorithms::OrderedDenyOverrides)
        } else if crate::identifiers::str_eq(
            s,
            "urn:oasis:names:tc:xacml:3.0:rule-combining-algorithm:ordered-permit-overrides",
        ) {
            Some(RuleCombiningAlgorithms::OrderedPermitOverrides)
        } else if crate::identifiers::str_eq(
            s,
            "urn:oasis:names:tc:xacml:3.0:rule-combining-algorithm:deny-unless-permit",
        ) {
            Some(RuleCombiningAlgorithms::DenyUnlessPermit)
        } else if crate::identifiers::str_eq(
            s,
            "urn:oasis:names:tc:xacml:3.0:rule-combining-algorithm:permit-unless-deny",
        ) {
            Some(RuleCombiningAlgorithms::PermitUnlessDeny)
        } else if crate::identifiers::str_eq(
            s,
            "urn:oasis:names:tc:xacml:1.0:rule-combining-algorithm:deny-overrides",
        ) {
            Some(RuleCombiningAlgorithms::LegacyDenyOverrides)
        } else if crate::identifiers::str_eq(
            s,
            "urn:oasis:names:tc:xacml:1.0:rule-combining-algorithm:permit-overrides",
        ) {
            Some(RuleCombiningAlgorithms::LegacyPermitOverrides)
        } else if crate::identifiers::str_eq(
            s,
            "urn:oasis:names:tc:xacml:1.1:rule-combining-algorithm:ordered-deny-overrides",
        ) {
            Some(RuleCombiningAlgorithms::LegacyOrderedDenyOverrides)
        } else if crate::identifiers::str_eq(
            s,
            "urn:oasis:names:tc:xacml:1.1:rule-combining-algorithm:ordered-permit-overrides",
        ) {
            Some(RuleCombiningAlgorithms::LegacyOrderedPermitOverrides)
        } else {
            None
        }
    }
}

impl core::str::FromStr for RuleCombiningAlgorithms {
    type Err = ();

    fn from_str(s: &str) -> Result<Self, Self::Err> {
        match RuleCombiningAlgorithms::from_xacml_id(s) {
            Some(a) => Ok(a),
            None => Err(()),
        }
    }
}

/// The wire identifier of a policy-combining algorithm.
pub open spec fn spec_policy_alg_id(a: PolicyCombiningAlgorithms) -> Seq<char> {
    match a {
        PolicyCombiningAlgorithms::DenyOverrides => "urn:oasis:names:tc:xacml:3.0:policy-combining-algorithm:deny-overrides"@,
        PolicyCombiningAlgorithms::PermitOverrides => "urn:oasis:names:tc:xacml:3.0:policy-combining-algorithm:permit-overrides"@,
        PolicyCombiningAlgorithms::FirstApplicable => "urn:oasis:names:tc:xacml:1.0:policy-combining-algorithm:first-applicable"@,
        PolicyCombiningAlgorithms::OnlyOneApplicable => "urn:oasis:names:tc:xacml:1.0:policy-combining-algorithm:only-one-applicable"@,
        PolicyCombiningAlgorithms::OrderedDenyOverrides => "urn:oasis:names:tc:xacml:3.0:policy-combining-algorithm:ordered-deny-overrides"@,
        PolicyCombiningAlgorithms::OrderedPermitOverrides => "urn:oasis:names:tc:xacml:3.0:policy-combining-algorithm:ordered-permit-overrides"@,
        PolicyCombiningAlgorithms::DenyUnlessPermit => "urn:oasis:names:tc:xacml:3.0:policy-combining-algorithm:deny-unless-permit"@,
        PolicyCombiningAlgorithms::PermitUnlessDeny => "urn:oasis:names:tc:xacml:3.0:policy-combining-algorithm:permit-unless-deny"@,
        PolicyCombiningAlgorithms::LegacyDenyOverrides => "urn:oasis:names:tc:xacml:1.0:policy-combining-algorithm:deny-overrides"@,
        PolicyCombiningAlgorithms::LegacyPermitOverrides => "urn:oasis:names:tc:xacml:1.0:policy-combining-algorithm:permit-overrides"@,
        PolicyCombiningAlgorithms::LegacyOrderedDenyOverrides => "urn:oasis:names:tc:xacml:1.1:policy-combining-algorithm:ordered-deny-overrides"@,
        PolicyCombiningAlgorithms::LegacyOrderedPermitOverrides => "urn:oasis:names:tc:xacml:1.1:policy-combining-algorithm:ordered-permit-overrides"@,
    }
}

/// The policy-combining algorithm, if any, whose wire identifier is `v`.
pub open spec fn spec_policy_alg_from(v: Seq<char>) -> Option<PolicyCombiningAlgorithms> {
    if v == "urn:oasis:names:tc:xacml:3.0:policy-combining-algorithm:deny-overrides"@ {
        Some(PolicyCombiningAlgorithms::DenyOverrides)
    } else if v == "urn:oasis:names:tc:xacml:3.0:policy-combining-algorithm:permit-overrides"@ {
        Some(PolicyCombiningAlgorithms::PermitOverrides)
    } else if v == "urn:oasis:names:tc:xacml:1.0:policy-combining-algorithm:first-applicable"@ {
        Some(PolicyCombiningAlgorithms::FirstApplicable)
    } else if v == "urn:oasis:names:tc:xacml:1.0:policy-combining-algorithm:only-one-applicable"@ {
        Some(PolicyCombiningAlgorithms::OnlyOneApplicable)
    } else if v
        == "urn:oasis:names:tc:xacml:3.0:policy-combining-algorithm:ordered-deny-overrides"@ {
        Some(PolicyCombiningAlgorithms::OrderedDenyOverrides)
    } else if v
        == "urn:oasis:names:tc:xacml:3.0:policy-combining-algorithm:ordered-permit-overrides"@ {
        Some(PolicyCombiningAlgorithms::OrderedPermitOverrides)
    } else if v == "urn:oasis:names:tc:xacml:3.0:policy-combining-algorithm:deny-unless-permit"@ {
        Some(PolicyCombiningAlgorithms::DenyUnlessPermit)
    } else if v == "urn:oasis:names:tc:xacml:3.0:policy-combining-algorithm:permit-unless-deny"@ {
        Some(PolicyCombiningAlgorithms::PermitUnlessDeny)
    } else if v == "urn:oasis:names:tc:xacml:1.0:policy-combining-algorithm:deny-overrides"@ {
        Some(PolicyCombiningAlgorithms::LegacyDenyOverrides)
    } else if v == "urn:oasis:names:tc:xacml:1.0:policy-combining-algorithm:permit-overrides"@ {
        Some(PolicyCombiningAlgorithms::LegacyPermitOverrides)
    } else if v
        == "urn:oasis:names:tc:xacml:1.1:policy-combining-algorithm:ordered-deny-overrides"@ {
        Some(PolicyCombiningAlgorithms::LegacyOrderedDenyOverrides)
    } else if v
        == "urn:oasis:names:tc:xacml:1.1:policy-combining-algorithm:ordered-permit-overrides"@ {
        Some(PolicyCombiningAlgorithms::LegacyOrderedPermitOverrides)
    } else {
        None
    }
}

impl PolicyCombiningAlgorithms {
    pub fn to_xacml_id(&self) -> (r: &'static str)
        ensures
            r@ == spec_policy_alg_id(*self),
    {
        match self {
            PolicyCombiningAlgorithms::DenyOverrides => "urn:oasis:names:tc:xacml:3.0:policy-combining-algorithm:deny-overrides",
            PolicyCombiningAlgorithms::PermitOverrides => "urn:oasis:names:tc:xacml:3.0:policy-combining-algorithm:permit-overrides",
            PolicyCombiningAlgorithms::FirstApplicable => "urn:oasis:names:tc:xacml:1.0:policy-combining-algorithm:first-applicable",
            PolicyCombiningAlgorithms::OnlyOneApplicable => "urn:oasis:names:tc:xacml:1.0:policy-combining-algorithm:only-one-applicable",
            PolicyCombiningAlgorithms::OrderedDenyOverrides => "urn:oasis:names:tc:xacml:3.0:policy-combining-algorithm:ordered-deny-overrides",
            PolicyCombiningAlgorithms::OrderedPermitOverrides => "urn:oasis:names:tc:xacml:3.0:policy-combining-algorithm:ordered-permit-overrides",
            PolicyCombiningAlgorithms::DenyUnlessPermit => "urn:oasis:names:tc:xacml:3.0:policy-combining-algorithm:deny-unless-permit",
            PolicyCombiningAlgorithms::PermitUnlessDeny => "urn:oasis:names:tc:xacml:3.0:policy-combining-algorithm:permit-unless-deny",
            PolicyCombiningAlgorithms::LegacyDenyOverrides => "urn:oasis:names:tc:xacml:1.0:policy-combining-algorithm:deny-overrides",
            PolicyCombiningAlgorithms::LegacyPermitOverrides => "urn:oasis:names:tc:xacml:1.0:policy-combining-algorithm:permit-overrides",
            PolicyCombiningAlgorithms::LegacyOrderedDenyOverrides => "urn:oasis:names:tc:xacml:1.1:policy-combining-algorithm:ordered-deny-overrides",
            PolicyCombiningAlgorithms::LegacyOrderedPermitOverrides => "urn:oasis:names:tc:xacml:1.1:policy-combining-algorithm:ordered-permit-overrides",
        }
    }

    /// Parses a wire identifier back into a policy-combining algorithm.
    pub fn from_xacml_id(s: &str) -> (r: Option<PolicyCombiningAlgorithms>)
        ensures
            r == spec_policy_alg_from(s@),
    {
        if crate::identifiers::str_eq(
            s,
            "urn:oasis:names:tc:xacml:3.0:policy-combining-algorithm:deny-overrides",
        ) {
            Some(PolicyCombiningAlgorithms::DenyOverrides)
        } else if crate::identifiers::str_eq(
            s,
            "urn:oasis:names:tc:xacml:3.0:policy-combining-algorithm:permit-overrides",
        ) {
            Some(PolicyCombiningAlgorithms::PermitOverrides)
        } else if crate::identifiers::str_eq(
            s,
            "urn:oasis:names:tc:xacml:1.0:policy-combining-algorithm:first-applicable",
        ) {
            Some(PolicyCombiningAlgorithms::FirstApplicable)
        } else if crate::identifiers::str_eq(
            s,
            "urn:oasis:names:tc:xacml:1.0:policy-combining-algorithm:only-one-applicable",
        ) {
            Some(PolicyCombiningAlgorithms::OnlyOneApplicable)
        } else if crate::identifiers::str_eq(
            s,
            "urn:oasis:names:tc:xacml:3.0:policy-combining-algorithm:ordered-deny-overrides",
        ) {
            Some(PolicyCombiningAlgorithms::OrderedDenyOverrides)
        } else if crate::identifiers::str_eq(
            s,
            "urn:oasis:names:tc:xacml:3.0:policy-combining-algorithm:ordered-permit-overrides",
        ) {
            Some(PolicyCombiningAlgorithms::OrderedPermitOverrides)
        } else if crate::identifiers::str_eq(
            s,
            "urn:oasis:names:tc:xacml:3.0:policy-combining-algorithm:deny-unless-permit",
        ) {
            Some(PolicyCombiningAlgorithms::DenyUnlessPermit)
        } else if crate::identifiers::str_eq(
            s,
            "urn:oasis:names:tc:xacml:3.0:policy-combining-algorithm:permit-unless-deny",
        ) {
            Some(PolicyCombiningAlgorithms::PermitUnlessDeny)
        } else if crate::identifiers::str_eq(
            s,
            "urn:oasis:names:tc:xacml:1.0:policy-combining-algorithm:deny-overrides",
        ) {
            Some(PolicyCombiningAlgorithms::LegacyDenyOverrides)
        } else if crate::identifiers::str_eq(
            s,
            "urn:oasis:names:tc:xacml:1.0:policy-combining-algorithm:permit-overrides",
        ) {
            Some(PolicyCombiningAlgorithms::LegacyPermitOverrides)
        } else if crate::identifiers::str_eq(
            s,
            "urn:oasis:names:tc:xacml:1.1:policy-combining-algorithm:ordered-deny-overrides",
        ) {
            Some(PolicyCombiningAlgorithms::LegacyOrderedDenyOverrides)
        } else if crate::identifiers::str_eq(
            s,
            "urn:oasis:names:tc:xacml:1.1:policy-combining-algorithm:ordered-permit-overrides",
        ) {
            Some(PolicyCombiningAlgorithms::LegacyOrderedPermitOverrides)
        } else {
            None
        }
    }
}

impl core::str::FromStr for PolicyCombiningAlgorithms {
    type Err = ();

    fn from_str(s: &str) -> Result<Self, Self::Err> {
        match PolicyCombiningAlgorithms::from_xacml_id(s) {
            Some(a) => Ok(a),
            None => Err(()),
        }
    }
}

/// What deny-overrides combines a list of rule results into, the
/// precedence table applied in order, first clause that holds wins: any
/// `Deny` gives `Deny`; any `IndeterminateDP` gives `IndeterminateDP`; an
/// `IndeterminateD` beside an `IndeterminateP` or a `Permit` gives
/// `IndeterminateDP`; any `IndeterminateD` gives `IndeterminateD`; any
/// `Permit` gives `Permit`; any `IndeterminateP` gives `IndeterminateP`;
/// else `NotApplicable`. The outcome depends only on which results occur,
/// never on their order or multiplicity.
pub open spec fn spec_deny_overrides(rs: Seq<RuleResult>) -> PolicyResult {
    if rs.contains(RuleResult::Deny) {
        PolicyResult::Deny
    } else if rs.contains(RuleResult::IndeterminateDP) {
        PolicyResult::IndeterminateDP
    } else if rs.contains(RuleResult::IndeterminateD) && (rs.contains(RuleResult::IndeterminateP)
        || rs.contains(RuleResult::Permit)) {
        PolicyResult::IndeterminateDP
    } else if rs.contains(RuleResult::IndeterminateD) {
        PolicyResult::IndeterminateD
    } else if rs.contains(RuleResult::Permit) {
        PolicyResult::Permit
    } else if rs.contains(RuleResult::IndeterminateP) {
        PolicyResult::IndeterminateP
    } else {
        PolicyResult::NotApplicable
    }
}

/// What combining yields: the deny-overrides table for that algorithm, a
/// `NotImplemented` error for every other algorithm.
pub open spec fn spec_combine(alg: RuleCombiningAlgorithms, rs: Seq<RuleResult>) -> Result<
    PolicyResult,
    XacmlErrorType,
> {
    match alg {
        RuleCombiningAlgorithms::DenyOverrides => Ok(spec_deny_overrides(rs)),
        _ => Err(XacmlErrorType::NotImplemented),
    }
}

/// Whether an exec policy result agrees with the specified one.
pub open spec fn spec_pr_result_matches(
    r: Result<PolicyResult, XacmlError>,
    s: Result<PolicyResult, XacmlErrorType>,
) -> bool {
    match (r, s) {
        (Ok(t), Ok(st)) => t == st,
        (Err(e), Err(k)) => e.error_type == k,
        _ => false,
    }
}

/// Whether a list of rule results holds the given result.
fn contains_result(results: &Vec<RuleResult>, v: RuleResult) -> (r: bool)
    ensures
        r == results@.contains(v),
{
    let n = results.len();
    let mut i: usize = 0;
    while i < n
        invariant
            i <= n,
            n == results@.len(),
            forall|j: int| 0 <= j < i ==> results@[j] != v,
        decreases n - i,
    {
        if results[i] == v {
            proof {
                assert(results@[i as int] == v);
            }
            return true;
        }
        i += 1;
    }
    false
}

/// Combines rule results by the deny-overrides precedence table.
pub fn deny_overrides(results: &Vec<RuleResult>) -> (r: Result<PolicyResult, XacmlError>)
    ensures
        r == Ok::<PolicyResult, XacmlError>(spec_deny_overrides(results@)),
{
    if contains_result(results, RuleResult::Deny) {
        return Ok(PolicyResult::Deny);
    }
    if contains_result(results, RuleResult::IndeterminateDP) {
        return Ok(PolicyResult::IndeterminateDP);
    }
    if contains_result(results, RuleResult::IndeterminateD) && (contains_result(
        results,
        RuleResult::IndeterminateP,
    ) || contains_result(results, RuleResult::Permit)) {
        return Ok(PolicyResult::IndeterminateDP);
    }
    if contains_result(results, RuleResult::IndeterminateD) {
        return Ok(PolicyResult::IndeterminateD);
    }
    if contains_result(results, RuleResult::Permit) {
        return Ok(PolicyResult::Permit);
    }
    if contains_result(results, RuleResult::IndeterminateP) {
        return Ok(PolicyResult::IndeterminateP);
    }
    Ok(PolicyResult::NotApplicable)
}

impl RuleCombiningAlgorithms {
    /// Applies this combining algorithm to a list of rule results; only
    /// deny-overrides is implemented, every other identifier reports
    /// `NotImplemented`. Combiner parameters are accepted but unused, as
    /// no standard algorithm reads them.
    pub fn apply(
        &self,
        results: &Vec<RuleResult>,
        _parameters: &Option<Vec<RuleCombinerParametersType>>,
    ) -> (r: Result<PolicyResult, XacmlError>)
        ensures
            spec_pr_result_matches(r, spec_combine(*self, results@)),
    {
        match self {
            RuleCombiningAlgorithms::DenyOverrides => deny_overrides(results),
            _ => Err(
                XacmlError::new(
                    XacmlErrorType::NotImplemented,
                    "RuleCombiningAlgorithm not yet implemented".to_owned(),
                ),
            ),
        }
    }
}

} // verus!
