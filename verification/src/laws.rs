use vstd::prelude::*;

use crate::combining::{spec_deny_overrides, PolicyResult};
use crate::errors::XacmlErrorType;
use crate::request::{spec_raw_resolve, spec_resolve, AttributeDesignatorType, RequestType};
use crate::rule::{spec_evaluate_rule, spec_rule_condition, spec_rule_target, RuleResult, RuleType};
use crate::target::{
    spec_all_match, spec_allof, spec_allof_list, spec_any_nomatch, spec_anyof, spec_anyof_list,
    spec_match, spec_match_list, spec_target, AllOfType, AnyOfType, MatchType, TargetResult,
    TargetType,
};
use crate::values::Value;

verus! {

/// A target whose `AnyOf` list is absent or empty evaluates to `Match` for
/// every request: universal applicability.
pub proof fn lemma_empty_target_always_matches(t: TargetType, req: RequestType)
    requires
        t.any_of is None || t.any_of->Some_0@.len() == 0,
    ensures
        spec_target(t, req) == Ok::<TargetResult, XacmlErrorType>(TargetResult::Match),
{
}

/// When every `AllOf` child of a list evaluates without error, the list
/// evaluates to exactly the children's results, in order.
proof fn lemma_allof_list_ok(xs: Seq<AllOfType>, req: RequestType)
    requires
        forall|i: int| 0 <= i < xs.len() ==> (#[trigger] spec_allof(xs[i], req)) is Ok,
    ensures
        spec_allof_list(xs, req) is Ok,
        spec_allof_list(xs, req)->Ok_0.len() == xs.len(),
        forall|i: int|
            0 <= i < xs.len() ==> #[trigger] spec_allof_list(xs, req)->Ok_0[i] == spec_allof(
                xs[i],
                req,
            )->Ok_0,
    decreases xs.len(),
{
    if xs.len() > 0 {
        assert forall|i: int|
            0 <= i < xs.drop_last().len() implies (#[trigger] spec_allof(
            xs.drop_last()[i],
            req,
        )) is Ok by {
            assert(xs.drop_last()[i] == xs[i]);
        }
        lemma_allof_list_ok(xs.drop_last(), req);
        assert(spec_allof(xs.last(), req) is Ok);
        assert forall|i: int|
            0 <= i < xs.len() implies #[trigger] spec_allof_list(xs, req)->Ok_0[i] == spec_allof(
            xs[i],
            req,
        )->Ok_0 by {
            if i < xs.len() - 1 {
                assert(spec_allof_list(xs.drop_last(), req)->Ok_0[i] == spec_allof(
                    xs.drop_last()[i],
                    req,
                )->Ok_0);
                assert(xs.drop_last()[i] == xs[i]);
            } else {
                assert(xs.last() == xs[i]);
            }
        }
    }
}

/// Disjunction law, first half: an `AnyOf` whose `AllOf` children all
/// evaluate to `NoMatch` evaluates to `NoMatch`, for every well-formed
/// non-empty child list.
pub proof fn lemma_anyof_all_nomatch(a: AnyOfType, req: RequestType)
    requires
        a.all_of@.len() > 0,
        forall|i: int|
            0 <= i < a.all_of@.len() ==> #[trigger] spec_allof(a.all_of@[i], req) == Ok::<
                TargetResult,
                XacmlErrorType,
            >(TargetResult::NoMatch),
    ensures
        spec_anyof(a, req) == Ok::<TargetResult, XacmlErrorType>(TargetResult::NoMatch),
{
    lemma_allof_list_ok(a.all_of@, req);
    let rs = spec_allof_list(a.all_of@, req)->Ok_0;
    assert forall|i: int| 0 <= i < rs.len() implies rs[i] is NoMatch by {
        assert(rs[i] == spec_allof(a.all_of@[i], req)->Ok_0);
    }
}

/// Disjunction law, second half: an `AnyOf` with at least one `Match`
/// child evaluates to `Match`, provided every child evaluates without
/// error.
pub proof fn lemma_anyof_some_match(a: AnyOfType, req: RequestType, w: int)
    requires
        forall|i: int| 0 <= i < a.all_of@.len() ==> (#[trigger] spec_allof(a.all_of@[i], req)) is Ok,
        0 <= w < a.all_of@.len(),
        spec_allof(a.all_of@[w], req) == Ok::<TargetResult, XacmlErrorType>(TargetResult::Match),
    ensures
        spec_anyof(a, req) == Ok::<TargetResult, XacmlErrorType>(TargetResult::Match),
{
    lemma_allof_list_ok(a.all_of@, req);
    let rs = spec_allof_list(a.all_of@, req)->Ok_0;
    assert(rs[w] == spec_allof(a.all_of@[w], req)->Ok_0);
    assert(rs[w] is Match);
}

/// Deny-overrides depends only on which results occur, never on their
/// order or multiplicity: two result lists that contain the same results
/// combine to the same outcome. In particular the combination is invariant
/// under every reordering of its inputs.
pub proof fn lemma_deny_overrides_reorder(rs1: Seq<RuleResult>, rs2: Seq<RuleResult>)
    requires
        forall|v: RuleResult| #[trigger] rs1.contains(v) == #[trigger] rs2.contains(v),
    ensures
        spec_deny_overrides(rs1) == spec_deny_overrides(rs2),
{
    assert(rs1.contains(RuleResult::Deny) == rs2.contains(RuleResult::Deny));
    assert(rs1.contains(RuleResult::IndeterminateDP) == rs2.contains(RuleResult::IndeterminateDP));
    assert(rs1.contains(RuleResult::IndeterminateD) == rs2.contains(RuleResult::IndeterminateD));
    assert(rs1.contains(RuleResult::IndeterminateP) == rs2.contains(RuleResult::IndeterminateP));
    assert(rs1.contains(RuleResult::Permit) == rs2.contains(RuleResult::Permit));
}

/// Round trip through a rule: when a rule's target matches and its
/// condition is true, the rule evaluates to exactly its effect — `Permit`
/// for a permit rule, and flipping the effect to `Deny` with the identical
/// target and condition yields `Deny`.
pub proof fn lemma_rule_effect_roundtrip(rule: RuleType, req: RequestType)
    requires
        spec_rule_target(rule, req) == Ok::<TargetResult, XacmlErrorType>(TargetResult::Match),
        spec_rule_condition(rule, req) == Ok::<bool, XacmlErrorType>(true),
    ensures
        rule.effect is Permit ==> spec_evaluate_rule(rule, req) == Ok::<
            RuleResult,
            XacmlErrorType,
        >(RuleResult::Permit),
        rule.effect is Deny ==> spec_evaluate_rule(rule, req) == Ok::<RuleResult, XacmlErrorType>(
            RuleResult::Deny,
        ),
{
}

/// Boundary law, first step: a required designator that matches nothing in
/// the request resolves to the single sentinel `[Indeterminate]`.
pub proof fn lemma_required_missing_resolves_indeterminate(
    req: RequestType,
    d: AttributeDesignatorType,
)
    requires
        d.must_be_present,
        spec_raw_resolve(req, d).len() == 0,
    ensures
        spec_resolve(req, d) == seq![Value::Indeterminate],
{
}

/// Boundary law, second step: a match element whose required designator
/// matches nothing evaluates to `Indeterminate`.
pub proof fn lemma_required_missing_match_indeterminate(m: MatchType, req: RequestType)
    requires
        m.attribute_designator is Some,
        m.attribute_selector is None,
        m.attribute_designator->Some_0.must_be_present,
        spec_raw_resolve(req, m.attribute_designator->Some_0).len() == 0,
    ensures
        spec_match(m, req) == Ok::<TargetResult, XacmlErrorType>(TargetResult::Indeterminate),
{
    lemma_required_missing_resolves_indeterminate(req, m.attribute_designator->Some_0);
}

/// Boundary law, third step: a target made of a single `AnyOf` holding a
/// single `AllOf` holding a single match element evaluates to
/// `Indeterminate` when that match element does.
pub proof fn lemma_single_match_target_indeterminate(
    t: TargetType,
    ao: AnyOfType,
    al: AllOfType,
    m: MatchType,
    req: RequestType,
)
    requires
        t.any_of matches Some(v) && v@ == seq![ao],
        ao.all_of@ == seq![al],
        al._match@ == seq![m],
        spec_match(m, req) == Ok::<TargetResult, XacmlErrorType>(TargetResult::Indeterminate),
    ensures
        spec_target(t, req) == Ok::<TargetResult, XacmlErrorType>(TargetResult::Indeterminate),
{
    reveal_with_fuel(spec_match_list, 2);
    reveal_with_fuel(spec_allof_list, 2);
    reveal_with_fuel(spec_anyof_list, 2);
    let ms = al._match@;
    assert(ms.drop_last() =~= Seq::<MatchType>::empty());
    assert(ms.last() == m);
    let mrs = spec_match_list(ms, req)->Ok_0;
    assert(mrs =~= seq![TargetResult::Indeterminate]);
    assert(!spec_all_match(mrs)) by {
        assert(mrs[0] is Indeterminate);
    }
    assert(!spec_any_nomatch(mrs));
    assert(spec_allof(al, req) == Ok::<TargetResult, XacmlErrorType>(TargetResult::Indeterminate));
    let xs = ao.all_of@;
    assert(xs.drop_last() =~= Seq::<AllOfType>::empty());
    assert(xs.last() == al);
    let ars = spec_allof_list(xs, req)->Ok_0;
    assert(ars =~= seq![TargetResult::Indeterminate]);
    assert(spec_anyof(ao, req) == Ok::<TargetResult, XacmlErrorType>(TargetResult::Indeterminate));
    let ys = t.any_of->Some_0@;
    assert(ys.drop_last() =~= Seq::<AnyOfType>::empty());
    assert(ys.last() == ao);
    let yrs = spec_anyof_list(ys, req)->Ok_0;
    assert(yrs =~= seq![TargetResult::Indeterminate]);
    assert(!spec_all_match(yrs)) by {
        assert(yrs[0] is Indeterminate);
    }
    assert(!spec_any_nomatch(yrs));
}

/// Boundary law, assembled: a required designator against a request with
/// no matching attribute makes the match element, and with it an enclosing
/// single-`AnyOf`/single-`AllOf` target, evaluate to `Indeterminate`.
pub proof fn lemma_required_missing_boundary(
    t: TargetType,
    ao: AnyOfType,
    al: AllOfType,
    m: MatchType,
    req: RequestType,
)
    requires
        t.any_of matches Some(v) && v@ == seq![ao],
        ao.all_of@ == seq![al],
        al._match@ == seq![m],
        m.attribute_designator is Some,
        m.attribute_selector is None,
        m.attribute_designator->Some_0.must_be_present,
        spec_raw_resolve(req, m.attribute_designator->Some_0).len() == 0,
    ensures
        spec_resolve(req, m.attribute_designator->Some_0) == seq![Value::Indeterminate],
        spec_match(m, req) == Ok::<TargetResult, XacmlErrorType>(TargetResult::Indeterminate),
        spec_target(t, req) == Ok::<TargetResult, XacmlErrorType>(TargetResult::Indeterminate),
{
    lemma_required_missing_match_indeterminate(m, req);
    lemma_single_match_target_indeterminate(t, ao, al, m, req);
}

} // verus!
