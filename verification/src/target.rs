use vstd::prelude::*;

use crate::errors::{XacmlError, XacmlErrorType};
use crate::functions::{spec_apply_function, spec_deref, FunctionId};
use crate::request::{spec_resolve, AttributeDesignatorType, AttributeSelectorType, RequestType};
use crate::values::{AttributeValueType, Value};

verus! {

/// The three-valued outcome of target evaluation, computed fresh per
/// (target, request) pair and never persisted.
#[derive(Debug, Clone, Copy, PartialEq, Eq, Structural)]
pub enum TargetResult {
    Match,
    NoMatch,
    Indeterminate,
}

/// Whether an exec target result agrees with the specified one.
pub open spec fn spec_tr_result_matches(
    r: Result<TargetResult, XacmlError>,
    s: Result<TargetResult, XacmlErrorType>,
) -> bool {
    match (r, s) {
        (Ok(t), Ok(st)) => t == st,
        (Err(e), Err(k)) => e.error_type == k,
        _ => false,
    }
}

/// A match element: a literal value, a match function, and exactly one of
/// an attribute designator or an attribute selector. Holding both or
/// neither reference kind is a structural error.
#[derive(Debug, PartialEq, Eq)]
pub struct MatchType {
    pub match_id: FunctionId,
    pub attribute_value: AttributeValueType,
    pub attribute_designator: Option<AttributeDesignatorType>,
    pub attribute_selector: Option<AttributeSelectorType>,
}

/// A conjunctive sequence of match elements; empty is a structural error.
#[derive(Debug, PartialEq, Eq)]
pub struct AllOfType {
    pub _match: Vec<MatchType>,
}

/// A disjunctive sequence of `AllOf` elements; empty is a structural error.
#[derive(Debug, PartialEq, Eq)]
pub struct AnyOfType {
    pub all_of: Vec<AllOfType>,
}

/// The applicability guard of a policy or rule: a conjunctive sequence of
/// `AnyOf` elements; absent or empty it is universally applicable.
#[derive(Debug, PartialEq, Eq)]
pub struct TargetType {
    pub any_of: Option<Vec<AnyOfType>>,
}

/// The registry result of applying the match function to the literal and
/// the `j`-th element of the resolved bag, in that parameter order.
pub open spec fn spec_pair_apply(fid: FunctionId, lit: Value, bag: Seq<Value>, j: int) -> Result<
    Seq<Value>,
    XacmlErrorType,
> {
    spec_apply_function(fid, seq![lit, bag[j]])
}

/// Whether the `j`-th pairwise call succeeds and returns `Boolean(true)`.
pub open spec fn spec_pair_true(fid: FunctionId, lit: Value, bag: Seq<Value>, j: int) -> bool {
    spec_pair_apply(fid, lit, bag, j) matches Ok(vs) && vs.contains(Value::Boolean(true))
}

/// Whether any pairwise call over the bag fails.
pub open spec fn spec_pair_err_exists(fid: FunctionId, lit: Value, bag: Seq<Value>) -> bool {
    exists|j: int| 0 <= j < bag.len() && spec_pair_apply(fid, lit, bag, j) is Err
}

/// Whether any pairwise call over the bag returns `Boolean(true)`.
pub open spec fn spec_pair_true_exists(fid: FunctionId, lit: Value, bag: Seq<Value>) -> bool {
    exists|j: int| 0 <= j < bag.len() && spec_pair_true(fid, lit, bag, j)
}

/// What a match element evaluates to. With a designator: resolve the bag;
/// the sentinel `[Indeterminate]` gives `Indeterminate`, an empty bag gives
/// `NoMatch`; otherwise the match function is applied pairwise between the
/// literal and each bag element — any failing call gives `Indeterminate`,
/// else any `Boolean(true)` gives `Match`, else `NoMatch`. With a selector:
/// the unimplemented lookup fails per attribute bag, which is absorbed into
/// `Indeterminate` (an empty request resolves nothing and gives `NoMatch`).
/// Both or neither reference kind is a structural error.
pub open spec fn spec_match(m: MatchType, req: RequestType) -> Result<
    TargetResult,
    XacmlErrorType,
> {
    if m.attribute_designator is Some && m.attribute_selector is None {
        let bag = spec_resolve(req, m.attribute_designator->Some_0);
        if bag.len() == 1 && bag[0] is Indeterminate {
            Ok(TargetResult::Indeterminate)
        } else if bag.len() == 0 {
            Ok(TargetResult::NoMatch)
        } else if spec_pair_err_exists(m.match_id, m.attribute_value.value, bag) {
            Ok(TargetResult::Indeterminate)
        } else if spec_pair_true_exists(m.match_id, m.attribute_value.value, bag) {
            Ok(TargetResult::Match)
        } else {
            Ok(TargetResult::NoMatch)
        }
    } else if m.attribute_selector is Some && m.attribute_designator is None {
        if req.attributes@.len() > 0 {
            Ok(TargetResult::Indeterminate)
        } else {
            Ok(TargetResult::NoMatch)
        }
    } else {
        Err(XacmlErrorType::FormatError)
    }
}

/// The results of a list of match elements, in order; the leftmost error
/// wins.
pub open spec fn spec_match_list(ms: Seq<MatchType>, req: RequestType) -> Result<
    Seq<TargetResult>,
    XacmlErrorType,
>
    decreases ms.len(),
{
    if ms.len() == 0 {
        Ok(Seq::empty())
    } else {
        match spec_match_list(ms.drop_last(), req) {
            Err(k) => Err(k),
            Ok(front) => match spec_match(ms.last(), req) {
                Err(k) => Err(k),
                Ok(t) => Ok(front.push(t)),
            },
        }
    }
}

/// Whether every result in the list is `Match`.
pub open spec fn spec_all_match(rs: Seq<TargetResult>) -> bool {
    forall|i: int| 0 <= i < rs.len() ==> rs[i] is Match
}

/// Whether some result in the list is `Match`.
pub open spec fn spec_any_match(rs: Seq<TargetResult>) -> bool {
    exists|i: int| 0 <= i < rs.len() && rs[i] is Match
}

/// Whether every result in the list is `NoMatch`.
pub open spec fn spec_all_nomatch(rs: Seq<TargetResult>) -> bool {
    forall|i: int| 0 <= i < rs.len() ==> rs[i] is NoMatch
}

/// Whether some result in the list is `NoMatch`.
pub open spec fn spec_any_nomatch(rs: Seq<TargetResult>) -> bool {
    exists|i: int| 0 <= i < rs.len() && rs[i] is NoMatch
}

/// The conjunctive reduction of the three-valued table: all `Match` gives
/// `Match`, any `NoMatch` gives `NoMatch`, otherwise `Indeterminate`.
pub open spec fn spec_conjunction(rs: Seq<TargetResult>) -> TargetResult {
    if spec_all_match(rs) {
        TargetResult::Match
    } else if spec_any_nomatch(rs) {
        TargetResult::NoMatch
    } else {
        TargetResult::Indeterminate
    }
}

/// The disjunctive reduction of the three-valued table: any `Match` gives
/// `Match`, all `NoMatch` gives `NoMatch`, otherwise `Indeterminate`.
pub open spec fn spec_disjunction(rs: Seq<TargetResult>) -> TargetResult {
    if spec_any_match(rs) {
        TargetResult::Match
    } else if spec_all_nomatch(rs) {
        TargetResult::NoMatch
    } else {
        TargetResult::Indeterminate
    }
}

/// What an `AllOf` evaluates to: the conjunction of its children; an empty
/// child list is a structural error.
pub open spec fn spec_allof(a: AllOfType, req: RequestType) -> Result<
    TargetResult,
    XacmlErrorType,
> {
    if a._match@.len() == 0 {
        Err(XacmlErrorType::FormatError)
    } else {
        match spec_match_list(a._match@, req) {
            Err(k) => Err(k),
            Ok(rs) => Ok(spec_conjunction(rs)),
        }
    }
}

/// The results of a list of `AllOf` elements, in order; the leftmost error
/// wins.
pub open spec fn spec_allof_list(xs: Seq<AllOfType>, req: RequestType) -> Result<
    Seq<TargetResult>,
    XacmlErrorType,
>
    decreases xs.len(),
{
    if xs.len() == 0 {
        Ok(Seq::empty())
    } else {
        match spec_allof_list(xs.drop_last(), req) {
            Err(k) => Err(k),
            Ok(front) => match spec_allof(xs.last(), req) {
                Err(k) => Err(k),
                Ok(t) => Ok(front.push(t)),
            },
        }
    }
}

/// What an `AnyOf` evaluates to: the disjunction of its children; an empty
/// child list is a structural error.
pub open spec fn spec_anyof(a: AnyOfType, req: RequestType) -> Result<
    TargetResult,
    XacmlErrorType,
> {
    if a.all_of@.len() == 0 {
        Err(XacmlErrorType::FormatError)
    } else {
        match spec_allof_list(a.all_of@, req) {
            Err(k) => Err(k),
            Ok(rs) => Ok(spec_disjunction(rs)),
        }
    }
}

/// The results of a list of `AnyOf` elements, in order; the leftmost error
/// wins.
pub open spec fn spec_anyof_list(xs: Seq<AnyOfType>, req: RequestType) -> Result<
    Seq<TargetResult>,
    XacmlErrorType,
>
    decreases xs.len(),
{
    if xs.len() == 0 {
        Ok(Seq::empty())
    } else {
        match spec_anyof_list(xs.drop_last(), req) {
            Err(k) => Err(k),
            Ok(front) => match spec_anyof(xs.last(), req) {
                Err(k) => Err(k),
                Ok(t) => Ok(front.push(t)),
            },
        }
    }
}

/// What a target evaluates to: `Match` when the `AnyOf` list is absent or
/// empty (universal applicability), otherwise the conjunction of the
/// `AnyOf` results.
pub open spec fn spec_target(t: TargetType, req: RequestType) -> Result<
    TargetResult,
    XacmlErrorType,
> {
    if t.any_of is None || t.any_of->Some_0@.len() == 0 {
        Ok(TargetResult::Match)
    } else {
        match spec_anyof_list(t.any_of->Some_0@, req) {
            Err(k) => Err(k),
            Ok(rs) => Ok(spec_conjunction(rs)),
        }
    }
}

/// Pushing one result onto a list relates the quantified reductions over
/// the longer list to those over the shorter one.
proof fn lemma_flags_push(rs: Seq<TargetResult>, t: TargetResult)
    ensures
        spec_all_match(rs.push(t)) == (spec_all_match(rs) && t is Match),
        spec_any_match(rs.push(t)) == (spec_any_match(rs) || t is Match),
        spec_all_nomatch(rs.push(t)) == (spec_all_nomatch(rs) && t is NoMatch),
        spec_any_nomatch(rs.push(t)) == (spec_any_nomatch(rs) || t is NoMatch),
{
    let rs2 = rs.push(t);
    assert(rs2[rs.len() as int] == t);
    assert(forall|j: int| 0 <= j < rs.len() ==> rs2[j] == rs[j]);
    if spec_all_match(rs) && t is Match {
        assert forall|j: int| 0 <= j < rs2.len() implies rs2[j] is Match by {
            if j < rs.len() {
                assert(rs2[j] == rs[j]);
            }
        }
    }
    if spec_all_match(rs2) {
        assert forall|j: int| 0 <= j < rs.len() implies rs[j] is Match by {
            assert(rs[j] == rs2[j]);
        }
    }
    if spec_any_match(rs) {
        let w = choose|j: int| 0 <= j < rs.len() && rs[j] is Match;
        assert(rs2[w] is Match);
    }
    if spec_any_match(rs2) && !(t is Match) {
        let w = choose|j: int| 0 <= j < rs2.len() && rs2[j] is Match;
        assert(w < rs.len());
        assert(rs[w] is Match);
    }
    if spec_all_nomatch(rs) && t is NoMatch {
        assert forall|j: int| 0 <= j < rs2.len() implies rs2[j] is NoMatch by {
            if j < rs.len() {
                assert(rs2[j] == rs[j]);
            }
        }
    }
    if spec_all_nomatch(rs2) {
        assert forall|j: int| 0 <= j < rs.len() implies rs[j] is NoMatch by {
            assert(rs[j] == rs2[j]);
        }
    }
    if spec_any_nomatch(rs) {
        let w = choose|j: int| 0 <= j < rs.len() && rs[j] is NoMatch;
        assert(rs2[w] is NoMatch);
    }
    if spec_any_nomatch(rs2) && !(t is NoMatch) {
        let w = choose|j: int| 0 <= j < rs2.len() && rs2[j] is NoMatch;
        assert(w < rs.len());
        assert(rs[w] is NoMatch);
    }
}

/// An error of one match element makes the whole list evaluate to the
/// leftmost such error.
proof fn lemma_match_list_prefix_err(
    ms: Seq<MatchType>,
    req: RequestType,
    i: int,
    k: XacmlErrorType,
)
    requires
        0 <= i < ms.len(),
        spec_match_list(ms.take(i), req) is Ok,
        spec_match(ms[i], req) == Err::<TargetResult, XacmlErrorType>(k),
    ensures
        spec_match_list(ms, req) == Err::<Seq<TargetResult>, XacmlErrorType>(k),
    decreases ms.len(),
{
    if i == ms.len() - 1 {
        assert(ms.drop_last() =~= ms.take(i));
        assert(ms.last() == ms[i]);
    } else {
        assert(ms.drop_last().take(i) =~= ms.take(i));
        assert(ms.drop_last()[i] == ms[i]);
        lemma_match_list_prefix_err(ms.drop_last(), req, i, k);
    }
}

/// An error of one `AllOf` makes the whole list evaluate to the leftmost
/// such error.
proof fn lemma_allof_list_prefix_err(
    xs: Seq<AllOfType>,
    req: RequestType,
    i: int,
    k: XacmlErrorType,
)
    requires
        0 <= i < xs.len(),
        spec_allof_list(xs.take(i), req) is Ok,
        spec_allof(xs[i], req) == Err::<TargetResult, XacmlErrorType>(k),
    ensures
        spec_allof_list(xs, req) == Err::<Seq<TargetResult>, XacmlErrorType>(k),
    decreases xs.len(),
{
    if i == xs.len() - 1 {
        assert(xs.drop_last() =~= xs.take(i));
        assert(xs.last() == xs[i]);
    } else {
        assert(xs.drop_last().take(i) =~= xs.take(i));
        assert(xs.drop_last()[i] == xs[i]);
        lemma_allof_list_prefix_err(xs.drop_last(), req, i, k);
    }
}

/// An error of one `AnyOf` makes the whole list evaluate to the leftmost
/// such error.
proof fn lemma_anyof_list_prefix_err(
    xs: Seq<AnyOfType>,
    req: RequestType,
    i: int,
    k: XacmlErrorType,
)
    requires
        0 <= i < xs.len(),
        spec_anyof_list(xs.take(i), req) is Ok,
        spec_anyof(xs[i], req) == Err::<TargetResult, XacmlErrorType>(k),
    ensures
        spec_anyof_list(xs, req) == Err::<Seq<TargetResult>, XacmlErrorType>(k),
    decreases xs.len(),
{
    if i == xs.len() - 1 {
        assert(xs.drop_last() =~= xs.take(i));
        assert(xs.last() == xs[i]);
    } else {
        assert(xs.drop_last().take(i) =~= xs.take(i));
        assert(xs.drop_last()[i] == xs[i]);
        lemma_anyof_list_prefix_err(xs.drop_last(), req, i, k);
    }
}

/// Whether a bag of values holds `Boolean(true)`.
fn has_true(vs: &Vec<Value>) -> (r: bool)
    ensures
        r == vs@.contains(Value::Boolean(true)),
{
    let n = vs.len();
    let mut i: usize = 0;
    while i < n
        invariant
            i <= n,
            n == vs@.len(),
            forall|j: int| 0 <= j < i ==> vs@[j] != Value::Boolean(true),
        decreases n - i,
    {
        match &vs[i] {
            Value::Boolean(b) => {
                if *b {
                    proof {
                        assert(vs@[i as int] == Value::Boolean(true));
                    }
                    return true;
                }
            },
            _ => {
            },
        }
        i += 1;
    }
    false
}

impl MatchType {
    /// Evaluates this match element against a request into the three-valued
    /// outcome of `spec_match`: processing faults are absorbed into
    /// `Indeterminate`, and only a structurally malformed element (both or
    /// neither attribute reference) is an error.
    #[verifier::loop_isolation(false)]
    pub fn match_request(&self, request: &RequestType) -> (r: Result<TargetResult, XacmlError>)
        ensures
            spec_tr_result_matches(r, spec_match(*self, *request)),
    {
        match (&self.attribute_designator, &self.attribute_selector) {
            (Some(designator), None) => {
                let bag = designator.evaluate(request)?;
                if bag.len() == 1 && matches!(&bag[0], Value::Indeterminate) {
                    return Ok(TargetResult::Indeterminate);
                }
                if bag.len() == 0 {
                    return Ok(TargetResult::NoMatch);
                }
                let ghost fid = self.match_id;
                let ghost lit = self.attribute_value.value;
                let mut any_true = false;
                let n = bag.len();
                let mut i: usize = 0;
                while i < n
                    invariant
                        i <= n,
                        n == bag@.len(),
                        forall|j: int| 0 <= j < i ==> spec_pair_apply(fid, lit, bag@, j) is Ok,
                        any_true == (exists|j: int|
                            0 <= j < i && spec_pair_true(fid, lit, bag@, j)),
                    decreases n - i,
                {
                    let mut params: Vec<&Value> = Vec::new();
                    params.push(&self.attribute_value.value);
                    params.push(&bag[i]);
                    proof {
                        reveal_with_fuel(spec_deref, 3);
                        assert(params@.drop_last() =~= seq![params@[0]]);
                        assert(params@.drop_last().drop_last() =~= Seq::<&Value>::empty());
                        assert(spec_deref(params@) =~= seq![lit, bag@[i as int]]);
                    }
                    let res = self.match_id.apply_function(params);
                    match res {
                        Err(_) => {
                            proof {
                                assert(spec_pair_apply(fid, lit, bag@, i as int) is Err);
                                assert(spec_pair_err_exists(fid, lit, bag@));
                            }
                            return Ok(TargetResult::Indeterminate);
                        },
                        Ok(vs) => {
                            if has_true(&vs) {
                                proof {
                                    assert(spec_pair_true(fid, lit, bag@, i as int));
                                }
                                any_true = true;
                            }
                            proof {
                                assert(forall|j: int|
                                    0 <= j < i + 1 ==> spec_pair_apply(fid, lit, bag@, j) is Ok);
                            }
                        },
                    }
                    i += 1;
                }
                proof {
                    assert(!spec_pair_err_exists(fid, lit, bag@));
                    assert(any_true == spec_pair_true_exists(fid, lit, bag@));
                }
                if any_true {
                    Ok(TargetResult::Match)
                } else {
                    Ok(TargetResult::NoMatch)
                }
            },
            (None, Some(_selector)) => {
                if request.attributes.len() > 0 {
                    Ok(TargetResult::Indeterminate)
                } else {
                    Ok(TargetResult::NoMatch)
                }
            },
            _ => Err(
                XacmlError::new(
                    XacmlErrorType::FormatError,
                    "MatchType does not contain a valid attribute designator or selector, or both are defined".to_owned(),
                ),
            ),
        }
    }
}

impl AllOfType {
    /// Evaluates the conjunctive sequence: all children `Match` gives
    /// `Match`, any `NoMatch` gives `NoMatch`, otherwise `Indeterminate`;
    /// an empty child list is a structural error, and a child's error
    /// aborts the evaluation.
    #[verifier::loop_isolation(false)]
    pub fn match_request(&self, request: &RequestType) -> (r: Result<TargetResult, XacmlError>)
        ensures
            spec_tr_result_matches(r, spec_allof(*self, *request)),
    {
        if self._match.len() == 0 {
            return Err(
                XacmlError::new(
                    XacmlErrorType::FormatError,
                    "AllOf type contains no match elements".to_owned(),
                ),
            );
        }
        let ghost ms = self._match@;
        let ghost mut rs: Seq<TargetResult> = Seq::empty();
        let mut all_match = true;
        let mut any_no = false;
        let n = self._match.len();
        let mut i: usize = 0;
        while i < n
            invariant
                i <= n,
                n == ms.len(),
                spec_match_list(ms.take(i as int), *request) == Ok::<
                    Seq<TargetResult>,
                    XacmlErrorType,
                >(rs),
                rs.len() == i,
                all_match == spec_all_match(rs),
                any_no == spec_any_nomatch(rs),
            decreases n - i,
        {
            proof {
                assert(ms.take(i + 1 as int).drop_last() =~= ms.take(i as int));
                assert(ms.take(i + 1 as int).last() == ms[i as int]);
            }
            let tr = self._match[i].match_request(request);
            match tr {
                Err(e) => {
                    proof {
                        lemma_match_list_prefix_err(ms, *request, i as int, e.error_type);
                    }
                    return Err(e);
                },
                Ok(t) => {
                    proof {
                        lemma_flags_push(rs, t);
                        rs = rs.push(t);
                    }
                    all_match = all_match && matches!(t, TargetResult::Match);
                    any_no = any_no || matches!(t, TargetResult::NoMatch);
                },
            }
            i += 1;
        }
        proof {
            assert(ms.take(n as int) =~= ms);
        }
        if all_match {
            Ok(TargetResult::Match)
        } else if any_no {
            Ok(TargetResult::NoMatch)
        } else {
            Ok(TargetResult::Indeterminate)
        }
    }
}

impl AnyOfType {
    /// Evaluates the disjunctive sequence: any child `Match` gives `Match`,
    /// all `NoMatch` gives `NoMatch`, otherwise `Indeterminate`; an empty
    /// child list is a structural error, and a child's error aborts the
    /// evaluation.
    #[verifier::loop_isolation(false)]
    pub fn match_request(&self, request: &RequestType) -> (r: Result<TargetResult, XacmlError>)
        ensures
            spec_tr_result_matches(r, spec_anyof(*self, *request)),
    {
        if self.all_of.len() == 0 {
            return Err(
                XacmlError::new(
                    XacmlErrorType::FormatError,
                    "AnyOf type contains no AllOf elements".to_owned(),
                ),
            );
        }
        let ghost xs = self.all_of@;
        let ghost mut rs: Seq<TargetResult> = Seq::empty();
        let mut any_match = false;
        let mut all_no = true;
        let n = self.all_of.len();
        let mut i: usize = 0;
        while i < n
            invariant
                i <= n,
                n == xs.len(),
                spec_allof_list(xs.take(i as int), *request) == Ok::<
                    Seq<TargetResult>,
                    XacmlErrorType,
                >(rs),
                rs.len() == i,
                any_match == spec_any_match(rs),
                all_no == spec_all_nomatch(rs),
            decreases n - i,
        {
            proof {
                assert(xs.take(i + 1 as int).drop_last() =~= xs.take(i as int));
                assert(xs.take(i + 1 as int).last() == xs[i as int]);
            }
            let tr = self.all_of[i].match_request(request);
            match tr {
                Err(e) => {
                    proof {
                        lemma_allof_list_prefix_err(xs, *request, i as int, e.error_type);
                    }
                    return Err(e);
                },
                Ok(t) => {
                    proof {
                        lemma_flags_push(rs, t);
                        rs = rs.push(t);
                    }
                    any_match = any_match || matches!(t, TargetResult::Match);
                    all_no = all_no && matches!(t, TargetResult::NoMatch);
                },
            }
            i += 1;
        }
        proof {
            assert(xs.take(n as int) =~= xs);
        }
        if any_match {
            Ok(TargetResult::Match)
        } else if all_no {
            Ok(TargetResult::NoMatch)
        } else {
            Ok(TargetResult::Indeterminate)
        }
    }
}

impl TargetType {
    /// Evaluates the target: an absent or empty `AnyOf` list is universally
    /// applicable and gives `Match`; otherwise all `Match` gives `Match`,
    /// any `NoMatch` gives `NoMatch`, else `Indeterminate`; a child's error
    /// aborts the evaluation.
    #[verifier::loop_isolation(false)]
    pub fn match_request(&self, request: &RequestType) -> (r: Result<TargetResult, XacmlError>)
        ensures
            spec_tr_result_matches(r, spec_target(*self, *request)),
    {
        let any_of = match &self.any_of {
            None => {
                return Ok(TargetResult::Match);
            },
            Some(any_of) => any_of,
        };
        if any_of.len() == 0 {
            return Ok(TargetResult::Match);
        }
        let ghost xs = any_of@;
        let ghost mut rs: Seq<TargetResult> = Seq::empty();
        let mut all_match = true;
        let mut any_no = false;
        let n = any_of.len();
        let mut i: usize = 0;
        while i < n
            invariant
                i <= n,
                n == xs.len(),
                spec_anyof_list(xs.take(i as int), *request) == Ok::<
                    Seq<TargetResult>,
                    XacmlErrorType,
                >(rs),
                rs.len() == i,
                all_match == spec_all_match(rs),
                any_no == spec_any_nomatch(rs),
            decreases n - i,
        {
            proof {
                assert(xs.take(i + 1 as int).drop_last() =~= xs.take(i as int));
                assert(xs.take(i + 1 as int).last() == xs[i as int]);
            }
            let tr = any_of[i].match_request(request);
            match tr {
                Err(e) => {
                    proof {
                        lemma_anyof_list_prefix_err(xs, *request, i as int, e.error_type);
                    }
                    return Err(e);
                },
                Ok(t) => {
                    proof {
                        lemma_flags_push(rs, t);
                        rs = rs.push(t);
                    }
                    all_match = all_match && matches!(t, TargetResult::Match);
                    any_no = any_no || matches!(t, TargetResult::NoMatch);
                },
            }
            i += 1;
        }
        proof {
            assert(xs.take(n as int) =~= xs);
        }
        if all_match {
            Ok(TargetResult::Match)
        } else if any_no {
            Ok(TargetResult::NoMatch)
        } else {
            Ok(TargetResult::Indeterminate)
        }
    }
}

} // verus!
