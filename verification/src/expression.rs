use vstd::prelude::*;

use crate::errors::{XacmlError, XacmlErrorType};
use crate::functions::{spec_apply_function, spec_deref, spec_fn_result_matches, FunctionId};
use crate::request::{spec_resolve, AttributeDesignatorType, AttributeSelectorType, RequestType};
use crate::values::{AttributeValueType, Value};

verus! {

broadcast use vstd::std_specs::vec::group_vec_axioms;

/// A reference to a variable defined elsewhere in a policy; unsupported by
/// this engine, every use reports `NotImplemented`.
#[derive(Debug, Clone, PartialEq, Eq)]
pub struct VariableReferenceType {
    pub variable_id: String,
}

/// A bare function name standing as an expression; unsupported by this
/// engine, every use reports `NotImplemented`.
#[derive(Debug, Clone, PartialEq, Eq)]
pub struct FunctionType {
    pub function_id: String,
}

/// The application of a registry function to a list of argument
/// expressions.
#[derive(Debug, PartialEq, Eq)]
pub struct ApplyType {
    pub function_id: FunctionId,
    pub description: Option<String>,
    pub expression: Option<Vec<ExpressionType>>,
}

/// An expression tree: a function application, an attribute reference, or a
/// literal. Selector, variable-reference and bare-function nodes are
/// unsupported and evaluate to `NotImplemented`.
#[derive(Debug, PartialEq, Eq)]
pub enum ExpressionType {
    Apply(ApplyType),
    AttributeDesignator(AttributeDesignatorType),
    AttributeSelector(AttributeSelectorType),
    VariableReference(VariableReferenceType),
    Function(FunctionType),
    AttributeValue(AttributeValueType),
}

/// A boolean refinement of a rule: a single expression that must reduce to
/// one boolean value.
#[derive(Debug, PartialEq, Eq)]
pub struct ConditionType {
    pub expression: ExpressionType,
}

/// What an expression evaluates to against a request: a bag of values, or
/// an error kind. An `Apply` node evaluates every child, concatenates the
/// returned bags into one flat parameter list and applies its function; a
/// literal returns its one value; a designator resolves against the
/// request; the unsupported node kinds report `NotImplemented`.
pub open spec fn spec_eval_expr(e: ExpressionType, req: RequestType) -> Result<
    Seq<Value>,
    XacmlErrorType,
>
    decreases e,
{
    match e {
        ExpressionType::Apply(a) => match a.expression {
            Some(v) => match spec_eval_args(v@, req) {
                Err(k) => Err(k),
                Ok(vals) => spec_apply_function(a.function_id, vals),
            },
            None => spec_apply_function(a.function_id, Seq::empty()),
        },
        ExpressionType::AttributeValue(av) => Ok(seq![av.value]),
        ExpressionType::AttributeDesignator(d) => Ok(spec_resolve(req, d)),
        _ => Err(XacmlErrorType::NotImplemented),
    }
}

/// What a list of argument expressions evaluates to: the concatenation of
/// the children's bags in order, or the leftmost error.
pub open spec fn spec_eval_args(args: Seq<ExpressionType>, req: RequestType) -> Result<
    Seq<Value>,
    XacmlErrorType,
>
    decreases args,
{
    if args.len() == 0 {
        Ok(Seq::empty())
    } else {
        match spec_eval_args(args.drop_last(), req) {
            Err(k) => Err(k),
            Ok(front) => match spec_eval_expr(args.last(), req) {
                Err(k) => Err(k),
                Ok(vs) => Ok(front + vs),
            },
        }
    }
}

/// An error in an argument makes the whole argument list evaluate to the
/// leftmost such error.
proof fn lemma_eval_args_prefix_err(args: Seq<ExpressionType>, req: RequestType, i: int, k: XacmlErrorType)
    requires
        0 <= i < args.len(),
        spec_eval_args(args.take(i), req) is Ok,
        spec_eval_expr(args[i], req) == Err::<Seq<Value>, XacmlErrorType>(k),
    ensures
        spec_eval_args(args, req) == Err::<Seq<Value>, XacmlErrorType>(k),
    decreases args.len(),
{
    if i == args.len() - 1 {
        assert(args.drop_last() =~= args.take(i));
        assert(args.last() == args[i]);
    } else {
        assert(args.drop_last().take(i) =~= args.take(i));
        assert(args.drop_last()[i] == args[i]);
        lemma_eval_args_prefix_err(args.drop_last(), req, i, k);
    }
}

impl ExpressionType {
    /// Evaluates this expression against a request into a bag of values;
    /// the result and each error kind are exactly those of
    /// `spec_eval_expr`.
    pub fn evaluate(&self, request: &RequestType) -> (r: Result<Vec<Value>, XacmlError>)
        ensures
            spec_fn_result_matches(r, spec_eval_expr(*self, *request)),
        decreases *self,
    {
        match self {
            ExpressionType::Apply(apply) => apply.evaluate(request),
            ExpressionType::AttributeValue(attribute_value) => attribute_value.evaluate(request),
            ExpressionType::AttributeDesignator(attribute_designator) => attribute_designator
                .evaluate(request),
            _ => Err(
                XacmlError::new(
                    XacmlErrorType::NotImplemented,
                    "Expression evaluation not implemented".to_owned(),
                ),
            ),
        }
    }
}

impl ApplyType {
    /// Evaluates every child expression, concatenates all returned values
    /// and applies the named registry function to the flat list.
    #[verifier::loop_isolation(false)]
    pub fn evaluate(&self, request: &RequestType) -> (r: Result<Vec<Value>, XacmlError>)
        ensures
            spec_fn_result_matches(r, spec_eval_expr(ExpressionType::Apply(*self), *request)),
        decreases *self,
    {
        let ghost args_spec: Seq<ExpressionType> = if self.expression is Some {
            self.expression->Some_0@
        } else {
            Seq::<ExpressionType>::empty()
        };
        let mut vals: Vec<Value> = Vec::new();
        match &self.expression {
            None => {
            },
            Some(exprs) => {
                let n = exprs.len();
                let mut i: usize = 0;
                while i < n
                    invariant
                        i <= n,
                        n == exprs@.len(),
                        exprs@ == args_spec,
                        spec_eval_args(args_spec.take(i as int), *request) == Ok::<
                            Seq<Value>,
                            XacmlErrorType,
                        >(vals@),
                    decreases n - i,
                {
                    proof {
                        assert(args_spec.take(i + 1 as int).drop_last() =~= args_spec.take(
                            i as int,
                        ));
                        assert(args_spec.take(i + 1 as int).last() == args_spec[i as int]);
                        assert(self.expression->Some_0@ == exprs@);
                        assert(decreases_to!(*self => self.expression));
                        assert(decreases_to!(self.expression => self.expression->Some_0));
                        assert(decreases_to!(self.expression->Some_0 => self.expression
                            ->Some_0@));
                        assert(decreases_to!(self.expression->Some_0@ => self.expression
                            ->Some_0@[i as int]));
                    }
                    let sub = exprs[i].evaluate(request);
                    match sub {
                        Ok(mut vs) => {
                            vals.append(&mut vs);
                        },
                        Err(e) => {
                            proof {
                                lemma_eval_args_prefix_err(
                                    args_spec,
                                    *request,
                                    i as int,
                                    e.error_type,
                                );
                            }
                            return Err(e);
                        },
                    }
                    i += 1;
                }
                proof {
                    assert(args_spec.take(n as int) =~= args_spec);
                }
            },
        }
        let mut refs: Vec<&Value> = Vec::new();
        let m = vals.len();
        let mut j: usize = 0;
        while j < m
            invariant
                j <= m,
                m == vals@.len(),
                spec_deref(refs@) == vals@.take(j as int),
                refs@.len() == j,
            decreases m - j,
        {
            let ghost prev = refs@;
            refs.push(&vals[j]);
            proof {
                assert(refs@.drop_last() =~= prev);
                assert(*refs@.last() == vals@[j as int]);
                assert(spec_deref(refs@) == spec_deref(prev).push(vals@[j as int]));
                assert(vals@.take(j + 1 as int) =~= vals@.take(j as int).push(vals@[j as int]));
            }
            j += 1;
        }
        proof {
            assert(vals@.take(m as int) =~= vals@);
        }
        self.function_id.apply_function(refs)
    }
}

/// What a condition evaluates to: the single boolean its expression reduces
/// to; a bag of any other size or content is a processing error.
pub open spec fn spec_eval_condition(c: ConditionType, req: RequestType) -> Result<
    bool,
    XacmlErrorType,
> {
    match spec_eval_expr(c.expression, req) {
        Err(k) => Err(k),
        Ok(vals) => if vals.len() != 1 {
            Err(XacmlErrorType::ProcessingError)
        } else {
            match vals[0] {
                Value::Boolean(b) => Ok(b),
                _ => Err(XacmlErrorType::ProcessingError),
            }
        },
    }
}

/// Whether an exec condition result agrees with the specified one.
pub open spec fn spec_cond_result_matches(
    r: Result<bool, XacmlError>,
    s: Result<bool, XacmlErrorType>,
) -> bool {
    match (r, s) {
        (Ok(b), Ok(sb)) => b == sb,
        (Err(e), Err(k)) => e.error_type == k,
        _ => false,
    }
}

impl ConditionType {
    /// Evaluates the wrapped expression and requires the result to be a
    /// single boolean.
    pub fn evaluate(&self, request: &RequestType) -> (r: Result<bool, XacmlError>)
        ensures
            spec_cond_result_matches(r, spec_eval_condition(*self, *request)),
    {
        let result = self.expression.evaluate(request)?;
        if result.len() != 1 {
            return Err(
                XacmlError::new(
                    XacmlErrorType::ProcessingError,
                    "Condition evaluation result is not a single value".to_owned(),
                ),
            );
        }
        match &result[0] {
            Value::Boolean(value) => Ok(*value),
            _ => Err(
                XacmlError::new(
                    XacmlErrorType::ProcessingError,
                    "Condition evaluation result is not a boolean".to_owned(),
                ),
            ),
        }
    }
}

} // verus!
