use vstd::prelude::*;

use rustc_apfloat::Float;

use crate::errors::{XacmlError, XacmlErrorType};

use crate::values::Value;

verus! {

/// Bit pattern of the IEEE-754 double `+0.0`, the identity the addition fold
/// starts from.
pub const DOUBLE_ZERO_BITS: u64 = 0;

/// Bit pattern of the IEEE-754 double `1.0`, the identity the multiplication
/// fold starts from.
pub const DOUBLE_ONE_BITS: u64 = 0x3FF0000000000000;

/// Bit pattern of the IEEE-754 double sum of the doubles whose bit patterns
/// are the two arguments.
pub uninterp spec fn double_add_bits(a: u64, b: u64) -> u64;

/// Bit pattern of the IEEE-754 double difference `a - b`, both given as bit
/// patterns.
pub uninterp spec fn double_sub_bits(a: u64, b: u64) -> u64;

/// Bit pattern of the IEEE-754 double product of the doubles whose bit
/// patterns are the two arguments.
pub uninterp spec fn double_mul_bits(a: u64, b: u64) -> u64;

/// Bit pattern of the IEEE-754 double quotient `a / b`, both given as bit
/// patterns.
pub uninterp spec fn double_div_bits(a: u64, b: u64) -> u64;

/// Whether the IEEE-754 double with bit pattern `a` is greater than or equal
/// to the one with bit pattern `b` (false whenever either is a NaN).
pub uninterp spec fn double_ge_bits(a: u64, b: u64) -> bool;

/// Relies on rustc_apfloat's IEEE-754 binary64 addition (`ieee::Double`,
/// `core::ops::Add`): the sum's bit pattern is a function of the operands'
/// bit patterns alone.
#[verifier::external_body]
fn apfloat_bits_add(a: u64, b: u64) -> (r: u64)
    ensures
        r == double_add_bits(a, b),
{
    let x = rustc_apfloat::ieee::Double::from_bits(a as u128);
    let y = rustc_apfloat::ieee::Double::from_bits(b as u128);
    (x + y).value.to_bits() as u64
}

/// Relies on rustc_apfloat's IEEE-754 binary64 subtraction (`ieee::Double`,
/// `core::ops::Sub`): the difference's bit pattern is a function of the
/// operands' bit patterns alone.
#[verifier::external_body]
fn apfloat_bits_sub(a: u64, b: u64) -> (r: u64)
    ensures
        r == double_sub_bits(a, b),
{
    let x = rustc_apfloat::ieee::Double::from_bits(a as u128);
    let y = rustc_apfloat::ieee::Double::from_bits(b as u128);
    (x - y).value.to_bits() as u64
}

/// Relies on rustc_apfloat's IEEE-754 binary64 multiplication
/// (`ieee::Double`, `core::ops::Mul`): the product's bit pattern is a
/// function of the operands' bit patterns alone.
#[verifier::external_body]
fn apfloat_bits_mul(a: u64, b: u64) -> (r: u64)
    ensures
        r == double_mul_bits(a, b),
{
    let x = rustc_apfloat::ieee::Double::from_bits(a as u128);
    let y = rustc_apfloat::ieee::Double::from_bits(b as u128);
    (x * y).value.to_bits() as u64
}

/// Relies on rustc_apfloat's IEEE-754 binary64 division (`ieee::Double`,
/// `core::ops::Div`): the quotient's bit pattern is a function of the
/// operands' bit patterns alone.
#[verifier::external_body]
fn apfloat_bits_div(a: u64, b: u64) -> (r: u64)
    ensures
        r == double_div_bits(a, b),
{
    let x = rustc_apfloat::ieee::Double::from_bits(a as u128);
    let y = rustc_apfloat::ieee::Double::from_bits(b as u128);
    (x / y).value.to_bits() as u64
}

/// Relies on rustc_apfloat's IEEE-754 binary64 comparison (`ieee::Double`,
/// `PartialOrd::partial_cmp`): the ordering is a function of the operands'
/// bit patterns alone, and a comparison against a NaN has no ordering.
#[verifier::external_body]
fn apfloat_bits_ge(a: u64, b: u64) -> (r: bool)
    ensures
        r == double_ge_bits(a, b),
{
    let x = rustc_apfloat::ieee::Double::from_bits(a as u128);
    let y = rustc_apfloat::ieee::Double::from_bits(b as u128);
    x >= y
}

/// The dereferenced values behind a list of value references, in order.
pub open spec fn spec_deref(s: Seq<&Value>) -> Seq<Value>
    decreases s.len(),
{
    if s.len() == 0 {
        Seq::empty()
    } else {
        spec_deref(s.drop_last()).push(*s.last())
    }
}

/// A function identifier of the registry: one of the implemented operators,
/// or an unrecognized identifier carried in `Other`.
#[derive(Debug, PartialEq, Eq)]
pub enum FunctionId {
    StringEqual,
    BooleanEqual,
    IntegerEqual,
    DoubleEqual,
    AnyUriEqual,
    IntegerAdd,
    DoubleAdd,
    DoubleSubtract,
    DoubleMultiply,
    DoubleDivide,
    DoubleGreaterThan,
    Other(String),
}

impl Clone for FunctionId {
    fn clone(&self) -> (r: Self)
        ensures
            r == *self,
    {
        match self {
            FunctionId::StringEqual => FunctionId::StringEqual,
            FunctionId::BooleanEqual => FunctionId::BooleanEqual,
            FunctionId::IntegerEqual => FunctionId::IntegerEqual,
            FunctionId::DoubleEqual => FunctionId::DoubleEqual,
            FunctionId::AnyUriEqual => FunctionId::AnyUriEqual,
            FunctionId::IntegerAdd => FunctionId::IntegerAdd,
            FunctionId::DoubleAdd => FunctionId::DoubleAdd,
            FunctionId::DoubleSubtract => FunctionId::DoubleSubtract,
            FunctionId::DoubleMultiply => FunctionId::DoubleMultiply,
            FunctionId::DoubleDivide => FunctionId::DoubleDivide,
            FunctionId::DoubleGreaterThan => FunctionId::DoubleGreaterThan,
            FunctionId::Other(s) => FunctionId::Other(s.clone()),
        }
    }
}

/// Whether an exec registry result agrees with the specified one: same
/// success values, or errors of the same kind.
pub open spec fn spec_fn_result_matches(
    r: Result<Vec<Value>, XacmlError>,
    s: Result<Seq<Value>, XacmlErrorType>,
) -> bool {
    match (r, s) {
        (Ok(v), Ok(sv)) => v@ == sv,
        (Err(e), Err(k)) => e.error_type == k,
        _ => false,
    }
}

/// What string-equal returns: `[Boolean(lhs == rhs)]` for exactly two string
/// parameters, a processing error otherwise.
pub open spec fn spec_string_equal(params: Seq<Value>) -> Result<Seq<Value>, XacmlErrorType> {
    if params.len() != 2 {
        Err(XacmlErrorType::ProcessingError)
    } else {
        match (params[0], params[1]) {
            (Value::String(s1), Value::String(s2)) => Ok(seq![Value::Boolean(s1@ == s2@)]),
            _ => Err(XacmlErrorType::ProcessingError),
        }
    }
}

/// What boolean-equal returns.
pub open spec fn spec_boolean_equal(params: Seq<Value>) -> Result<Seq<Value>, XacmlErrorType> {
    if params.len() != 2 {
        Err(XacmlErrorType::ProcessingError)
    } else {
        match (params[0], params[1]) {
            (Value::Boolean(b1), Value::Boolean(b2)) => Ok(seq![Value::Boolean(b1 == b2)]),
            _ => Err(XacmlErrorType::ProcessingError),
        }
    }
}

/// What integer-equal returns.
pub open spec fn spec_integer_equal(params: Seq<Value>) -> Result<Seq<Value>, XacmlErrorType> {
    if params.len() != 2 {
        Err(XacmlErrorType::ProcessingError)
    } else {
        match (params[0], params[1]) {
            (Value::Integer(i1), Value::Integer(i2)) => Ok(seq![Value::Boolean(i1 == i2)]),
            _ => Err(XacmlErrorType::ProcessingError),
        }
    }
}

/// What double-equal returns: bit-pattern equality of the two doubles.
pub open spec fn spec_double_equal(params: Seq<Value>) -> Result<Seq<Value>, XacmlErrorType> {
    if params.len() != 2 {
        Err(XacmlErrorType::ProcessingError)
    } else {
        match (params[0], params[1]) {
            (Value::Double(d1), Value::Double(d2)) => Ok(seq![Value::Boolean(d1 == d2)]),
            _ => Err(XacmlErrorType::ProcessingError),
        }
    }
}

/// What anyURI-equal returns; like the wire layer, it carries anyURI values
/// in the `String` variant.
pub open spec fn spec_any_uri_equal(params: Seq<Value>) -> Result<Seq<Value>, XacmlErrorType> {
    spec_string_equal(params)
}

/// Whether every parameter is an `Integer`.
pub open spec fn spec_all_integers(params: Seq<Value>) -> bool {
    forall|i: int| 0 <= i < params.len() ==> params[i] is Integer
}

/// The left fold of wrapping 64-bit addition over integer parameters,
/// starting at 0.
pub open spec fn spec_integer_sum(params: Seq<Value>) -> i64
    decreases params.len(),
{
    if params.len() == 0 {
        0
    } else {
        vstd::wrapping::i64_specs::wrapping_add(
            spec_integer_sum(params.drop_last()),
            params.last()->Integer_0,
        )
    }
}

/// What integer-add returns: the left-fold sum (wrapping on 64-bit
/// overflow) of any number of integer parameters, a processing error if any
/// parameter is not an integer.
pub open spec fn spec_integer_add(params: Seq<Value>) -> Result<Seq<Value>, XacmlErrorType> {
    if spec_all_integers(params) {
        Ok(seq![Value::Integer(spec_integer_sum(params))])
    } else {
        Err(XacmlErrorType::ProcessingError)
    }
}

/// Whether every parameter is a `Double`.
pub open spec fn spec_all_doubles(params: Seq<Value>) -> bool {
    forall|i: int| 0 <= i < params.len() ==> params[i] is Double
}

/// The left fold of IEEE-754 double addition over the parameters, starting
/// at `+0.0`.
pub open spec fn spec_double_sum(params: Seq<Value>) -> u64
    decreases params.len(),
{
    if params.len() == 0 {
        DOUBLE_ZERO_BITS
    } else {
        double_add_bits(spec_double_sum(params.drop_last()), params.last()->Double_0)
    }
}

/// What double-add returns: the left-fold sum of any number of double
/// parameters, a processing error if any parameter is not a double.
pub open spec fn spec_double_add(params: Seq<Value>) -> Result<Seq<Value>, XacmlErrorType> {
    if spec_all_doubles(params) {
        Ok(seq![Value::Double(spec_double_sum(params))])
    } else {
        Err(XacmlErrorType::ProcessingError)
    }
}

/// The left fold of IEEE-754 double multiplication over the parameters,
/// starting at `1.0`.
pub open spec fn spec_double_product(params: Seq<Value>) -> u64
    decreases params.len(),
{
    if params.len() == 0 {
        DOUBLE_ONE_BITS
    } else {
        double_mul_bits(spec_double_product(params.drop_last()), params.last()->Double_0)
    }
}

/// What double-multiply returns: the left-fold product of any number of
/// double parameters, a processing error if any parameter is not a double.
pub open spec fn spec_double_multiply(params: Seq<Value>) -> Result<Seq<Value>, XacmlErrorType> {
    if spec_all_doubles(params) {
        Ok(seq![Value::Double(spec_double_product(params))])
    } else {
        Err(XacmlErrorType::ProcessingError)
    }
}

/// What double-subtract returns: `a - b` for exactly two double parameters,
/// a processing error otherwise.
pub open spec fn spec_double_subtract(params: Seq<Value>) -> Result<Seq<Value>, XacmlErrorType> {
    if params.len() != 2 {
        Err(XacmlErrorType::ProcessingError)
    } else {
        match (params[0], params[1]) {
            (Value::Double(a), Value::Double(b)) => Ok(seq![Value::Double(double_sub_bits(a, b))]),
            _ => Err(XacmlErrorType::ProcessingError),
        }
    }
}

/// What double-divide returns: `a / b` for exactly two double parameters, a
/// processing error otherwise.
pub open spec fn spec_double_divide(params: Seq<Value>) -> Result<Seq<Value>, XacmlErrorType> {
    if params.len() != 2 {
        Err(XacmlErrorType::ProcessingError)
    } else {
        match (params[0], params[1]) {
            (Value::Double(a), Value::Double(b)) => Ok(seq![Value::Double(double_div_bits(a, b))]),
            _ => Err(XacmlErrorType::ProcessingError),
        }
    }
}

/// What double-greater-than returns for exactly two double parameters:
/// `[Boolean(a >= b)]` — the operator is inclusive, deliberately kept as the
/// established behavior of this registry despite its name.
pub open spec fn spec_double_greater_than(params: Seq<Value>) -> Result<Seq<Value>, XacmlErrorType> {
    if params.len() != 2 {
        Err(XacmlErrorType::ProcessingError)
    } else {
        match (params[0], params[1]) {
            (Value::Double(a), Value::Double(b)) => Ok(seq![Value::Boolean(double_ge_bits(a, b))]),
            _ => Err(XacmlErrorType::ProcessingError),
        }
    }
}

/// What the registry returns for a function identifier applied to a
/// parameter list.
pub open spec fn spec_apply_function(f: FunctionId, params: Seq<Value>) -> Result<
    Seq<Value>,
    XacmlErrorType,
> {
    match f {
        FunctionId::StringEqual => spec_string_equal(params),
        FunctionId::BooleanEqual => spec_boolean_equal(params),
        FunctionId::IntegerEqual => spec_integer_equal(params),
        FunctionId::DoubleEqual => spec_double_equal(params),
        FunctionId::AnyUriEqual => spec_any_uri_equal(params),
        FunctionId::IntegerAdd => spec_integer_add(params),
        FunctionId::DoubleAdd => spec_double_add(params),
        FunctionId::DoubleSubtract => spec_double_subtract(params),
        FunctionId::DoubleMultiply => spec_double_multiply(params),
        FunctionId::DoubleDivide => spec_double_divide(params),
        FunctionId::DoubleGreaterThan => spec_double_greater_than(params),
        FunctionId::Other(_) => Err(XacmlErrorType::NotImplemented),
    }
}

/// Equality of exactly two string values.
pub fn string_equal(parameters: &Vec<&Value>) -> (r: Result<Vec<Value>, XacmlError>)
    ensures
        spec_fn_result_matches(r, spec_string_equal(spec_deref(parameters@))),
{
    proof {
        lemma_spec_deref_len(parameters@);
    }
    if parameters.len() != 2 {
        return Err(
            XacmlError::new(
                XacmlErrorType::ProcessingError,
                "StringEquals function requires two parameters".to_owned(),
            ),
        );
    }
    match (parameters[0], parameters[1]) {
        (Value::String(s1), Value::String(s2)) => {
            let mut out: Vec<Value> = Vec::new();
            out.push(Value::Boolean(*s1 == *s2));
            proof {
                assert(out@ =~= seq![Value::Boolean(s1@ == s2@)]);
            }
            Ok(out)
        },
        _ => Err(
            XacmlError::new(
                XacmlErrorType::ProcessingError,
                "StringEquals function requires two string parameters".to_owned(),
            ),
        ),
    }
}

/// Equality of exactly two boolean values.
pub fn boolean_equal(parameters: &Vec<&Value>) -> (r: Result<Vec<Value>, XacmlError>)
    ensures
        spec_fn_result_matches(r, spec_boolean_equal(spec_deref(parameters@))),
{
    proof {
        lemma_spec_deref_len(parameters@);
    }
    if parameters.len() != 2 {
        return Err(
            XacmlError::new(
                XacmlErrorType::ProcessingError,
                "BooleanEquals function requires two parameters".to_owned(),
            ),
        );
    }
    match (parameters[0], parameters[1]) {
        (Value::Boolean(b1), Value::Boolean(b2)) => {
            let mut out: Vec<Value> = Vec::new();
            out.push(Value::Boolean(*b1 == *b2));
            proof {
                assert(out@ =~= seq![Value::Boolean(*b1 == *b2)]);
            }
            Ok(out)
        },
        _ => Err(
            XacmlError::new(
                XacmlErrorType::ProcessingError,
                "BooleanEquals function requires two boolean parameters".to_owned(),
            ),
        ),
    }
}

/// Equality of exactly two integer values.
pub fn integer_equal(parameters: &Vec<&Value>) -> (r: Result<Vec<Value>, XacmlError>)
    ensures
        spec_fn_result_matches(r, spec_integer_equal(spec_deref(parameters@))),
{
    proof {
        lemma_spec_deref_len(parameters@);
    }
    if parameters.len() != 2 {
        return Err(
            XacmlError::new(
                XacmlErrorType::ProcessingError,
                "IntegerEquals function requires two parameters".to_owned(),
            ),
        );
    }
    match (parameters[0], parameters[1]) {
        (Value::Integer(i1), Value::Integer(i2)) => {
            let mut out: Vec<Value> = Vec::new();
            out.push(Value::Boolean(*i1 == *i2));
            proof {
                assert(out@ =~= seq![Value::Boolean(*i1 == *i2)]);
            }
            Ok(out)
        },
        _ => Err(
            XacmlError::new(
                XacmlErrorType::ProcessingError,
                "IntegerEquals function requires two integer parameters".to_owned(),
            ),
        ),
    }
}

/// Equality of exactly two double values, compared by bit pattern.
pub fn double_equal(parameters: &Vec<&Value>) -> (r: Result<Vec<Value>, XacmlError>)
    ensures
        spec_fn_result_matches(r, spec_double_equal(spec_deref(parameters@))),
{
    proof {
        lemma_spec_deref_len(parameters@);
    }
    if parameters.len() != 2 {
        return Err(
            XacmlError::new(
                XacmlErrorType::ProcessingError,
                "DoubleEquals function requires two parameters".to_owned(),
            ),
        );
    }
    match (parameters[0], parameters[1]) {
        (Value::Double(d1), Value::Double(d2)) => {
            let mut out: Vec<Value> = Vec::new();
            out.push(Value::Boolean(*d1 == *d2));
            proof {
                assert(out@ =~= seq![Value::Boolean(*d1 == *d2)]);
            }
            Ok(out)
        },
        _ => Err(
            XacmlError::new(
                XacmlErrorType::ProcessingError,
                "DoubleEquals function requires two double parameters".to_owned(),
            ),
        ),
    }
}

/// Equality of exactly two anyURI values; the wire layer carries anyURI
/// values in the `String` variant, so this compares strings.
pub fn any_uri_equal(parameters: &Vec<&Value>) -> (r: Result<Vec<Value>, XacmlError>)
    ensures
        spec_fn_result_matches(r, spec_any_uri_equal(spec_deref(parameters@))),
{
    proof {
        lemma_spec_deref_len(parameters@);
    }
    if parameters.len() != 2 {
        return Err(
            XacmlError::new(
                XacmlErrorType::ProcessingError,
                "AnyURIEquals function requires two parameters".to_owned(),
            ),
        );
    }
    match (parameters[0], parameters[1]) {
        (Value::String(s1), Value::String(s2)) => {
            let mut out: Vec<Value> = Vec::new();
            out.push(Value::Boolean(*s1 == *s2));
            proof {
                assert(out@ =~= seq![Value::Boolean(s1@ == s2@)]);
            }
            Ok(out)
        },
        _ => Err(
            XacmlError::new(
                XacmlErrorType::ProcessingError,
                "AnyURIEquals function requires two string parameters".to_owned(),
            ),
        ),
    }
}

/// Variadic integer addition: the left-fold sum starting at 0, wrapping on
/// 64-bit overflow.
pub fn integer_add(parameters: &Vec<&Value>) -> (r: Result<Vec<Value>, XacmlError>)
    ensures
        spec_fn_result_matches(r, spec_integer_add(spec_deref(parameters@))),
{
    proof {
        lemma_spec_deref_len(parameters@);
    }
    let ghost dparams = spec_deref(parameters@);
    let mut sum: i64 = 0;
    let n = parameters.len();
    let mut i: usize = 0;
    while i < n
        invariant
            i <= n,
            n == parameters@.len(),
            dparams == spec_deref(parameters@),
            dparams.len() == n,
            forall|j: int| 0 <= j < n ==> dparams[j] == *parameters@[j],
            forall|j: int| 0 <= j < i ==> dparams[j] is Integer,
            sum == spec_integer_sum(dparams.take(i as int)),
        decreases n - i,
    {
        proof {
            assert(dparams.take(i + 1 as int).drop_last() =~= dparams.take(i as int));
            assert(dparams.take(i + 1 as int).last() == dparams[i as int]);
        }
        match parameters[i] {
            Value::Integer(x) => {
                sum = sum.wrapping_add(*x);
            },
            _ => {
                return Err(
                    XacmlError::new(
                        XacmlErrorType::ProcessingError,
                        "IntegerAdd expects only Integer type".to_owned(),
                    ),
                );
            },
        }
        i += 1;
    }
    proof {
        assert(dparams.take(n as int) =~= dparams);
    }
    let mut out: Vec<Value> = Vec::new();
    out.push(Value::Integer(sum));
    proof {
        assert(out@ =~= seq![Value::Integer(spec_integer_sum(dparams))]);
    }
    Ok(out)
}

/// Variadic double addition: the left-fold IEEE-754 sum starting at `+0.0`.
pub fn double_add(parameters: &Vec<&Value>) -> (r: Result<Vec<Value>, XacmlError>)
    ensures
        spec_fn_result_matches(r, spec_double_add(spec_deref(parameters@))),
{
    proof {
        lemma_spec_deref_len(parameters@);
    }
    let ghost dparams = spec_deref(parameters@);
    let mut sum: u64 = DOUBLE_ZERO_BITS;
    let n = parameters.len();
    let mut i: usize = 0;
    while i < n
        invariant
            i <= n,
            n == parameters@.len(),
            dparams == spec_deref(parameters@),
            dparams.len() == n,
            forall|j: int| 0 <= j < n ==> dparams[j] == *parameters@[j],
            forall|j: int| 0 <= j < i ==> dparams[j] is Double,
            sum == spec_double_sum(dparams.take(i as int)),
        decreases n - i,
    {
        proof {
            assert(dparams.take(i + 1 as int).drop_last() =~= dparams.take(i as int));
            assert(dparams.take(i + 1 as int).last() == dparams[i as int]);
        }
        match parameters[i] {
            Value::Double(x) => {
                sum = apfloat_bits_add(sum, *x);
            },
            _ => {
                return Err(
                    XacmlError::new(
                        XacmlErrorType::ProcessingError,
                        "DoubleAdd expects only Double type".to_owned(),
                    ),
                );
            },
        }
        i += 1;
    }
    proof {
        assert(dparams.take(n as int) =~= dparams);
    }
    let mut out: Vec<Value> = Vec::new();
    out.push(Value::Double(sum));
    proof {
        assert(out@ =~= seq![Value::Double(spec_double_sum(dparams))]);
    }
    Ok(out)
}

/// Variadic double multiplication: the left-fold IEEE-754 product starting
/// at `1.0`.
pub fn double_multiply(parameters: &Vec<&Value>) -> (r: Result<Vec<Value>, XacmlError>)
    ensures
        spec_fn_result_matches(r, spec_double_multiply(spec_deref(parameters@))),
{
    proof {
        lemma_spec_deref_len(parameters@);
    }
    let ghost dparams = spec_deref(parameters@);
    let mut product: u64 = DOUBLE_ONE_BITS;
    let n = parameters.len();
    let mut i: usize = 0;
    while i < n
        invariant
            i <= n,
            n == parameters@.len(),
            dparams == spec_deref(parameters@),
            dparams.len() == n,
            forall|j: int| 0 <= j < n ==> dparams[j] == *parameters@[j],
            forall|j: int| 0 <= j < i ==> dparams[j] is Double,
            product == spec_double_product(dparams.take(i as int)),
        decreases n - i,
    {
        proof {
            assert(dparams.take(i + 1 as int).drop_last() =~= dparams.take(i as int));
            assert(dparams.take(i + 1 as int).last() == dparams[i as int]);
        }
        match parameters[i] {
            Value::Double(x) => {
                product = apfloat_bits_mul(product, *x);
            },
            _ => {
                return Err(
                    XacmlError::new(
                        XacmlErrorType::ProcessingError,
                        "DoubleMultiply expects only Double type".to_owned(),
                    ),
                );
            },
        }
        i += 1;
    }
    proof {
        assert(dparams.take(n as int) =~= dparams);
    }
    let mut out: Vec<Value> = Vec::new();
    out.push(Value::Double(product));
    proof {
        assert(out@ =~= seq![Value::Double(spec_double_product(dparams))]);
    }
    Ok(out)
}

/// Double subtraction `a - b`, defined for exactly two double parameters;
/// any other arity is rejected rather than silently generalized.
pub fn double_subtract(parameters: &Vec<&Value>) -> (r: Result<Vec<Value>, XacmlError>)
    ensures
        spec_fn_result_matches(r, spec_double_subtract(spec_deref(parameters@))),
{
    proof {
        lemma_spec_deref_len(parameters@);
    }
    if parameters.len() != 2 {
        return Err(
            XacmlError::new(
                XacmlErrorType::ProcessingError,
                "DoubleSubtract expects 2 parameters".to_owned(),
            ),
        );
    }
    match (parameters[0], parameters[1]) {
        (Value::Double(a), Value::Double(b)) => {
            let mut out: Vec<Value> = Vec::new();
            out.push(Value::Double(apfloat_bits_sub(*a, *b)));
            proof {
                assert(out@ =~= seq![Value::Double(double_sub_bits(*a, *b))]);
            }
            Ok(out)
        },
        _ => Err(
            XacmlError::new(
                XacmlErrorType::ProcessingError,
                "DoubleSubtract expects only Double type".to_owned(),
            ),
        ),
    }
}

/// Double division `a / b`, defined for exactly two double parameters; any
/// other arity is rejected rather than silently generalized.
pub fn double_divide(parameters: &Vec<&Value>) -> (r: Result<Vec<Value>, XacmlError>)
    ensures
        spec_fn_result_matches(r, spec_double_divide(spec_deref(parameters@))),
{
    proof {
        lemma_spec_deref_len(parameters@);
    }
    if parameters.len() != 2 {
        return Err(
            XacmlError::new(
                XacmlErrorType::ProcessingError,
                "DoubleDivide expects 2 parameters".to_owned(),
            ),
        );
    }
    match (parameters[0], parameters[1]) {
        (Value::Double(a), Value::Double(b)) => {
            let mut out: Vec<Value> = Vec::new();
            out.push(Value::Double(apfloat_bits_div(*a, *b)));
            proof {
                assert(out@ =~= seq![Value::Double(double_div_bits(*a, *b))]);
            }
            Ok(out)
        },
        _ => Err(
            XacmlError::new(
                XacmlErrorType::ProcessingError,
                "DoubleDivide expects only Double type".to_owned(),
            ),
        ),
    }
}

/// Double comparison for exactly two double parameters; evaluates `a >= b`,
/// the inclusive comparison this registry has always computed under this
/// name.
pub fn double_greater_than(parameters: &Vec<&Value>) -> (r: Result<Vec<Value>, XacmlError>)
    ensures
        spec_fn_result_matches(r, spec_double_greater_than(spec_deref(parameters@))),
{
    proof {
        lemma_spec_deref_len(parameters@);
    }
    if parameters.len() != 2 {
        return Err(
            XacmlError::new(
                XacmlErrorType::ProcessingError,
                "DoubleGreaterThan expects 2 parameters".to_owned(),
            ),
        );
    }
    match (parameters[0], parameters[1]) {
        (Value::Double(a), Value::Double(b)) => {
            let mut out: Vec<Value> = Vec::new();
            out.push(Value::Boolean(apfloat_bits_ge(*a, *b)));
            proof {
                assert(out@ =~= seq![Value::Boolean(double_ge_bits(*a, *b))]);
            }
            Ok(out)
        },
        _ => Err(
            XacmlError::new(
                XacmlErrorType::ProcessingError,
                "DoubleGreaterThan expects only Double type".to_owned(),
            ),
        ),
    }
}

impl FunctionId {
    /// Applies the operator this identifier names to a flat parameter list;
    /// an unrecognized identifier reports `NotImplemented`.
    pub fn apply_function(&self, parameters: Vec<&Value>) -> (r: Result<Vec<Value>, XacmlError>)
        ensures
            spec_fn_result_matches(r, spec_apply_function(*self, spec_deref(parameters@))),
    {
        match self {
            FunctionId::StringEqual => string_equal(&parameters),
            FunctionId::BooleanEqual => boolean_equal(&parameters),
            FunctionId::IntegerEqual => integer_equal(&parameters),
            FunctionId::DoubleEqual => double_equal(&parameters),
            FunctionId::AnyUriEqual => any_uri_equal(&parameters),
            FunctionId::IntegerAdd => integer_add(&parameters),
            FunctionId::DoubleAdd => double_add(&parameters),
            FunctionId::DoubleSubtract => double_subtract(&parameters),
            FunctionId::DoubleMultiply => double_multiply(&parameters),
            FunctionId::DoubleDivide => double_divide(&parameters),
            FunctionId::DoubleGreaterThan => double_greater_than(&parameters),
            FunctionId::Other(_) => Err(
                XacmlError::new(
                    XacmlErrorType::NotImplemented,
                    "Function not implemented".to_owned(),
                ),
            ),
        }
    }
}

/// The length of the dereferenced list equals the length of the reference
/// list, and its entries are the dereferenced entries.
pub proof fn lemma_spec_deref_len(s: Seq<&Value>)
    ensures
        spec_deref(s).len() == s.len(),
        forall|i: int| 0 <= i < s.len() ==> spec_deref(s)[i] == *s[i],
    decreases s.len(),
{
    if s.len() > 0 {
        lemma_spec_deref_len(s.drop_last());
        assert forall|i: int| 0 <= i < s.len() implies spec_deref(s)[i] == *s[i] by {
            if i < s.len() - 1 {
                assert(spec_deref(s.drop_last())[i] == *s.drop_last()[i]);
                assert(s.drop_last()[i] == s[i]);
            }
        }
    }
}

} // verus!
