use vstd::prelude::*;

use crate::errors::{XacmlError, XacmlErrorType};
use crate::identifiers::{spec_attr_id_eq, spec_cat_eq, AttributeIdentifiers, Categories};
use crate::values::{AttributeValueType, DataType, Value};

verus! {

/// Equality of two optional strings: both absent, or both present with the
/// same characters.
pub open spec fn spec_opt_string_eq(a: Option<String>, b: Option<String>) -> bool {
    match (a, b) {
        (None, None) => true,
        (Some(x), Some(y)) => x@ == y@,
        _ => false,
    }
}

/// Compares two optional strings; `None` matches only `None`.
pub fn opt_string_eq(a: &Option<String>, b: &Option<String>) -> (r: bool)
    ensures
        r == spec_opt_string_eq(*a, *b),
{
    match (a, b) {
        (None, None) => true,
        (Some(x), Some(y)) => *x == *y,
        _ => false,
    }
}

/// Placeholder for arbitrary XML content of an attribute bag; the engine
/// never reads it.
#[derive(Debug, Clone, PartialEq, Eq)]
pub struct Content {
    pub any: String,
}

/// The XPath version stated in a request's defaults; the engine never reads
/// it.
#[derive(Debug, Clone, PartialEq, Eq)]
pub struct RequestDefaultsType {
    pub x_path_version: String,
}

/// A field that the engine does not implement: it is well-formed only while
/// it holds nothing.
#[derive(Debug, PartialEq, Eq)]
pub struct UnimplementedField(pub Option<String>);

impl UnimplementedField {
    pub fn is_none(&self) -> (r: bool)
        ensures
            r == (self.0 is None),
    {
        self.0.is_none()
    }
}

/// A query descriptor used to pull a bag of values out of a request: which
/// category and attribute to look in, which data type to keep, whether an
/// empty result is an error, and the exact issuer the attribute must carry.
#[derive(Debug, Clone, PartialEq, Eq)]
pub struct AttributeDesignatorType {
    pub attribute_id: AttributeIdentifiers,
    pub data_type: DataType,
    pub category: Categories,
    pub must_be_present: bool,
    pub issuer: Option<String>,
}

/// A selector that retrieves attributes by an XPath expression; unsupported
/// by this engine, every use reports `NotImplemented`.
#[derive(Debug, Clone, PartialEq, Eq)]
pub struct AttributeSelectorType {
    pub category: String,
    pub context_selector_id: Option<String>,
    pub path: String,
    pub data_type: String,
    pub must_be_present: bool,
}

/// A single attribute: identifier, issuer and an ordered list of typed
/// values.
#[derive(Debug, PartialEq, Eq)]
pub struct AttributeType {
    pub attribute_id: AttributeIdentifiers,
    pub include_in_result: bool,
    pub issuer: Option<String>,
    pub attribute_value: Vec<AttributeValueType>,
}

/// An attribute bag of one category inside a request.
#[derive(Debug, PartialEq, Eq)]
pub struct AttributesType {
    pub category: Categories,
    pub xml_id: Option<String>,
    pub content: Option<Content>,
    pub attribute: Option<Vec<AttributeType>>,
}

/// A decision request: a list of categorized attribute bags, read-only for
/// the duration of one evaluation.
#[derive(Debug, PartialEq, Eq)]
pub struct RequestType {
    pub return_policy_id_list: bool,
    pub combined_decision: bool,
    pub request_defaults: Option<RequestDefaultsType>,
    pub attributes: Vec<AttributesType>,
    pub multi_requests: UnimplementedField,
}

/// The values of `s`, in order, whose declared data type tag is `dt`.
pub open spec fn spec_filtered_values(s: Seq<AttributeValueType>, dt: DataType) -> Seq<
    AttributeValueType,
>
    decreases s.len(),
{
    if s.len() == 0 {
        Seq::empty()
    } else {
        let rest = spec_filtered_values(s.drop_last(), dt);
        if s.last().data_type == dt {
            rest.push(s.last())
        } else {
            rest
        }
    }
}

/// The typed literals of attribute `a` that designator `d` selects: every
/// held value whose data type tag matches, provided the attribute identifier
/// and the issuer match exactly; the empty bag otherwise.
pub open spec fn spec_attr_matched(a: AttributeType, d: AttributeDesignatorType) -> Seq<
    AttributeValueType,
> {
    if spec_attr_id_eq(a.attribute_id, d.attribute_id) && spec_opt_string_eq(a.issuer, d.issuer) {
        spec_filtered_values(a.attribute_value@, d.data_type)
    } else {
        Seq::empty()
    }
}

/// The concatenation, in order, of what designator `d` selects from each
/// attribute in `list`.
pub open spec fn spec_attr_list_matched(list: Seq<AttributeType>, d: AttributeDesignatorType) -> Seq<
    AttributeValueType,
>
    decreases list.len(),
{
    if list.len() == 0 {
        Seq::empty()
    } else {
        spec_attr_list_matched(list.drop_last(), d) + spec_attr_matched(list.last(), d)
    }
}

/// The typed literals that designator `d` selects from the attribute bag
/// `ats`: empty unless the bag's category matches the designator's.
pub open spec fn spec_attrs_matched(ats: AttributesType, d: AttributeDesignatorType) -> Seq<
    AttributeValueType,
> {
    if spec_cat_eq(ats.category, d.category) && ats.attribute is Some {
        spec_attr_list_matched(ats.attribute->Some_0@, d)
    } else {
        Seq::empty()
    }
}

/// The values carried by the typed literals of `s`, in order.
pub open spec fn spec_values_of(s: Seq<AttributeValueType>) -> Seq<Value>
    decreases s.len(),
{
    if s.len() == 0 {
        Seq::empty()
    } else {
        spec_values_of(s.drop_last()).push(s.last().value)
    }
}

/// The raw bag that designator `d` resolves to against request `req`: the
/// concatenation over all attribute bags, in request order, duplicates
/// retained.
pub open spec fn spec_raw_resolve(req: RequestType, d: AttributeDesignatorType) -> Seq<Value>
    decreases req.attributes@.len(),
{
    spec_raw_resolve_list(req.attributes@, d)
}

/// The concatenation of the selected values over a list of attribute bags.
pub open spec fn spec_raw_resolve_list(
    list: Seq<AttributesType>,
    d: AttributeDesignatorType,
) -> Seq<Value>
    decreases list.len(),
{
    if list.len() == 0 {
        Seq::empty()
    } else {
        spec_raw_resolve_list(list.drop_last(), d) + spec_values_of(
            spec_attrs_matched(list.last(), d),
        )
    }
}

/// What designator `d` resolves to against request `req`: the raw bag if it
/// is non-empty; otherwise the single sentinel `[Indeterminate]` when the
/// designator requires a value, and the empty bag when it does not.
pub open spec fn spec_resolve(req: RequestType, d: AttributeDesignatorType) -> Seq<Value> {
    let raw = spec_raw_resolve(req, d);
    if raw.len() > 0 {
        raw
    } else if d.must_be_present {
        seq![Value::Indeterminate]
    } else {
        Seq::empty()
    }
}

impl AttributeValueType {
    /// A literal evaluates to the one-element bag holding its value,
    /// whatever the request.
    pub fn evaluate(&self, _request: &RequestType) -> (r: Result<Vec<Value>, XacmlError>)
        ensures
            r matches Ok(v) && v@ == seq![self.value],
    {
        let mut out: Vec<Value> = Vec::new();
        out.push(self.value.clone());
        proof {
            assert(out@ =~= seq![self.value]);
        }
        Ok(out)
    }
}

impl AttributeType {
    /// The typed literals of this attribute that the designator selects;
    /// never an error.
    pub fn get_attribute_values_by_designator(&self, designator: &AttributeDesignatorType) -> (r:
        Result<Vec<AttributeValueType>, XacmlError>)
        ensures
            r matches Ok(v) && v@ == spec_attr_matched(*self, *designator),
    {
        if !(self.attribute_id == designator.attribute_id) || !opt_string_eq(
            &self.issuer,
            &designator.issuer,
        ) {
            let out: Vec<AttributeValueType> = Vec::new();
            return Ok(out);
        }
        let mut out: Vec<AttributeValueType> = Vec::new();
        let n = self.attribute_value.len();
        let mut i: usize = 0;
        while i < n
            invariant
                i <= n,
                n == self.attribute_value@.len(),
                out@ == spec_filtered_values(
                    self.attribute_value@.take(i as int),
                    designator.data_type,
                ),
            decreases n - i,
        {
            let av = &self.attribute_value[i];
            proof {
                assert(self.attribute_value@.take(i + 1 as int).drop_last() =~= self
                    .attribute_value@.take(i as int));
                assert(self.attribute_value@.take(i + 1 as int).last() == self.attribute_value@[i as int]);
            }
            if av.match_data_type(&designator.data_type) {
                out.push(av.clone());
            }
            i += 1;
        }
        proof {
            assert(self.attribute_value@.take(n as int) =~= self.attribute_value@);
        }
        Ok(out)
    }

    /// The plain values of this attribute that the designator selects.
    pub fn get_values_by_designator(&self, designator: &AttributeDesignatorType) -> (r: Result<
        Vec<Value>,
        XacmlError,
    >)
        ensures
            r matches Ok(v) && v@ == spec_values_of(spec_attr_matched(*self, *designator)),
    {
        let matched = self.get_attribute_values_by_designator(designator)?;
        Ok(values_of(&matched))
    }
}

/// Clones the plain values out of a list of typed literals.
fn values_of(list: &Vec<AttributeValueType>) -> (r: Vec<Value>)
    ensures
        r@ == spec_values_of(list@),
{
    let mut out: Vec<Value> = Vec::new();
    let n = list.len();
    let mut i: usize = 0;
    while i < n
        invariant
            i <= n,
            n == list@.len(),
            out@ == spec_values_of(list@.take(i as int)),
        decreases n - i,
    {
        proof {
            assert(list@.take(i + 1 as int).drop_last() =~= list@.take(i as int));
            assert(list@.take(i + 1 as int).last() == list@[i as int]);
        }
        out.push(list[i].value.clone());
        i += 1;
    }
    proof {
        assert(list@.take(n as int) =~= list@);
    }
    out
}

impl AttributesType {
    /// The typed literals of this bag that the designator selects: empty
    /// when the category differs or the bag holds no attributes; never an
    /// error.
    pub fn get_attribute_values_by_designator(&self, designator: &AttributeDesignatorType) -> (r:
        Result<Vec<AttributeValueType>, XacmlError>)
        ensures
            r matches Ok(v) && v@ == spec_attrs_matched(*self, *designator),
    {
        let out: Vec<AttributeValueType> = Vec::new();
        if !(self.category == designator.category) {
            return Ok(out);
        }
        let attrs = match &self.attribute {
            Some(attrs) => attrs,
            None => {
                return Ok(out);
            },
        };
        let mut out = out;
        let n = attrs.len();
        let mut i: usize = 0;
        while i < n
            invariant
                i <= n,
                n == attrs@.len(),
                out@ == spec_attr_list_matched(attrs@.take(i as int), *designator),
            decreases n - i,
        {
            proof {
                assert(attrs@.take(i + 1 as int).drop_last() =~= attrs@.take(i as int));
                assert(attrs@.take(i + 1 as int).last() == attrs@[i as int]);
            }
            let mut sub = attrs[i].get_attribute_values_by_designator(designator)?;
            out.append(&mut sub);
            i += 1;
        }
        proof {
            assert(attrs@.take(n as int) =~= attrs@);
        }
        Ok(out)
    }

    /// The plain values of this bag that the designator selects.
    pub fn get_values_by_designator(&self, designator: &AttributeDesignatorType) -> (r: Result<
        Vec<Value>,
        XacmlError,
    >)
        ensures
            r matches Ok(v) && v@ == spec_values_of(spec_attrs_matched(*self, *designator)),
    {
        let matched = self.get_attribute_values_by_designator(designator)?;
        Ok(values_of(&matched))
    }

    /// Attribute selectors are not implemented: always reports
    /// `NotImplemented`.
    pub fn get_attribute_values_by_selector(&self, _selector: &AttributeSelectorType) -> (r:
        Result<Vec<AttributeValueType>, XacmlError>)
        ensures
            r matches Err(e) && e.error_type == XacmlErrorType::NotImplemented,
    {
        Err(
            XacmlError::new(
                XacmlErrorType::NotImplemented,
                "AttributeSelector not implemented as Content is not implemented".to_owned(),
            ),
        )
    }
}

impl AttributeDesignatorType {
    /// Resolves this designator against a request: the concatenation of
    /// every matching value, in request order; when no value matches, the
    /// sentinel `[Indeterminate]` if a value is required, the empty bag
    /// otherwise. Never an error.
    pub fn evaluate(&self, request: &RequestType) -> (r: Result<Vec<Value>, XacmlError>)
        ensures
            r matches Ok(v) && v@ == spec_resolve(*request, *self),
    {
        let mut out: Vec<Value> = Vec::new();
        let n = request.attributes.len();
        let mut i: usize = 0;
        while i < n
            invariant
                i <= n,
                n == request.attributes@.len(),
                out@ == spec_raw_resolve_list(request.attributes@.take(i as int), *self),
            decreases n - i,
        {
            proof {
                assert(request.attributes@.take(i + 1 as int).drop_last() =~= request.attributes@
                    .take(i as int));
                assert(request.attributes@.take(i + 1 as int).last() == request.attributes@[i as int]);
            }
            let mut sub = request.attributes[i].get_values_by_designator(self)?;
            out.append(&mut sub);
            i += 1;
        }
        proof {
            assert(request.attributes@.take(n as int) =~= request.attributes@);
        }
        if out.len() > 0 {
            return Ok(out);
        }
        if self.must_be_present {
            let mut sentinel: Vec<Value> = Vec::new();
            sentinel.push(Value::Indeterminate);
            proof {
                assert(sentinel@ =~= seq![Value::Indeterminate]);
            }
            Ok(sentinel)
        } else {
            let empty: Vec<Value> = Vec::new();
            Ok(empty)
        }
    }
}

} // verus!
