use vstd::prelude::*;

use crate::expression::ExpressionType;
use crate::rule::EffectType;
use crate::values::{AttributeValueType, DataType};

verus! {

/// The issuer of a policy or policy set; carried through, never
/// interpreted by the engine.
#[derive(Debug, PartialEq, Eq)]
pub struct PolicyIssuerType {
    pub content: String,
    pub attribute: Option<Vec<String>>,
}

/// The XPath version a policy or policy set declares as its default.
#[derive(Debug, PartialEq, Eq)]
pub struct DefaultsType {
    pub x_path_version: Option<Vec<String>>,
}

/// A version pattern: numbers separated by dots, with the wildcards `*`
/// and `+`.
#[derive(Debug, PartialEq, Eq)]
pub struct VersionMatchType {
    pub version: String,
}

/// A reference to a policy or policy set by identifier, optionally
/// constrained to a version range.
#[derive(Debug, PartialEq, Eq)]
pub struct IdReferenceType {
    pub version: Option<VersionMatchType>,
    pub earliest_version: Option<VersionMatchType>,
    pub latest_version: Option<VersionMatchType>,
    pub id: String,
}

/// A reference to a policy set by identifier.
#[derive(Debug, PartialEq, Eq)]
pub struct PolicySetIdReferenceType {
    pub id: IdReferenceType,
}

/// A reference to a policy by identifier.
#[derive(Debug, PartialEq, Eq)]
pub struct PolicyIdReferenceType {
    pub id: IdReferenceType,
}

/// A named argument of a combining algorithm.
#[derive(Debug, PartialEq, Eq)]
pub struct CombinerParameterType {
    pub parameter_name: String,
    pub parameter_value: String,
}

/// A list of combiner parameters.
#[derive(Debug, PartialEq, Eq)]
pub struct CombinerParametersType {
    pub combiner_parameters: Vec<CombinerParameterType>,
}

/// Combiner parameters scoped to one rule; no combining algorithm of this
/// engine uses them.
#[derive(Debug, PartialEq, Eq)]
pub struct RuleCombinerParametersType {
    pub combiner_parameters: Vec<CombinerParametersType>,
    pub rule_id_ref: String,
}

/// Combiner parameters scoped to one policy; no combining algorithm of
/// this engine uses them.
#[derive(Debug, PartialEq, Eq)]
pub struct PolicyCombinerParametersType {
    pub combiner_parameters: Vec<CombinerParametersType>,
    pub policy_id_ref: String,
}

/// Combiner parameters scoped to one policy set; no combining algorithm of
/// this engine uses them.
#[derive(Debug, PartialEq, Eq)]
pub struct PolicySetCombinerParametersType {
    pub combiner_parameters: Vec<CombinerParametersType>,
    pub policy_set_id_ref: String,
}

/// A variable definition of a policy; the engine does not implement
/// variable resolution.
#[derive(Debug, PartialEq, Eq)]
pub struct VariableDefinitionType {
    pub expression: Vec<ExpressionType>,
    pub variable_id: String,
}

/// An argument carried inside an obligation or advice.
#[derive(Debug, PartialEq, Eq)]
pub struct AttributeAssignmentType {
    pub attribute: String,
    pub attribute_id: String,
    pub category: Option<String>,
    pub issuer: Option<String>,
}

/// An obligation handed back with a decision.
#[derive(Debug, PartialEq, Eq)]
pub struct ObligationType {
    pub obligation_id: String,
    pub attribute_assignment: Option<Vec<AttributeAssignmentType>>,
}

/// The obligations of a result.
#[derive(Debug, PartialEq, Eq)]
pub struct ObligationsType {
    pub obligations: Vec<ObligationType>,
}

/// An advice handed back with a decision.
#[derive(Debug, PartialEq, Eq)]
pub struct AdviceType {
    pub advice_id: String,
    pub attribute_assignment: Option<Vec<AttributeAssignmentType>>,
}

/// The advice list of a result.
#[derive(Debug, PartialEq, Eq)]
pub struct AssociatedAdviceType {
    pub advice: Vec<AdviceType>,
}

/// An expression that supplies an argument for an obligation or advice.
#[derive(Debug, PartialEq, Eq)]
pub struct AttributeAssignmentExpressionType {
    pub attribute_id: String,
    pub category: Option<String>,
    pub issuer: Option<String>,
    pub expression: Vec<ExpressionType>,
}

/// An expression that evaluates to an obligation.
#[derive(Debug, PartialEq, Eq)]
pub struct ObligationExpressionType {
    pub obligation_id: String,
    pub fulfill_on: EffectType,
    pub attribute_assignment: Option<Vec<AttributeAssignmentExpressionType>>,
}

/// The obligation expressions of a rule, policy or policy set.
#[derive(Debug, PartialEq, Eq)]
pub struct ObligationExpressionsType {
    pub obligation_expressions: Vec<ObligationExpressionType>,
}

/// An expression that evaluates to an advice.
#[derive(Debug, PartialEq, Eq)]
pub struct AdviceExpressionType {
    pub advice_id: String,
    pub applies_to: EffectType,
    pub attribute_assignment: Option<Vec<AttributeAssignmentExpressionType>>,
}

/// The advice expressions of a rule, policy or policy set.
#[derive(Debug, PartialEq, Eq)]
pub struct AdviceExpressionsType {
    pub advice_expressions: Vec<AdviceExpressionType>,
}

/// The identifiers of the policies that were fully applicable to a
/// request.
#[derive(Debug, PartialEq, Eq)]
pub struct PolicyIdentifierListType {
    pub policy_id_reference: Option<Vec<PolicyIdReferenceType>>,
    pub policy_set_id_reference: Option<Vec<PolicySetIdReferenceType>>,
}

/// Detail on an attribute a decision needed but the request did not hold.
#[derive(Debug, PartialEq, Eq)]
pub struct MissingAttributeDetailType {
    pub category: String,
    pub attribute_id: String,
    pub data_type: DataType,
    pub issuer: Option<String>,
    pub attribute_value: Option<Vec<AttributeValueType>>,
}

} // verus!
