//! Trust-discounting scenario: the projected probability of an opinion is
//! discounted by a supporting belief before being compared against a
//! threshold.

use xacml_rs::combining::{PolicyResult, RuleCombiningAlgorithms};
use xacml_rs::expression::{ApplyType, ConditionType, ExpressionType};
use xacml_rs::functions::FunctionId;
use xacml_rs::identifiers::{create_urn, AttributeIdentifiers, Categories};
use xacml_rs::policy::{PolicyType, VersionType};
use xacml_rs::request::{
    AttributeDesignatorType, AttributeType, AttributesType, RequestType, UnimplementedField,
};
use xacml_rs::rule::{EffectType, RuleType};
use xacml_rs::target::{AllOfType, AnyOfType, MatchType, TargetType};
use xacml_rs::values::{AttributeValueType, DataType, Value};

fn double(x: f64) -> Value {
    Value::Double(x.to_bits())
}

fn double_literal(x: f64) -> ExpressionType {
    ExpressionType::AttributeValue(AttributeValueType {
        data_type: DataType::Double,
        value: double(x),
    })
}

fn designator(id: String, category: Categories) -> ExpressionType {
    ExpressionType::AttributeDesignator(AttributeDesignatorType {
        attribute_id: AttributeIdentifiers::Other(id),
        data_type: DataType::Double,
        category,
        must_be_present: true,
        issuer: None,
    })
}

fn double_attribute(id: String, value: f64) -> AttributeType {
    AttributeType {
        attribute_id: AttributeIdentifiers::Other(id),
        include_in_result: false,
        issuer: None,
        attribute_value: vec![AttributeValueType {
            data_type: DataType::Double,
            value: double(value),
        }],
    }
}

fn subjective_logic_calculate_projected_probability_with_apply(
    belief: ExpressionType,
    uncertainty: ExpressionType,
    baserate: ExpressionType,
) -> ApplyType {
    ApplyType {
        function_id: FunctionId::DoubleAdd,
        description: Some("Add belief to product of base rate and uncertainty".to_string()),
        expression: Some(vec![
            belief,
            ExpressionType::Apply(ApplyType {
                function_id: FunctionId::DoubleMultiply,
                description: Some("Multiply uncertainty and base rate".to_string()),
                expression: Some(vec![uncertainty, baserate]),
            }),
        ]),
    }
}

fn subjective_logic_calculate_projected_probability_with_urn(
    belief_id: String,
    uncertainty_id: String,
    baserate_id: String,
) -> ApplyType {
    subjective_logic_calculate_projected_probability_with_apply(
        designator(belief_id, Categories::Resource),
        designator(uncertainty_id, Categories::Resource),
        designator(baserate_id, Categories::Resource),
    )
}

fn object_projected_probability() -> ApplyType {
    subjective_logic_calculate_projected_probability_with_urn(
        create_urn("attribute:object:belief"),
        create_urn("attribute:object:uncertainty"),
        create_urn("attribute:object:baserate"),
    )
}

fn create_discounted_belief() -> ExpressionType {
    ExpressionType::Apply(ApplyType {
        function_id: FunctionId::DoubleMultiply,
        description: Some("Multiply supporting belief with projected probability".to_string()),
        expression: Some(vec![
            ExpressionType::Apply(object_projected_probability()),
            designator(
                create_urn("attributes:data:supporting_belief"),
                Categories::AccessSubject,
            ),
        ]),
    })
}

fn create_discounted_uncertainty() -> ExpressionType {
    ExpressionType::Apply(ApplyType {
        function_id: FunctionId::DoubleSubtract,
        description: Some("Calculate data-based uncertainty value".to_string()),
        expression: Some(vec![
            double_literal(1.0),
            ExpressionType::Apply(ApplyType {
                function_id: FunctionId::DoubleMultiply,
                description: Some(
                    "Multiply supporting belief with projected probability".to_string(),
                ),
                expression: Some(vec![
                    ExpressionType::Apply(object_projected_probability()),
                    ExpressionType::Apply(ApplyType {
                        function_id: FunctionId::DoubleAdd,
                        description: Some(
                            "Sum up belief in x=X to calculate uncertainty".to_string(),
                        ),
                        expression: Some(vec![designator(
                            create_urn("attributes:data:supporting_belief"),
                            Categories::AccessSubject,
                        )]),
                    }),
                ]),
            }),
        ]),
    })
}

fn create_discounted_baserate() -> ExpressionType {
    designator(create_urn("attributes:data:baserate"), Categories::AccessSubject)
}

fn create_discounting_rule(threshold: f64) -> RuleType {
    RuleType {
        rule_id: create_urn("rule:trust_discounting"),
        effect: EffectType::Permit,
        description: None,
        target: None,
        condition: Some(ConditionType {
            expression: ExpressionType::Apply(ApplyType {
                function_id: FunctionId::DoubleGreaterThan,
                description: None,
                expression: Some(vec![
                    ExpressionType::Apply(
                        subjective_logic_calculate_projected_probability_with_apply(
                            create_discounted_belief(),
                            create_discounted_uncertainty(),
                            create_discounted_baserate(),
                        ),
                    ),
                    double_literal(threshold),
                ]),
            }),
        }),
        obligation_expressions: None,
        advice_expressions: None,
    }
}

fn create_policy_with_rules(rules: Vec<RuleType>) -> PolicyType {
    PolicyType {
        xmlns: None,
        xmlns_xsi: None,
        policy_id: create_urn("policy:sl_check_projected_probability"),
        version: VersionType("0.1".to_string()),
        rule_combining_alg_id: RuleCombiningAlgorithms::DenyOverrides,
        max_delegation_depth: None,
        description: Some("Checks if the projected probability is higher than the RTL".to_string()),
        policy_issuer: None,
        policy_defaults: None,
        combiner_parameters: None,
        rule_combiner_parameters: None,
        target: Some(TargetType {
            any_of: Some(vec![AnyOfType {
                all_of: vec![AllOfType {
                    _match: vec![MatchType {
                        match_id: FunctionId::StringEqual,
                        attribute_value: AttributeValueType {
                            data_type: DataType::String,
                            value: Value::String("CIM_received_data".to_string()),
                        },
                        attribute_designator: Some(AttributeDesignatorType {
                            attribute_id: AttributeIdentifiers::Other(create_urn(
                                "attribute:context",
                            )),
                            data_type: DataType::String,
                            category: Categories::RecipientSubject,
                            must_be_present: true,
                            issuer: None,
                        }),
                        attribute_selector: None,
                    }],
                }],
            }]),
        }),
        variable_definition: None,
        rule: rules,
        obligation_expressions: None,
        advice_expressions: None,
    }
}

fn create_discounting_request_attributes() -> Vec<AttributesType> {
    vec![
        AttributesType {
            category: Categories::Resource,
            xml_id: None,
            content: None,
            attribute: Some(vec![
                double_attribute(create_urn("attribute:object:belief"), 0.9),
                double_attribute(create_urn("attribute:object:uncertainty"), 0.05),
                double_attribute(create_urn("attribute:object:baserate"), 0.9),
            ]),
        },
        AttributesType {
            category: Categories::AccessSubject,
            xml_id: None,
            content: None,
            attribute: Some(vec![
                double_attribute(create_urn("attributes:data:supporting_belief"), 1.0),
                double_attribute(create_urn("attributes:data:baserate"), 0.5),
            ]),
        },
        AttributesType {
            category: Categories::RecipientSubject,
            xml_id: None,
            content: None,
            attribute: Some(vec![AttributeType {
                attribute_id: AttributeIdentifiers::Other(create_urn("attribute:context")),
                include_in_result: false,
                issuer: None,
                attribute_value: vec![AttributeValueType {
                    data_type: DataType::String,
                    value: Value::String("CIM_received_data".to_string()),
                }],
            }]),
        },
    ]
}

fn create_request_with_attributes(attributes: Vec<AttributesType>) -> RequestType {
    RequestType {
        return_policy_id_list: false,
        combined_decision: false,
        request_defaults: None,
        attributes,
        multi_requests: UnimplementedField(None),
    }
}

#[test]
fn test_discounted_decision() {
    let policy = create_policy_with_rules(vec![create_discounting_rule(0.9)]);
    let request = create_request_with_attributes(create_discounting_request_attributes());
    assert_eq!(policy.evaluate_policy(&request).unwrap(), PolicyResult::Permit);
}

/// With a threshold above the discounted projected probability the rule
/// does not fire and the policy is not applicable.
#[test]
fn discounted_decision_below_threshold() {
    let policy = create_policy_with_rules(vec![create_discounting_rule(0.99)]);
    let request = create_request_with_attributes(create_discounting_request_attributes());
    assert_eq!(
        policy.evaluate_policy(&request).unwrap(),
        PolicyResult::NotApplicable
    );
}
