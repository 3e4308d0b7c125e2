use xacml_rs::combining::{PolicyResult, RuleCombiningAlgorithms};
use xacml_rs::expression::{
    ApplyType, ConditionType, ExpressionType, FunctionType, VariableReferenceType,
};
use xacml_rs::functions::FunctionId;
use xacml_rs::identifiers::{create_urn, AttributeIdentifiers, Categories};
use xacml_rs::pdp::decide_request;
use xacml_rs::policy::{PolicyType, VersionType};
use xacml_rs::request::{
    AttributeDesignatorType, AttributeSelectorType, AttributeType, AttributesType, RequestType,
    UnimplementedField,
};
use xacml_rs::response::DecisionType;
use xacml_rs::rule::{EffectType, RuleType};
use xacml_rs::target::{AllOfType, AnyOfType, MatchType, TargetType};
use xacml_rs::values::{AttributeValueType, DataType, Value};

fn double(x: f64) -> Value {
    Value::Double(x.to_bits())
}

fn double_literal(x: f64) -> ExpressionType {
    ExpressionType::AttributeValue(AttributeValueType {
        data_type: DataType::Double,
        value: double(x),
    })
}

fn resource_double_designator(id: String) -> ExpressionType {
    ExpressionType::AttributeDesignator(AttributeDesignatorType {
        attribute_id: AttributeIdentifiers::Other(id),
        data_type: DataType::Double,
        category: Categories::Resource,
        must_be_present: true,
        issuer: None,
    })
}

fn double_attribute(id: String, value: f64) -> AttributeType {
    AttributeType {
        attribute_id: AttributeIdentifiers::Other(id),
        include_in_result: false,
        issuer: None,
        attribute_value: vec![AttributeValueType {
            data_type: DataType::Double,
            value: double(value),
        }],
    }
}

/// The projected-probability expression of scenario A:
/// DoubleAdd(belief, DoubleMultiply(uncertainty, baserate)).
fn projected_probability() -> ExpressionType {
    ExpressionType::Apply(ApplyType {
        function_id: FunctionId::DoubleAdd,
        description: Some("Add belief to product of base rate and uncertainty".to_string()),
        expression: Some(vec![
            resource_double_designator(create_urn("attribute:object:belief")),
            ExpressionType::Apply(ApplyType {
                function_id: FunctionId::DoubleMultiply,
                description: Some("Multiply uncertainty and base rate".to_string()),
                expression: Some(vec![
                    resource_double_designator(create_urn("attribute:object:uncertainty")),
                    resource_double_designator(create_urn("attribute:object:baserate")),
                ]),
            }),
        ]),
    })
}

fn create_policy_with_rules(rules: Vec<RuleType>) -> PolicyType {
    PolicyType {
        xmlns: None,
        xmlns_xsi: None,
        policy_id: create_urn("policy:sl_check_projected_probability"),
        version: VersionType("0.1".to_string()),
        rule_combining_alg_id: RuleCombiningAlgorithms::DenyOverrides,
        max_delegation_depth: None,
        description: Some("Checks if the projected probability is higher than the RTL".to_string()),
        policy_issuer: None,
        policy_defaults: None,
        combiner_parameters: None,
        rule_combiner_parameters: None,
        target: Some(TargetType {
            any_of: Some(vec![AnyOfType {
                all_of: vec![AllOfType {
                    _match: vec![MatchType {
                        match_id: FunctionId::StringEqual,
                        attribute_value: AttributeValueType {
                            data_type: DataType::String,
                            value: Value::String("CIM_received_data".to_string()),
                        },
                        attribute_designator: Some(AttributeDesignatorType {
                            attribute_id: AttributeIdentifiers::Other(create_urn(
                                "attribute:context",
                            )),
                            data_type: DataType::String,
                            category: Categories::RecipientSubject,
                            must_be_present: true,
                            issuer: None,
                        }),
                        attribute_selector: None,
                    }],
                }],
            }]),
        }),
        variable_definition: None,
        rule: rules,
        obligation_expressions: None,
        advice_expressions: None,
    }
}

fn subjective_logic_policy_rules_vec(threshold: f64) -> Vec<RuleType> {
    vec![RuleType {
        rule_id: create_urn("rule:compare_projected_probability"),
        effect: EffectType::Permit,
        description: Some("Rule calculates and compares projected probability".to_string()),
        target: None,
        condition: Some(ConditionType {
            expression: ExpressionType::Apply(ApplyType {
                function_id: FunctionId::DoubleGreaterThan,
                description: Some("Compare actual and required value".to_string()),
                expression: Some(vec![projected_probability(), double_literal(threshold)]),
            }),
        }),
        obligation_expressions: None,
        advice_expressions: None,
    }]
}

fn subjective_logic_request_attributes() -> Vec<AttributesType> {
    vec![
        AttributesType {
            category: Categories::Resource,
            xml_id: None,
            content: None,
            attribute: Some(vec![
                double_attribute(create_urn("attribute:object:belief"), 0.5),
                double_attribute(create_urn("attribute:object:uncertainty"), 0.2),
                double_attribute(create_urn("attribute:object:baserate"), 1.0),
            ]),
        },
        AttributesType {
            category: Categories::RecipientSubject,
            xml_id: None,
            content: None,
            attribute: Some(vec![AttributeType {
                attribute_id: AttributeIdentifiers::Other(create_urn("attribute:context")),
                include_in_result: false,
                issuer: None,
                attribute_value: vec![AttributeValueType {
                    data_type: DataType::String,
                    value: Value::String("CIM_received_data".to_string()),
                }],
            }]),
        },
    ]
}

fn create_request_with_attributes(attributes: Vec<AttributesType>) -> RequestType {
    RequestType {
        return_policy_id_list: false,
        combined_decision: false,
        request_defaults: None,
        attributes,
        multi_requests: UnimplementedField(None),
    }
}

/// Scenario A with the lower threshold: the projected probability 0.7
/// clears 0.6, so the single permit rule fires and the policy permits.
#[test]
fn projected_probability_above_threshold_permits() {
    let policy = create_policy_with_rules(subjective_logic_policy_rules_vec(0.6));
    let request = create_request_with_attributes(subjective_logic_request_attributes());
    assert_eq!(policy.evaluate_policy(&request).unwrap(), PolicyResult::Permit);
    let response = decide_request(&request, &policy).unwrap();
    assert_eq!(response.result[0].decision, DecisionType::Permit);
}

/// Scenario A with the higher threshold: 0.7 does not clear 0.8, the rule
/// does not fire, and under deny-overrides a policy whose only rule is not
/// applicable is itself not applicable.
#[test]
fn projected_probability_below_threshold_not_applicable() {
    let policy = create_policy_with_rules(subjective_logic_policy_rules_vec(0.8));
    let request = create_request_with_attributes(subjective_logic_request_attributes());
    assert_eq!(
        policy.evaluate_policy(&request).unwrap(),
        PolicyResult::NotApplicable
    );
    let response = decide_request(&request, &policy).unwrap();
    assert_eq!(response.result[0].decision, DecisionType::NotApplicable);
}

/// A deny rule that fires makes the policy deny, and the decision follows.
#[test]
fn firing_deny_rule_denies() {
    let mut rules = subjective_logic_policy_rules_vec(0.6);
    rules[0].effect = EffectType::Deny;
    let policy = create_policy_with_rules(rules);
    let request = create_request_with_attributes(subjective_logic_request_attributes());
    assert_eq!(policy.evaluate_policy(&request).unwrap(), PolicyResult::Deny);
    let response = decide_request(&request, &policy).unwrap();
    assert_eq!(response.result[0].decision, DecisionType::Deny);
}

/// A policy whose target does not match is not applicable, whatever its
/// rules would say.
#[test]
fn unmatched_policy_target_not_applicable() {
    let policy = create_policy_with_rules(subjective_logic_policy_rules_vec(0.6));
    let mut attributes = subjective_logic_request_attributes();
    attributes.pop();
    // without the recipient-subject context the required designator of the
    // policy target resolves to the sentinel: the target is indeterminate,
    // and a combined Permit is downgraded
    let request = create_request_with_attributes(attributes);
    assert_eq!(
        policy.evaluate_policy(&request).unwrap(),
        PolicyResult::IndeterminateP
    );
    let response = decide_request(&request, &policy).unwrap();
    assert_eq!(response.result[0].decision, DecisionType::Indeterminate);
    // with a wrong context value the target plainly does not match
    let mut attributes2 = subjective_logic_request_attributes();
    attributes2[1].attribute.as_mut().unwrap()[0].attribute_value[0].value =
        Value::String("something_else".to_string());
    let request2 = create_request_with_attributes(attributes2);
    assert_eq!(
        policy.evaluate_policy(&request2).unwrap(),
        PolicyResult::NotApplicable
    );
}

fn empty_request() -> RequestType {
    create_request_with_attributes(vec![])
}

/// Scenario B: StringEqual over two literals, and IntegerAdd over two
/// literals, evaluated as expressions.
#[test]
fn literal_expression_scenarios() {
    let request = empty_request();
    let string_cmp = ExpressionType::Apply(ApplyType {
        function_id: FunctionId::StringEqual,
        description: None,
        expression: Some(vec![
            ExpressionType::AttributeValue(AttributeValueType {
                data_type: DataType::String,
                value: Value::String("a".to_string()),
            }),
            ExpressionType::AttributeValue(AttributeValueType {
                data_type: DataType::String,
                value: Value::String("b".to_string()),
            }),
        ]),
    });
    assert_eq!(string_cmp.evaluate(&request).unwrap(), vec![Value::Boolean(false)]);
    let sum = ExpressionType::Apply(ApplyType {
        function_id: FunctionId::IntegerAdd,
        description: None,
        expression: Some(vec![
            ExpressionType::AttributeValue(AttributeValueType {
                data_type: DataType::Integer,
                value: Value::Integer(2),
            }),
            ExpressionType::AttributeValue(AttributeValueType {
                data_type: DataType::Integer,
                value: Value::Integer(3),
            }),
        ]),
    });
    assert_eq!(sum.evaluate(&request).unwrap(), vec![Value::Integer(5)]);
}

/// The unsupported expression kinds report NotImplemented.
#[test]
fn unsupported_expressions_not_implemented() {
    let request = empty_request();
    let selector = ExpressionType::AttributeSelector(AttributeSelectorType {
        category: "urn:oasis:names:tc:xacml:3.0:attribute-category:resource".to_string(),
        context_selector_id: None,
        path: "//resource".to_string(),
        data_type: "http://www.w3.org/2001/XMLSchema#string".to_string(),
        must_be_present: false,
    });
    assert!(selector.evaluate(&request).is_err());
    let variable = ExpressionType::VariableReference(VariableReferenceType {
        variable_id: "v".to_string(),
    });
    assert!(variable.evaluate(&request).is_err());
    let function = ExpressionType::Function(FunctionType {
        function_id: "urn:oasis:names:tc:xacml:1.0:function:string-equal".to_string(),
    });
    assert!(function.evaluate(&request).is_err());
}

/// An empty Apply argument list reaches the function with no parameters:
/// the fold identities come out for the variadic operators.
#[test]
fn empty_apply_argument_list() {
    let request = empty_request();
    let empty_sum = ExpressionType::Apply(ApplyType {
        function_id: FunctionId::IntegerAdd,
        description: None,
        expression: None,
    });
    assert_eq!(empty_sum.evaluate(&request).unwrap(), vec![Value::Integer(0)]);
}

fn ls_create_policy() -> PolicyType {
    PolicyType {
        xmlns: None,
        xmlns_xsi: None,
        policy_id: "sl_check_projected_probability".to_string(),
        version: VersionType("0.1".to_string()),
        rule_combining_alg_id: RuleCombiningAlgorithms::DenyOverrides,
        max_delegation_depth: None,
        description: Some(
            "Checks if the projected probability matches the required value".to_string(),
        ),
        policy_issuer: None,
        policy_defaults: None,
        combiner_parameters: None,
        rule_combiner_parameters: None,
        target: None,
        variable_definition: None,
        rule: vec![RuleType {
            rule_id: "calculate_check_projected_probability".to_string(),
            effect: EffectType::Permit,
            description: Some("Rule calculates and compares projected probability".to_string()),
            target: None,
            condition: Some(ConditionType {
                expression: ExpressionType::Apply(ApplyType {
                    function_id: FunctionId::DoubleGreaterThan,
                    description: Some("Compare actual and required value".to_string()),
                    expression: Some(vec![
                        ExpressionType::Apply(ApplyType {
                            function_id: FunctionId::DoubleAdd,
                            description: Some(
                                "Add belief to product of base rate and uncertainty".to_string(),
                            ),
                            expression: Some(vec![
                                ls_subject_designator("object.belief"),
                                ExpressionType::Apply(ApplyType {
                                    function_id: FunctionId::DoubleMultiply,
                                    description: Some("Multiply belief and base rate".to_string()),
                                    expression: Some(vec![
                                        ls_subject_designator("object.uncertainty"),
                                        ls_subject_designator("object.baserate"),
                                    ]),
                                }),
                            ]),
                        }),
                        double_literal(0.9),
                    ]),
                }),
            }),
            obligation_expressions: None,
            advice_expressions: None,
        }],
        obligation_expressions: None,
        advice_expressions: None,
    }
}

fn ls_subject_designator(id: &str) -> ExpressionType {
    ExpressionType::AttributeDesignator(AttributeDesignatorType {
        attribute_id: AttributeIdentifiers::Other(id.to_string()),
        data_type: DataType::Double,
        category: Categories::Other("subject".to_string()),
        must_be_present: true,
        issuer: None,
    })
}

fn ls_create_request() -> RequestType {
    create_request_with_attributes(vec![AttributesType {
        category: Categories::Other("subject".to_string()),
        xml_id: None,
        content: None,
        attribute: Some(vec![
            AttributeType {
                attribute_id: AttributeIdentifiers::Other("object.belief".to_string()),
                include_in_result: false,
                issuer: None,
                attribute_value: vec![AttributeValueType {
                    data_type: DataType::Double,
                    value: double(0.1),
                }],
            },
            AttributeType {
                attribute_id: AttributeIdentifiers::Other("object.uncertainty".to_string()),
                include_in_result: false,
                issuer: None,
                attribute_value: vec![AttributeValueType {
                    data_type: DataType::Double,
                    value: double(0.2),
                }],
            },
            AttributeType {
                attribute_id: AttributeIdentifiers::Other("object.baserate".to_string()),
                include_in_result: false,
                issuer: None,
                attribute_value: vec![AttributeValueType {
                    data_type: DataType::Double,
                    value: double(1.0),
                }],
            },
        ]),
    }])
}

#[test]
fn ls_policies_evaluate_policy() {
    let policy = ls_create_policy();
    let request = ls_create_request();
    let result = policy.evaluate_policy(&request).unwrap();
    println!("{:?}", result);
}

/// An unimplemented rule-combining algorithm fails the whole evaluation.
#[test]
fn unimplemented_combining_algorithm_fails_policy() {
    let mut policy = ls_create_policy();
    policy.rule_combining_alg_id = RuleCombiningAlgorithms::DenyUnlessPermit;
    let request = ls_create_request();
    assert!(policy.evaluate_policy(&request).is_err());
    assert!(decide_request(&request, &policy).is_err());
}

/// The response of a decision carries the ok status code.
#[test]
fn decide_request_response_shape() {
    let policy = ls_create_policy();
    let request = ls_create_request();
    let response = decide_request(&request, &policy).unwrap();
    assert_eq!(response.result.len(), 1);
    assert_eq!(response.result[0].decision, DecisionType::NotApplicable);
    let status = response.result[0].status.as_ref().unwrap();
    assert_eq!(status.status_code.value, "urn:oasis:names:tc:xacml:1.0:status:ok");
}
