use xacml_rs::functions::FunctionId;
use xacml_rs::identifiers::{AttributeIdentifiers, Categories};
use xacml_rs::request::{
    AttributeDesignatorType, AttributeType, AttributesType, RequestType, UnimplementedField,
};
use xacml_rs::target::{AllOfType, AnyOfType, MatchType, TargetResult, TargetType};
use xacml_rs::values::{AttributeValueType, DataType, Value};

fn double(x: f64) -> Value {
    Value::Double(x.to_bits())
}

fn simple_request(category: Categories, id: &str, av: AttributeValueType) -> RequestType {
    RequestType {
        return_policy_id_list: false,
        combined_decision: false,
        request_defaults: None,
        attributes: vec![AttributesType {
            category,
            xml_id: None,
            content: None,
            attribute: Some(vec![AttributeType {
                attribute_id: AttributeIdentifiers::Other(id.to_string()),
                include_in_result: false,
                issuer: None,
                attribute_value: vec![av],
            }]),
        }],
        multi_requests: UnimplementedField(None),
    }
}

fn designator(
    id: &str,
    category: Categories,
    data_type: DataType,
    must_be_present: bool,
) -> AttributeDesignatorType {
    AttributeDesignatorType {
        attribute_id: AttributeIdentifiers::Other(id.to_string()),
        data_type,
        category,
        must_be_present,
        issuer: None,
    }
}

fn match_with_designator(
    match_id: FunctionId,
    literal: AttributeValueType,
    d: AttributeDesignatorType,
) -> MatchType {
    MatchType {
        match_id,
        attribute_value: literal,
        attribute_designator: Some(d),
        attribute_selector: None,
    }
}

#[test]
fn match_request_test() {
    let test_category = || Categories::Other("TestCategory".to_string());
    let request1 = simple_request(
        test_category(),
        "Test-ID",
        AttributeValueType { data_type: DataType::Integer, value: Value::Integer(23) },
    );
    let request2 = simple_request(
        test_category(),
        "Test-ID",
        AttributeValueType { data_type: DataType::Integer, value: Value::Integer(21) },
    );
    let request3 = simple_request(
        test_category(),
        "Wrong-ID",
        AttributeValueType { data_type: DataType::Integer, value: Value::Integer(23) },
    );
    let request4 = simple_request(
        Categories::Other("WrongCategory".to_string()),
        "Test-ID",
        AttributeValueType { data_type: DataType::Integer, value: Value::Integer(23) },
    );
    let request5 = simple_request(
        test_category(),
        "Test-ID",
        AttributeValueType { data_type: DataType::Integer, value: double(23.0) },
    );
    let match_type = match_with_designator(
        FunctionId::IntegerEqual,
        AttributeValueType { data_type: DataType::Integer, value: Value::Integer(23) },
        designator("Test-ID", test_category(), DataType::Integer, true),
    );

    assert_eq!(match_type.match_request(&request1).unwrap(), TargetResult::Match);
    // Only wrong evaluation
    assert_eq!(match_type.match_request(&request2).unwrap(), TargetResult::NoMatch);
    // Designator is required but nothing matches its id: the sentinel makes
    // the match indeterminate
    assert_eq!(
        match_type.match_request(&request3).unwrap(),
        TargetResult::Indeterminate
    );
    // Designator is required but nothing matches its category: likewise
    assert_eq!(
        match_type.match_request(&request4).unwrap(),
        TargetResult::Indeterminate
    );
    // Wrong data type given to function
    assert_eq!(
        match_type.match_request(&request5).unwrap(),
        TargetResult::Indeterminate
    );
}

fn create_request() -> RequestType {
    RequestType {
        return_policy_id_list: false,
        combined_decision: false,
        request_defaults: None,
        attributes: vec![
            AttributesType {
                category: Categories::Action,
                xml_id: None,
                content: None,
                attribute: Some(vec![
                    AttributeType {
                        attribute_id: AttributeIdentifiers::Other("object.belief".to_string()),
                        include_in_result: false,
                        issuer: None,
                        attribute_value: vec![AttributeValueType {
                            data_type: DataType::Double,
                            value: double(0.1),
                        }],
                    },
                    AttributeType {
                        attribute_id: AttributeIdentifiers::Other(
                            "object.uncertainty".to_string(),
                        ),
                        include_in_result: false,
                        issuer: None,
                        attribute_value: vec![AttributeValueType {
                            data_type: DataType::Double,
                            value: double(0.2),
                        }],
                    },
                    AttributeType {
                        attribute_id: AttributeIdentifiers::Other("object.baserate".to_string()),
                        include_in_result: false,
                        issuer: None,
                        attribute_value: vec![AttributeValueType {
                            data_type: DataType::Double,
                            value: double(1.0),
                        }],
                    },
                ]),
            },
            AttributesType {
                category: Categories::Resource,
                xml_id: None,
                content: None,
                attribute: Some(vec![AttributeType {
                    attribute_id: AttributeIdentifiers::Other("request_context".to_string()),
                    include_in_result: false,
                    issuer: None,
                    attribute_value: vec![AttributeValueType {
                        data_type: DataType::String,
                        value: Value::String("vehicle_cam_acceptance".to_string()),
                    }],
                }]),
            },
        ],
        multi_requests: UnimplementedField(None),
    }
}

fn context_match() -> MatchType {
    match_with_designator(
        FunctionId::StringEqual,
        AttributeValueType {
            data_type: DataType::String,
            value: Value::String("vehicle_cam_acceptance".to_string()),
        },
        designator("request_context", Categories::Resource, DataType::String, true),
    )
}

fn belief_match(match_id: FunctionId, literal: f64) -> MatchType {
    match_with_designator(
        match_id,
        AttributeValueType { data_type: DataType::Double, value: double(literal) },
        designator("object.belief", Categories::Action, DataType::Double, true),
    )
}

fn create_target_1() -> TargetType {
    TargetType {
        any_of: Some(vec![AnyOfType { all_of: vec![AllOfType { _match: vec![context_match()] }] }]),
    }
}

fn create_target_2() -> TargetType {
    TargetType {
        any_of: Some(vec![AnyOfType {
            all_of: vec![AllOfType {
                _match: vec![context_match(), belief_match(FunctionId::DoubleEqual, 0.2)],
            }],
        }]),
    }
}

fn create_target_3() -> TargetType {
    TargetType {
        any_of: Some(vec![AnyOfType {
            all_of: vec![AllOfType {
                _match: vec![context_match(), belief_match(FunctionId::StringEqual, 0.2)],
            }],
        }]),
    }
}

fn create_target_4() -> TargetType {
    TargetType {
        any_of: Some(vec![
            AnyOfType {
                all_of: vec![AllOfType {
                    _match: vec![belief_match(FunctionId::DoubleEqual, 0.5)],
                }],
            },
            AnyOfType { all_of: vec![AllOfType { _match: vec![context_match()] }] },
        ]),
    }
}

fn create_target_5() -> TargetType {
    TargetType {
        any_of: Some(vec![AnyOfType {
            all_of: vec![
                AllOfType { _match: vec![belief_match(FunctionId::DoubleEqual, 0.5)] },
                AllOfType { _match: vec![context_match()] },
            ],
        }]),
    }
}

#[test]
fn test_target_type_match_request() {
    let target = create_target_1();
    assert_eq!(target.match_request(&create_request()).unwrap(), TargetResult::Match);
}

/// Two contradicting match elements in AllOf type -> NoMatch
#[test]
fn test_target_type_match_request_no_match() {
    let target = create_target_2();
    assert_eq!(target.match_request(&create_request()).unwrap(), TargetResult::NoMatch);
}

// Wrong function ID used (StringEqual with two Double values)
#[test]
fn test_target_type_match_request_indeterminate() {
    let target = create_target_3();
    assert_eq!(
        target.match_request(&create_request()).unwrap(),
        TargetResult::Indeterminate
    );
}

/// In this test a target type has two AnyOf types, one matches one not.
/// The target's result shall be NoMatch.
#[test]
fn test_target_type_match_request_contradicting_anyof_elements() {
    let target = create_target_4();
    assert_eq!(target.match_request(&create_request()).unwrap(), TargetResult::NoMatch);
}

/// In this test an AnyOf type has two AllOf elements, one matches one not.
/// The target's result shall be Match.
#[test]
fn test_target_type_match_request_contradicting_allof_elements() {
    let target = create_target_5();
    assert_eq!(target.match_request(&create_request()).unwrap(), TargetResult::Match);
}

/// A target with an absent or an empty AnyOf list matches any request.
#[test]
fn empty_target_always_matches() {
    let absent = TargetType { any_of: None };
    let empty = TargetType { any_of: Some(vec![]) };
    assert_eq!(absent.match_request(&create_request()).unwrap(), TargetResult::Match);
    assert_eq!(empty.match_request(&create_request()).unwrap(), TargetResult::Match);
    let bare = RequestType {
        return_policy_id_list: false,
        combined_decision: false,
        request_defaults: None,
        attributes: vec![],
        multi_requests: UnimplementedField(None),
    };
    assert_eq!(absent.match_request(&bare).unwrap(), TargetResult::Match);
    assert_eq!(empty.match_request(&bare).unwrap(), TargetResult::Match);
}

/// Disjunction laws of AnyOf: all NoMatch children give NoMatch, one Match
/// child gives Match.
#[test]
fn anyof_disjunction_laws() {
    let request = create_request();
    let no1 = AllOfType { _match: vec![belief_match(FunctionId::DoubleEqual, 0.5)] };
    let no2 = AllOfType { _match: vec![belief_match(FunctionId::DoubleEqual, 0.9)] };
    let yes = AllOfType { _match: vec![context_match()] };
    let all_no = AnyOfType { all_of: vec![no1, no2] };
    assert_eq!(all_no.match_request(&request).unwrap(), TargetResult::NoMatch);
    let one_yes = AnyOfType {
        all_of: vec![
            AllOfType { _match: vec![belief_match(FunctionId::DoubleEqual, 0.5)] },
            yes,
        ],
    };
    assert_eq!(one_yes.match_request(&request).unwrap(), TargetResult::Match);
}

/// A required designator against a request holding no matching attribute
/// resolves to the sentinel, the match element becomes Indeterminate, and a
/// single-AnyOf/single-AllOf target around it becomes Indeterminate too.
#[test]
fn required_missing_attribute_boundary() {
    let request = create_request();
    let d = designator("object.missing", Categories::Action, DataType::Double, true);
    assert_eq!(d.evaluate(&request).unwrap(), vec![Value::Indeterminate]);
    let m = match_with_designator(
        FunctionId::DoubleEqual,
        AttributeValueType { data_type: DataType::Double, value: double(0.5) },
        designator("object.missing", Categories::Action, DataType::Double, true),
    );
    assert_eq!(m.match_request(&request).unwrap(), TargetResult::Indeterminate);
    let target = TargetType {
        any_of: Some(vec![AnyOfType {
            all_of: vec![AllOfType {
                _match: vec![match_with_designator(
                    FunctionId::DoubleEqual,
                    AttributeValueType { data_type: DataType::Double, value: double(0.5) },
                    designator("object.missing", Categories::Action, DataType::Double, true),
                )],
            }],
        }]),
    };
    assert_eq!(target.match_request(&request).unwrap(), TargetResult::Indeterminate);
}

/// A designator whose data type matches no held value resolves to an empty
/// bag, and an empty bag is NoMatch — never Indeterminate — when the value
/// is not required.
#[test]
fn wrong_datatype_empty_bag_is_no_match() {
    let request = simple_request(
        Categories::Resource,
        "measurement",
        AttributeValueType { data_type: DataType::Integer, value: Value::Integer(23) },
    );
    let m = match_with_designator(
        FunctionId::DoubleEqual,
        AttributeValueType { data_type: DataType::Double, value: double(23.0) },
        designator("measurement", Categories::Resource, DataType::Double, false),
    );
    assert_eq!(m.match_request(&request).unwrap(), TargetResult::NoMatch);
}

/// A match element holding both or neither attribute reference is a
/// structural fault, not an Indeterminate outcome.
#[test]
fn malformed_match_is_format_error() {
    let request = create_request();
    let neither = MatchType {
        match_id: FunctionId::StringEqual,
        attribute_value: AttributeValueType {
            data_type: DataType::String,
            value: Value::String("x".to_string()),
        },
        attribute_designator: None,
        attribute_selector: None,
    };
    assert!(neither.match_request(&request).is_err());
}

/// An AllOf or AnyOf without children is a structural fault.
#[test]
fn empty_allof_anyof_are_format_errors() {
    let request = create_request();
    let empty_allof = AllOfType { _match: vec![] };
    assert!(empty_allof.match_request(&request).is_err());
    let empty_anyof = AnyOfType { all_of: vec![] };
    assert!(empty_anyof.match_request(&request).is_err());
}
