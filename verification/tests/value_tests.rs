use xacml_rs::errors::{XacmlError, XacmlErrorType};
use xacml_rs::request::{RequestType, UnimplementedField};
use xacml_rs::values::{AttributeValueType, DataType, Value};

fn empty_request() -> RequestType {
    RequestType {
        return_policy_id_list: false,
        combined_decision: false,
        request_defaults: None,
        attributes: vec![],
        multi_requests: UnimplementedField(None),
    }
}

#[test]
fn test_attribute_value_type() {
    let attribute_value = AttributeValueType {
        data_type: DataType::String,
        value: Value::String("test".to_string()),
    };
    let second_attribute_value = AttributeValueType {
        data_type: DataType::String,
        value: Value::String("test".to_string()),
    };
    assert_eq!(attribute_value.data_type, DataType::String);
    assert_eq!(attribute_value.value, Value::String("test".to_string()));
    assert_eq!(second_attribute_value, attribute_value);
}

#[test]
fn test_attribute_value_type_get_value() {
    let attribute_value = AttributeValueType {
        data_type: DataType::String,
        value: Value::String("test".to_string()),
    };
    let value = attribute_value.get_value().unwrap();
    assert_eq!(value, Value::String("test".to_string()));
}

#[test]
fn test_attribute_value_type_evaluate() {
    let attribute_value = AttributeValueType {
        data_type: DataType::String,
        value: Value::String("test".to_string()),
    };
    let request = empty_request();
    let values = attribute_value.evaluate(&request).unwrap();
    assert_eq!(values.len(), 1);
    assert_eq!(values[0], Value::String("test".to_string()));
}

/// Structural equality of values is per variant; doubles compare by bit
/// pattern, so the two IEEE-754 zeroes differ while equal bit patterns are
/// equal.
#[test]
fn value_equality_is_bitwise_for_doubles() {
    let pos_zero = Value::Double(0.0f64.to_bits());
    let neg_zero = Value::Double((-0.0f64).to_bits());
    assert_ne!(pos_zero, neg_zero);
    assert_eq!(pos_zero, Value::Double(0.0f64.to_bits()));
    let nan1 = Value::Double(f64::NAN.to_bits());
    let nan2 = Value::Double(f64::NAN.to_bits());
    assert_eq!(nan1, nan2);
    assert_ne!(Value::Integer(1), Value::Boolean(true));
    assert_eq!(Value::Indeterminate, Value::Indeterminate);
    assert_ne!(
        Value::String("a".to_string()),
        Value::AnyURI("a".to_string())
    );
}

#[test]
fn data_type_wire_identifiers_round_trip() {
    let ids = vec![
        DataType::String,
        DataType::Boolean,
        DataType::Integer,
        DataType::Double,
        DataType::Time,
        DataType::Date,
        DataType::DateTime,
        DataType::AnyURI,
        DataType::HexBinary,
        DataType::Base64Binary,
        DataType::DayTimeDuration,
        DataType::YearMonthDuration,
        DataType::X500Name,
        DataType::RFC822Name,
        DataType::IP,
        DataType::DNSName,
        DataType::XPathExpression,
    ];
    for dt in ids {
        assert_eq!(DataType::from_xacml_id(dt.to_xacml_id()), Some(dt));
    }
    assert_eq!(DataType::from_xacml_id("not-a-data-type"), None);
}

#[test]
fn xacml_error_carries_kind_and_message() {
    let e = XacmlError::new(XacmlErrorType::ProcessingError, "arity".to_string());
    assert_eq!(e.kind(), XacmlErrorType::ProcessingError);
    assert_eq!(e.message, "arity");
    assert_eq!(e.error_type, XacmlErrorType::ProcessingError);
}

#[test]
fn unimplemented_field_is_none() {
    assert!(UnimplementedField(None).is_none());
    assert!(!UnimplementedField(Some("x".to_string())).is_none());
}
