use xacml_rs::identifiers::{AttributeIdentifiers, Categories};
use xacml_rs::request::{
    AttributeDesignatorType, AttributeType, AttributesType, RequestType, UnimplementedField,
};
use xacml_rs::values::{AttributeValueType, DataType, Value};

fn attribute_value(data_type: DataType, value: Value) -> AttributeValueType {
    AttributeValueType { data_type, value }
}

fn attribute(
    id: &str,
    issuer: Option<&str>,
    values: Vec<AttributeValueType>,
) -> AttributeType {
    AttributeType {
        attribute_id: AttributeIdentifiers::Other(id.to_string()),
        include_in_result: true,
        issuer: issuer.map(|s| s.to_string()),
        attribute_value: values,
    }
}

fn designator(
    id: &str,
    category: Categories,
    data_type: DataType,
    must_be_present: bool,
    issuer: Option<&str>,
) -> AttributeDesignatorType {
    AttributeDesignatorType {
        attribute_id: AttributeIdentifiers::Other(id.to_string()),
        data_type,
        category,
        must_be_present,
        issuer: issuer.map(|s| s.to_string()),
    }
}

#[test]
fn request_type_builder_test() {
    let request = RequestType {
        return_policy_id_list: false,
        combined_decision: false,
        request_defaults: None,
        attributes: vec![],
        multi_requests: UnimplementedField(None),
    };
    assert_eq!(request.return_policy_id_list, false);
    assert_eq!(request.combined_decision, false);
    assert_eq!(request.attributes, vec![]);
}

#[test]
fn get_attribute_values_by_designator_test() {
    let d = designator("Test-ID", Categories::Resource, DataType::Boolean, true, None);
    let a = attribute(
        "Test-ID",
        None,
        vec![attribute_value(DataType::Boolean, Value::Boolean(true))],
    );
    assert_eq!(
        a.get_values_by_designator(&d).unwrap(),
        vec![Value::Boolean(true)]
    );
    assert_eq!(
        a.get_attribute_values_by_designator(&d).unwrap(),
        vec![attribute_value(DataType::Boolean, Value::Boolean(true))]
    );
    assert_ne!(
        a.get_values_by_designator(&d).unwrap(),
        vec![Value::Boolean(false)]
    );
    assert_ne!(
        a.get_values_by_designator(&d).unwrap(),
        vec![Value::Integer(23)]
    );
    assert_ne!(
        a.get_attribute_values_by_designator(&d).unwrap(),
        vec![attribute_value(DataType::String, Value::Boolean(true))]
    );
}

#[test]
fn get_attribute_values_by_designator_empty_test() {
    let designator1 = designator(
        "Not Test-ID",
        Categories::Resource,
        DataType::Boolean,
        true,
        None,
    );
    let designator2 = designator(
        "Test-ID",
        Categories::Resource,
        DataType::Boolean,
        true,
        Some("test_issuer"),
    );
    let designator3 = designator("Test-ID", Categories::Resource, DataType::Integer, true, None);
    let a = attribute(
        "Test-ID",
        None,
        vec![attribute_value(DataType::Boolean, Value::Boolean(true))],
    );
    let a2 = attribute(
        "Test-ID",
        Some("test_issuer"),
        vec![attribute_value(DataType::Boolean, Value::Boolean(true))],
    );
    assert_eq!(a.get_values_by_designator(&designator1).unwrap(), vec![]);
    assert_eq!(a.get_values_by_designator(&designator2).unwrap(), vec![]);
    assert_eq!(a.get_values_by_designator(&designator3).unwrap(), vec![]);
    assert_eq!(a2.get_values_by_designator(&designator1).unwrap(), vec![]);
    assert_eq!(
        a2.get_values_by_designator(&designator2).unwrap(),
        vec![Value::Boolean(true)]
    );
    assert_eq!(a2.get_values_by_designator(&designator3).unwrap(), vec![]);
}

#[test]
fn get_value_by_selector_test() {
    let designator1 = designator(
        "Test-ID",
        Categories::Other("Test-Category".to_string()),
        DataType::Boolean,
        true,
        None,
    );
    let designator2 = designator(
        "Test-ID",
        Categories::Other("Test-Category".to_string()),
        DataType::Integer,
        true,
        None,
    );
    let designator3 = designator(
        "Test-ID",
        Categories::Other("Test-Category".to_string()),
        DataType::Double,
        true,
        None,
    );
    let designator4 = designator(
        "Test-ID",
        Categories::Other("Test-Category".to_string()),
        DataType::Double,
        true,
        Some("Test-Issuer"),
    );
    let attributes = AttributesType {
        category: Categories::Other("Test-Category".to_string()),
        xml_id: None,
        content: None,
        attribute: Some(vec![attribute(
            "Test-ID",
            None,
            vec![
                attribute_value(DataType::Boolean, Value::Boolean(true)),
                attribute_value(DataType::Integer, Value::Integer(23)),
            ],
        )]),
    };
    assert_eq!(
        attributes.get_values_by_designator(&designator1).unwrap(),
        vec![Value::Boolean(true)]
    );
    assert_eq!(
        attributes.get_values_by_designator(&designator2).unwrap(),
        vec![Value::Integer(23)]
    );
    assert_eq!(attributes.get_values_by_designator(&designator3).unwrap(), vec![]);
    assert_eq!(attributes.get_values_by_designator(&designator4).unwrap(), vec![]);
}

#[test]
fn attribute_designator_type_evaluate_test() {
    let request = RequestType {
        return_policy_id_list: false,
        combined_decision: false,
        request_defaults: None,
        attributes: vec![AttributesType {
            category: Categories::Resource,
            xml_id: None,
            content: None,
            attribute: Some(vec![AttributeType {
                attribute_id: AttributeIdentifiers::Other("Test-ID".to_string()),
                include_in_result: false,
                issuer: None,
                attribute_value: vec![attribute_value(DataType::Integer, Value::Integer(23))],
            }]),
        }],
        multi_requests: UnimplementedField(None),
    };
    let d = designator("Test-ID", Categories::Resource, DataType::Integer, false, None);
    let result = d.evaluate(&request).unwrap();
    println!("{:?}", result);
    assert_eq!(result, vec![Value::Integer(23)]);
}
