use std::str::FromStr;

use xacml_rs::identifiers::{create_urn, AttributeIdentifiers, Categories};

fn create_attribute_identifiers_vec() -> Vec<AttributeIdentifiers> {
    vec![
        AttributeIdentifiers::DnsName,
        AttributeIdentifiers::IpAddress,
        AttributeIdentifiers::AuthenticationMethod,
        AttributeIdentifiers::AuthenticationTime,
        AttributeIdentifiers::KeyInfo,
        AttributeIdentifiers::RequestTime,
        AttributeIdentifiers::SessionStartTime,
        AttributeIdentifiers::SubjectId,
        AttributeIdentifiers::SubjectIdQualifier,
        AttributeIdentifiers::ResourceLocation,
        AttributeIdentifiers::ResourceId,
        AttributeIdentifiers::ResourceSimpleFileName,
        AttributeIdentifiers::ActionId,
        AttributeIdentifiers::ImpliedAction,
        AttributeIdentifiers::Other("Other Identifier".to_string()),
        AttributeIdentifiers::TrusteeBelief,
    ]
}

fn create_attribute_id_vec() -> Vec<String> {
    vec![
        "urn:oasis:names:tc:xacml:1.0:subject:authn-locality:dns-name".to_string(),
        "urn:oasis:names:tc:xacml:1.0:subject:authn-locality:ip-address".to_string(),
        "urn:oasis:names:tc:xacml:1.0:subject:authentication-method".to_string(),
        "urn:oasis:names:tc:xacml:1.0:subject:authentication-time".to_string(),
        "urn:oasis:names:tc:xacml:1.0:subject:key-info".to_string(),
        "urn:oasis:names:tc:xacml:1.0:subject:request-time".to_string(),
        "urn:oasis:names:tc:xacml:1.0:subject:session-start-time".to_string(),
        "urn:oasis:names:tc:xacml:1.0:subject:subject-id".to_string(),
        "urn:oasis:names:tc:xacml:1.0:subject:subject-id-qualifier".to_string(),
        "urn:oasis:names:tc:xacml:1.0:resource:resource-location".to_string(),
        "urn:oasis:names:tc:xacml:1.0:resource:resource-id".to_string(),
        "urn:oasis:names:tc:xacml:1.0:resource:simple-file-name".to_string(),
        "urn:oasis:names:tc:xacml:1.0:action:action-id".to_string(),
        "urn:oasis:names:tc:xacml:1.0:action:implied-action".to_string(),
        "Other Identifier".to_string(),
        "urn:example.com:xacml:attribute:trustee:belief".to_string(),
    ]
}

#[test]
fn test_attribute_identifier_serialize() {
    let identifiers = create_attribute_identifiers_vec();
    let id_str = identifiers
        .iter()
        .map(|c| c.to_xacml_id())
        .collect::<Vec<String>>();
    assert_eq!(id_str, create_attribute_id_vec());
}

#[test]
fn test_attribute_identifier_deserialization() {
    let id_str = create_attribute_id_vec();
    let identifiers = id_str
        .iter()
        .map(|s| AttributeIdentifiers::from_str(s).unwrap())
        .collect::<Vec<AttributeIdentifiers>>();
    assert_eq!(identifiers, create_attribute_identifiers_vec());
}

fn create_categories_vec() -> Vec<Categories> {
    vec![
        Categories::Resource,
        Categories::Action,
        Categories::Environment,
        Categories::Other("Other Category".to_string()),
    ]
}

fn create_id_vec() -> Vec<String> {
    vec![
        "urn:oasis:names:tc:xacml:3.0:attribute-category:resource".to_string(),
        "urn:oasis:names:tc:xacml:3.0:attribute-category:action".to_string(),
        "urn:oasis:names:tc:xacml:3.0:attribute-category:environment".to_string(),
        "Other Category".to_string(),
    ]
}

#[test]
fn test_category_serialize() {
    let categories = create_categories_vec();
    let id_str = categories
        .iter()
        .map(|c| c.to_xacml_id())
        .collect::<Vec<&str>>();
    assert_eq!(id_str, create_id_vec());
}

#[test]
fn test_category_deserialization() {
    let id_str = create_id_vec();
    let categories = id_str
        .iter()
        .map(|s| Categories::from_str(s).unwrap())
        .collect::<Vec<Categories>>();
    assert_eq!(categories, create_categories_vec());
}

#[test]
fn test_create_urn_shape() {
    assert_eq!(
        create_urn("attribute:object:belief"),
        "urn:example.com:xacml:attribute:object:belief"
    );
}
