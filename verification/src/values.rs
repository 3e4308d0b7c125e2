use vstd::prelude::*;

use crate::errors::{XacmlError, XacmlErrorType};

verus! {

/// XACML attribute data types, a closed set of standardized identifiers
/// (serialized as URIs on the wire).
#[derive(Debug, Clone, Copy, PartialEq, Eq, Structural)]
pub enum DataType {
    String,
    Boolean,
    Integer,
    Double,
    Time,
    Date,
    DateTime,
    AnyURI,
    HexBinary,
    Base64Binary,
    DayTimeDuration,
    YearMonthDuration,
    X500Name,
    RFC822Name,
    IP,
    DNSName,
    XPathExpression,
}

/// The wire identifier of a data type.
pub open spec fn spec_data_type_id(dt: DataType) -> Seq<char> {
    match dt {
        DataType::String => "http://www.w3.org/2001/XMLSchema#string"@,
        DataType::Boolean => "http://www.w3.org/2001/XMLSchema#boolean"@,
        DataType::Integer => "http://www.w3.org/2001/XMLSchema#integer"@,
        DataType::Double => "http://www.w3.org/2001/XMLSchema#double"@,
        DataType::Time => "http://www.w3.org/2001/XMLSchema#time"@,
        DataType::Date => "http://www.w3.org/2001/XMLSchema#date"@,
        DataType::DateTime => "http://www.w3.org/2001/XMLSchema#dateTime"@,
        DataType::AnyURI => "http://www.w3.org/2001/XMLSchema#anyURI"@,
        DataType::HexBinary => "http://www.w3.org/2001/XMLSchema#hexBinary"@,
        DataType::Base64Binary => "http://www.w3.org/2001/XMLSchema#base64Binary"@,
        DataType::DayTimeDuration => "http://www.w3.org/2001/XMLSchema#dayTimeDuration"@,
        DataType::YearMonthDuration => "http://www.w3.org/2001/XMLSchema#yearMonthDuration"@,
        DataType::X500Name => "urn:oasis:names:tc:xacml:1.0:data-type:x500Name"@,
        DataType::RFC822Name => "urn:oasis:names:tc:xacml:1.0:data-type:rfc822Name"@,
        DataType::IP => "urn:oasis:names:tc:xacml:2.0:data-type:ipAddress"@,
        DataType::DNSName => "urn:oasis:names:tc:xacml:2.0:data-type:dnsName"@,
        DataType::XPathExpression => "urn:oasis:names:tc:xacml:3.0:data-type:xpathExpression"@,
    }
}

impl DataType {
    pub fn to_xacml_id(&self) -> (r: &'static str)
        ensures
            r@ == spec_data_type_id(*self),
    {
        match self {
            DataType::String => "http://www.w3.org/2001/XMLSchema#string",
            DataType::Boolean => "http://www.w3.org/2001/XMLSchema#boolean",
            DataType::Integer => "http://www.w3.org/2001/XMLSchema#integer",
            DataType::Double => "http://www.w3.org/2001/XMLSchema#double",
            DataType::Time => "http://www.w3.org/2001/XMLSchema#time",
            DataType::Date => "http://www.w3.org/2001/XMLSchema#date",
            DataType::DateTime => "http://www.w3.org/2001/XMLSchema#dateTime",
            DataType::AnyURI => "http://www.w3.org/2001/XMLSchema#anyURI",
            DataType::HexBinary => "http://www.w3.org/2001/XMLSchema#hexBinary",
            DataType::Base64Binary => "http://www.w3.org/2001/XMLSchema#base64Binary",
            DataType::DayTimeDuration => "http://www.w3.org/2001/XMLSchema#dayTimeDuration",
            DataType::YearMonthDuration => "http://www.w3.org/2001/XMLSchema#yearMonthDuration",
            DataType::X500Name => "urn:oasis:names:tc:xacml:1.0:data-type:x500Name",
            DataType::RFC822Name => "urn:oasis:names:tc:xacml:1.0:data-type:rfc822Name",
            DataType::IP => "urn:oasis:names:tc:xacml:2.0:data-type:ipAddress",
            DataType::DNSName => "urn:oasis:names:tc:xacml:2.0:data-type:dnsName",
            DataType::XPathExpression => "urn:oasis:names:tc:xacml:3.0:data-type:xpathExpression",
        }
    }

    /// Parses a wire identifier back into a data type.
    pub fn from_xacml_id(s: &str) -> (r: Option<DataType>)
        ensures
            r == spec_data_type_from(s@),
    {
        if crate::identifiers::str_eq(s, "http://www.w3.org/2001/XMLSchema#string") {
            Some(DataType::String)
        } else if crate::identifiers::str_eq(s, "http://www.w3.org/2001/XMLSchema#boolean") {
            Some(DataType::Boolean)
        } else if crate::identifiers::str_eq(s, "http://www.w3.org/2001/XMLSchema#integer") {
            Some(DataType::Integer)
        } else if crate::identifiers::str_eq(s, "http://www.w3.org/2001/XMLSchema#double") {
            Some(DataType::Double)
        } else if crate::identifiers::str_eq(s, "http://www.w3.org/2001/XMLSchema#time") {
            Some(DataType::Time)
        } else if crate::identifiers::str_eq(s, "http://www.w3.org/2001/XMLSchema#date") {
            Some(DataType::Date)
        } else if crate::identifiers::str_eq(s, "http://www.w3.org/2001/XMLSchema#dateTime") {
            Some(DataType::DateTime)
        } else if crate::identifiers::str_eq(s, "http://www.w3.org/2001/XMLSchema#anyURI") {
            Some(DataType::AnyURI)
        } else if crate::identifiers::str_eq(s, "http://www.w3.org/2001/XMLSchema#hexBinary") {
            Some(DataType::HexBinary)
        } else if crate::identifiers::str_eq(s, "http://www.w3.org/2001/XMLSchema#base64Binary") {
            Some(DataType::Base64Binary)
        } else if crate::identifiers::str_eq(
            s,
            "http://www.w3.org/2001/XMLSchema#dayTimeDuration",
        ) {
            Some(DataType::DayTimeDuration)
        } else if crate::identifiers::str_eq(
            s,
            "http://www.w3.org/2001/XMLSchema#yearMonthDuration",
        ) {
            Some(DataType::YearMonthDuration)
        } else if crate::identifiers::str_eq(s, "urn:oasis:names:tc:xacml:1.0:data-type:x500Name") {
            Some(DataType::X500Name)
        } else if crate::identifiers::str_eq(
            s,
            "urn:oasis:names:tc:xacml:1.0:data-type:rfc822Name",
        ) {
            Some(DataType::RFC822Name)
        } else if crate::identifiers::str_eq(s, "urn:oasis:names:tc:xacml:2.0:data-type:ipAddress") {
            Some(DataType::IP)
        } else if crate::identifiers::str_eq(s, "urn:oasis:names:tc:xacml:2.0:data-type:dnsName") {
            Some(DataType::DNSName)
        } else if crate::identifiers::str_eq(
            s,
            "urn:oasis:names:tc:xacml:3.0:data-type:xpathExpression",
        ) {
            Some(DataType::XPathExpression)
        } else {
            None
        }
    }
}

/// The data type, if any, whose wire identifier is `v`.
pub open spec fn spec_data_type_from(v: Seq<char>) -> Option<DataType> {
    if v == "http://www.w3.org/2001/XMLSchema#string"@ {
        Some(DataType::String)
    } else if v == "http://www.w3.org/2001/XMLSchema#boolean"@ {
        Some(DataType::Boolean)
    } else if v == "http://www.w3.org/2001/XMLSchema#integer"@ {
        Some(DataType::Integer)
    } else if v == "http://www.w3.org/2001/XMLSchema#double"@ {
        Some(DataType::Double)
    } else if v == "http://www.w3.org/2001/XMLSchema#time"@ {
        Some(DataType::Time)
    } else if v == "http://www.w3.org/2001/XMLSchema#date"@ {
        Some(DataType::Date)
    } else if v == "http://www.w3.org/2001/XMLSchema#dateTime"@ {
        Some(DataType::DateTime)
    } else if v == "http://www.w3.org/2001/XMLSchema#anyURI"@ {
        Some(DataType::AnyURI)
    } else if v == "http://www.w3.org/2001/XMLSchema#hexBinary"@ {
        Some(DataType::HexBinary)
    } else if v == "http://www.w3.org/2001/XMLSchema#base64Binary"@ {
        Some(DataType::Base64Binary)
    } else if v == "http://www.w3.org/2001/XMLSchema#dayTimeDuration"@ {
        Some(DataType::DayTimeDuration)
    } else if v == "http://www.w3.org/2001/XMLSchema#yearMonthDuration"@ {
        Some(DataType::YearMonthDuration)
    } else if v == "urn:oasis:names:tc:xacml:1.0:data-type:x500Name"@ {
        Some(DataType::X500Name)
    } else if v == "urn:oasis:names:tc:xacml:1.0:data-type:rfc822Name"@ {
        Some(DataType::RFC822Name)
    } else if v == "urn:oasis:names:tc:xacml:2.0:data-type:ipAddress"@ {
        Some(DataType::IP)
    } else if v == "urn:oasis:names:tc:xacml:2.0:data-type:dnsName"@ {
        Some(DataType::DNSName)
    } else if v == "urn:oasis:names:tc:xacml:3.0:data-type:xpathExpression"@ {
        Some(DataType::XPathExpression)
    } else {
        None
    }
}

impl core::str::FromStr for DataType {
    type Err = ();

    fn from_str(s: &str) -> Result<Self, Self::Err> {
        match DataType::from_xacml_id(s) {
            Some(dt) => Ok(dt),
            None => Err(()),
        }
    }
}

/// A primitive attribute value.
///
/// `Double` holds the IEEE-754 bit pattern of the 64-bit floating-point
/// value, so structural equality of two `Double`s is bit-pattern equality,
/// never arithmetic equality. `Indeterminate` is the sentinel produced when a
/// required attribute is absent; it is not a parseable literal.
#[derive(Debug, Eq)]
pub enum Value {
    Boolean(bool),
    Integer(i64),
    Double(u64),
    String(String),
    Date(String),
    Time(String),
    DateTime(String),
    AnyURI(String),
    Indeterminate,
}

/// Structural equality of two values: same variant and, per variant, equal
/// payload; string payloads compare character by character, `Double` payloads
/// compare by bit pattern.
pub open spec fn spec_value_eq(a: Value, b: Value) -> bool {
    match (a, b) {
        (Value::Boolean(x), Value::Boolean(y)) => x == y,
        (Value::Integer(x), Value::Integer(y)) => x == y,
        (Value::Double(x), Value::Double(y)) => x == y,
        (Value::String(x), Value::String(y)) => x@ == y@,
        (Value::Date(x), Value::Date(y)) => x@ == y@,
        (Value::Time(x), Value::Time(y)) => x@ == y@,
        (Value::DateTime(x), Value::DateTime(y)) => x@ == y@,
        (Value::AnyURI(x), Value::AnyURI(y)) => x@ == y@,
        (Value::Indeterminate, Value::Indeterminate) => true,
        _ => false,
    }
}

impl vstd::std_specs::cmp::PartialEqSpecImpl for Value {
    open spec fn obeys_eq_spec() -> bool {
        true
    }

    open spec fn eq_spec(&self, other: &Value) -> bool {
        spec_value_eq(*self, *other)
    }
}

impl PartialEq for Value {
    fn eq(&self, other: &Self) -> (r: bool) {
        match (self, other) {
            (Value::Boolean(x), Value::Boolean(y)) => *x == *y,
            (Value::Integer(x), Value::Integer(y)) => *x == *y,
            (Value::Double(x), Value::Double(y)) => *x == *y,
            (Value::String(x), Value::String(y)) => *x == *y,
            (Value::Date(x), Value::Date(y)) => *x == *y,
            (Value::Time(x), Value::Time(y)) => *x == *y,
            (Value::DateTime(x), Value::DateTime(y)) => *x == *y,
            (Value::AnyURI(x), Value::AnyURI(y)) => *x == *y,
            (Value::Indeterminate, Value::Indeterminate) => true,
            _ => false,
        }
    }
}

impl Clone for Value {
    fn clone(&self) -> (r: Self)
        ensures
            r == *self,
    {
        match self {
            Value::Boolean(x) => Value::Boolean(*x),
            Value::Integer(x) => Value::Integer(*x),
            Value::Double(x) => Value::Double(*x),
            Value::String(x) => Value::String(x.clone()),
            Value::Date(x) => Value::Date(x.clone()),
            Value::Time(x) => Value::Time(x.clone()),
            Value::DateTime(x) => Value::DateTime(x.clone()),
            Value::AnyURI(x) => Value::AnyURI(x.clone()),
            Value::Indeterminate => Value::Indeterminate,
        }
    }
}

/// A literal attribute value together with its declared data type tag.
#[derive(Debug, PartialEq, Eq)]
pub struct AttributeValueType {
    pub data_type: DataType,
    pub value: Value,
}

impl Clone for AttributeValueType {
    fn clone(&self) -> (r: Self)
        ensures
            r == *self,
    {
        AttributeValueType { data_type: self.data_type, value: self.value.clone() }
    }
}

impl AttributeValueType {
    /// The held value, cloned out of the literal.
    pub fn get_value(&self) -> (r: Result<Value, XacmlError>)
        ensures
            r == Ok::<Value, XacmlError>(self.value),
    {
        Ok(self.value.clone())
    }

    /// Whether the declared data type tag equals `data_type`.
    pub fn match_data_type(&self, data_type: &DataType) -> (r: bool)
        ensures
            r == (self.data_type == *data_type),
    {
        self.data_type == *data_type
    }
}

} // verus!
