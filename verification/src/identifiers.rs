use vstd::prelude::*;

use vstd::string::StringExecFns;

verus! {

/// Namespace used for custom URNs (attributes, categories, rule and policy
/// identifiers).
pub const URN_NAMESPACE: &'static str = "example.com";

/// The view of the fixed prefix that `create_urn` puts before its argument.
pub open spec fn spec_urn_prefix() -> Seq<char> {
    "urn:"@ + URN_NAMESPACE@ + ":xacml:"@
}

/// Builds a URN-style string `urn:{URN_NAMESPACE}:xacml:{s}`.
pub fn create_urn(s: &str) -> (r: String)
    ensures
        r@ == spec_urn_prefix() + s@,
{
    let r = "urn:".to_owned().concat(URN_NAMESPACE).concat(":xacml:").concat(s);
    proof {
        assert(r@ =~= spec_urn_prefix() + s@);
    }
    r
}

/// Character-by-character comparison of two string slices.
pub fn str_eq(a: &str, b: &str) -> (r: bool)
    ensures
        r == (a@ == b@),
{
    let x: String = a.to_owned();
    let y: String = b.to_owned();
    x == y
}

/// An attribute category: one of the standardized identifiers, or an
/// arbitrary extension URN carried in `Other`.
#[derive(Debug, Eq, Hash)]
pub enum Categories {
    Resource,
    Action,
    Environment,
    AccessSubject,
    SubjectCodebase,
    IntermediarySubject,
    RecipientSubject,
    RequestingMachine,
    Other(String),
}

/// Structural equality of two categories; `Other` payloads compare character
/// by character.
pub open spec fn spec_cat_eq(a: Categories, b: Categories) -> bool {
    match (a, b) {
        (Categories::Resource, Categories::Resource) => true,
        (Categories::Action, Categories::Action) => true,
        (Categories::Environment, Categories::Environment) => true,
        (Categories::AccessSubject, Categories::AccessSubject) => true,
        (Categories::SubjectCodebase, Categories::SubjectCodebase) => true,
        (Categories::IntermediarySubject, Categories::IntermediarySubject) => true,
        (Categories::RecipientSubject, Categories::RecipientSubject) => true,
        (Categories::RequestingMachine, Categories::RequestingMachine) => true,
        (Categories::Other(x), Categories::Other(y)) => x@ == y@,
        _ => false,
    }
}

impl vstd::std_specs::cmp::PartialEqSpecImpl for Categories {
    open spec fn obeys_eq_spec() -> bool {
        true
    }

    open spec fn eq_spec(&self, other: &Categories) -> bool {
        spec_cat_eq(*self, *other)
    }
}

impl PartialEq for Categories {
    fn eq(&self, other: &Self) -> (r: bool) {
        match (self, other) {
            (Categories::Resource, Categories::Resource) => true,
            (Categories::Action, Categories::Action) => true,
            (Categories::Environment, Categories::Environment) => true,
            (Categories::AccessSubject, Categories::AccessSubject) => true,
            (Categories::SubjectCodebase, Categories::SubjectCodebase) => true,
            (Categories::IntermediarySubject, Categories::IntermediarySubject) => true,
            (Categories::RecipientSubject, Categories::RecipientSubject) => true,
            (Categories::RequestingMachine, Categories::RequestingMachine) => true,
            (Categories::Other(x), Categories::Other(y)) => *x == *y,
            _ => false,
        }
    }
}

impl Clone for Categories {
    fn clone(&self) -> (r: Self)
        ensures
            r == *self,
    {
        match self {
            Categories::Resource => Categories::Resource,
            Categories::Action => Categories::Action,
            Categories::Environment => Categories::Environment,
            Categories::AccessSubject => Categories::AccessSubject,
            Categories::SubjectCodebase => Categories::SubjectCodebase,
            Categories::IntermediarySubject => Categories::IntermediarySubject,
            Categories::RecipientSubject => Categories::RecipientSubject,
            Categories::RequestingMachine => Categories::RequestingMachine,
            Categories::Other(s) => Categories::Other(s.clone()),
        }
    }
}

/// The wire identifier of a category.
pub open spec fn spec_category_id(c: Categories) -> Seq<char> {
    match c {
        Categories::Resource => "urn:oasis:names:tc:xacml:3.0:attribute-category:resource"@,
        Categories::Action => "urn:oasis:names:tc:xacml:3.0:attribute-category:action"@,
        Categories::Environment => "urn:oasis:names:tc:xacml:3.0:attribute-category:environment"@,
        Categories::AccessSubject => "urn:oasis:names:tc:xacml:1.0:subject-category:access-subject"@,
        Categories::SubjectCodebase => "urn:oasis:names:tc:xacml:1.0:subject-category:codebase"@,
        Categories::IntermediarySubject => "urn:oasis:names:tc:xacml:1.0:subject-category:intermediary-subject"@,
        Categories::RecipientSubject => "urn:oasis:names:tc:xacml:1.0:subject-category:recipient-subject"@,
        Categories::RequestingMachine => "urn:oasis:names:tc:xacml:1.0:subject-category:requesting-machine"@,
        Categories::Other(s) => s@,
    }
}

impl Categories {
    pub fn to_xacml_id(&self) -> (r: &str)
        ensures
            r@ == spec_category_id(*self),
    {
        match self {
            Categories::Resource => "urn:oasis:names:tc:xacml:3.0:attribute-category:resource",
            Categories::Action => "urn:oasis:names:tc:xacml:3.0:attribute-category:action",
            Categories::Environment => "urn:oasis:names:tc:xacml:3.0:attribute-category:environment",
            Categories::AccessSubject => "urn:oasis:names:tc:xacml:1.0:subject-category:access-subject",
            Categories::SubjectCodebase => "urn:oasis:names:tc:xacml:1.0:subject-category:codebase",
            Categories::IntermediarySubject => "urn:oasis:names:tc:xacml:1.0:subject-category:intermediary-subject",
            Categories::RecipientSubject => "urn:oasis:names:tc:xacml:1.0:subject-category:recipient-subject",
            Categories::RequestingMachine => "urn:oasis:names:tc:xacml:1.0:subject-category:requesting-machine",
            Categories::Other(s) => s.as_str(),
        }
    }

    /// Parses a wire identifier back into a category; an identifier outside
    /// the standardized set becomes `Other`.
    pub fn from_xacml_id(s: &str) -> (r: Categories)
        ensures
            spec_category_from_known(s@) matches Some(c) ==> r == c,
            spec_category_from_known(s@) is None ==> (r matches Categories::Other(t) && t@
                == s@),
    {
        if str_eq(s, "urn:oasis:names:tc:xacml:3.0:attribute-category:resource") {
            Categories::Resource
        } else if str_eq(s, "urn:oasis:names:tc:xacml:3.0:attribute-category:action") {
            Categories::Action
        } else if str_eq(s, "urn:oasis:names:tc:xacml:3.0:attribute-category:environment") {
            Categories::Environment
        } else if str_eq(s, "urn:oasis:names:tc:xacml:1.0:subject-category:access-subject") {
            Categories::AccessSubject
        } else if str_eq(s, "urn:oasis:names:tc:xacml:1.0:subject-category:codebase") {
            Categories::SubjectCodebase
        } else if str_eq(s, "urn:oasis:names:tc:xacml:1.0:subject-category:intermediary-subject") {
            Categories::IntermediarySubject
        } else if str_eq(s, "urn:oasis:names:tc:xacml:1.0:subject-category:recipient-subject") {
            Categories::RecipientSubject
        } else if str_eq(s, "urn:oasis:names:tc:xacml:1.0:subject-category:requesting-machine") {
            Categories::RequestingMachine
        } else {
            Categories::Other(s.to_owned())
        }
    }
}

/// The category, if any, whose wire identifier is `v`.
pub open spec fn spec_category_from_known(v: Seq<char>) -> Option<Categories> {
    if v == "urn:oasis:names:tc:xacml:3.0:attribute-category:resource"@ {
        Some(Categories::Resource)
    } else if v == "urn:oasis:names:tc:xacml:3.0:attribute-category:action"@ {
        Some(Categories::Action)
    } else if v == "urn:oasis:names:tc:xacml:3.0:attribute-category:environment"@ {
        Some(Categories::Environment)
    } else if v == "urn:oasis:names:tc:xacml:1.0:subject-category:access-subject"@ {
        Some(Categories::AccessSubject)
    } else if v == "urn:oasis:names:tc:xacml:1.0:subject-category:codebase"@ {
        Some(Categories::SubjectCodebase)
    } else if v == "urn:oasis:names:tc:xacml:1.0:subject-category:intermediary-subject"@ {
        Some(Categories::IntermediarySubject)
    } else if v == "urn:oasis:names:tc:xacml:1.0:subject-category:recipient-subject"@ {
        Some(Categories::RecipientSubject)
    } else if v == "urn:oasis:names:tc:xacml:1.0:subject-category:requesting-machine"@ {
        Some(Categories::RequestingMachine)
    } else {
        None
    }
}

impl core::str::FromStr for Categories {
    type Err = ();

    fn from_str(s: &str) -> Result<Self, Self::Err> {
        Ok(Categories::from_xacml_id(s))
    }
}

/// An attribute identifier: one of the standardized identifiers of XACML's
/// appendix, a custom identifier of this library's own namespace, or an
/// arbitrary extension URN carried in `Other`.
#[derive(Debug, Eq, Hash)]
pub enum AttributeIdentifiers {
    DnsName,
    IpAddress,
    AuthenticationMethod,
    AuthenticationTime,
    KeyInfo,
    RequestTime,
    SessionStartTime,
    SubjectId,
    SubjectIdQualifier,
    ResourceLocation,
    ResourceId,
    ResourceSimpleFileName,
    ActionId,
    ImpliedAction,
    Other(String),
    TrusteeBelief,
}

/// Structural equality of two attribute identifiers; `Other` payloads
/// compare character by character.
pub open spec fn spec_attr_id_eq(a: AttributeIdentifiers, b: AttributeIdentifiers) -> bool {
    match (a, b) {
        (AttributeIdentifiers::DnsName, AttributeIdentifiers::DnsName) => true,
        (AttributeIdentifiers::IpAddress, AttributeIdentifiers::IpAddress) => true,
        (
            AttributeIdentifiers::AuthenticationMethod,
            AttributeIdentifiers::AuthenticationMethod,
        ) => true,
        (AttributeIdentifiers::AuthenticationTime, AttributeIdentifiers::AuthenticationTime) => true,
        (AttributeIdentifiers::KeyInfo, AttributeIdentifiers::KeyInfo) => true,
        (AttributeIdentifiers::RequestTime, AttributeIdentifiers::RequestTime) => true,
        (AttributeIdentifiers::SessionStartTime, AttributeIdentifiers::SessionStartTime) => true,
        (AttributeIdentifiers::SubjectId, AttributeIdentifiers::SubjectId) => true,
        (AttributeIdentifiers::SubjectIdQualifier, AttributeIdentifiers::SubjectIdQualifier) => true,
        (AttributeIdentifiers::ResourceLocation, AttributeIdentifiers::ResourceLocation) => true,
        (AttributeIdentifiers::ResourceId, AttributeIdentifiers::ResourceId) => true,
        (
            AttributeIdentifiers::ResourceSimpleFileName,
            AttributeIdentifiers::ResourceSimpleFileName,
        ) => true,
        (AttributeIdentifiers::ActionId, AttributeIdentifiers::ActionId) => true,
        (AttributeIdentifiers::ImpliedAction, AttributeIdentifiers::ImpliedAction) => true,
        (AttributeIdentifiers::TrusteeBelief, AttributeIdentifiers::TrusteeBelief) => true,
        (AttributeIdentifiers::Other(x), AttributeIdentifiers::Other(y)) => x@ == y@,
        _ => false,
    }
}

impl vstd::std_specs::cmp::PartialEqSpecImpl for AttributeIdentifiers {
    open spec fn obeys_eq_spec() -> bool {
        true
    }

    open spec fn eq_spec(&self, other: &AttributeIdentifiers) -> bool {
        spec_attr_id_eq(*self, *other)
    }
}

impl PartialEq for AttributeIdentifiers {
    fn eq(&self, other: &Self) -> (r: bool) {
        match (self, other) {
            (AttributeIdentifiers::DnsName, AttributeIdentifiers::DnsName) => true,
            (AttributeIdentifiers::IpAddress, AttributeIdentifiers::IpAddress) => true,
            (
                AttributeIdentifiers::AuthenticationMethod,
                AttributeIdentifiers::AuthenticationMethod,
            ) => true,
            (
                AttributeIdentifiers::AuthenticationTime,
                AttributeIdentifiers::AuthenticationTime,
            ) => true,
            (AttributeIdentifiers::KeyInfo, AttributeIdentifiers::KeyInfo) => true,
            (AttributeIdentifiers::RequestTime, AttributeIdentifiers::RequestTime) => true,
            (AttributeIdentifiers::SessionStartTime, AttributeIdentifiers::SessionStartTime) => true,
            (AttributeIdentifiers::SubjectId, AttributeIdentifiers::SubjectId) => true,
            (
                AttributeIdentifiers::SubjectIdQualifier,
                AttributeIdentifiers::SubjectIdQualifier,
            ) => true,
            (AttributeIdentifiers::ResourceLocation, AttributeIdentifiers::ResourceLocation) => true,
            (AttributeIdentifiers::ResourceId, AttributeIdentifiers::ResourceId) => true,
            (
                AttributeIdentifiers::ResourceSimpleFileName,
                AttributeIdentifiers::ResourceSimpleFileName,
            ) => true,
            (AttributeIdentifiers::ActionId, AttributeIdentifiers::ActionId) => true,
            (AttributeIdentifiers::ImpliedAction, AttributeIdentifiers::ImpliedAction) => true,
            (AttributeIdentifiers::TrusteeBelief, AttributeIdentifiers::TrusteeBelief) => true,
            (AttributeIdentifiers::Other(x), AttributeIdentifiers::Other(y)) => *x == *y,
            _ => false,
        }
    }
}

impl Clone for AttributeIdentifiers {
    fn clone(&self) -> (r: Self)
        ensures
            r == *self,
    {
        match self {
            AttributeIdentifiers::DnsName => AttributeIdentifiers::DnsName,
            AttributeIdentifiers::IpAddress => AttributeIdentifiers::IpAddress,
            AttributeIdentifiers::AuthenticationMethod => AttributeIdentifiers::AuthenticationMethod,
            AttributeIdentifiers::AuthenticationTime => AttributeIdentifiers::AuthenticationTime,
            AttributeIdentifiers::KeyInfo => AttributeIdentifiers::KeyInfo,
            AttributeIdentifiers::RequestTime => AttributeIdentifiers::RequestTime,
            AttributeIdentifiers::SessionStartTime => AttributeIdentifiers::SessionStartTime,
            AttributeIdentifiers::SubjectId => AttributeIdentifiers::SubjectId,
            AttributeIdentifiers::SubjectIdQualifier => AttributeIdentifiers::SubjectIdQualifier,
            AttributeIdentifiers::ResourceLocation => AttributeIdentifiers::ResourceLocation,
            AttributeIdentifiers::ResourceId => AttributeIdentifiers::ResourceId,
            AttributeIdentifiers::ResourceSimpleFileName => AttributeIdentifiers::ResourceSimpleFileName,
            AttributeIdentifiers::ActionId => AttributeIdentifiers::ActionId,
            AttributeIdentifiers::ImpliedAction => AttributeIdentifiers::ImpliedAction,
            AttributeIdentifiers::TrusteeBelief => AttributeIdentifiers::TrusteeBelief,
            AttributeIdentifiers::Other(s) => AttributeIdentifiers::Other(s.clone()),
        }
    }
}

/// The wire identifier of an attribute identifier.
pub open spec fn spec_attr_id_id(a: AttributeIdentifiers) -> Seq<char> {
    match a {
        AttributeIdentifiers::DnsName => "urn:oasis:names:tc:xacml:1.0:subject:authn-locality:dns-name"@,
        AttributeIdentifiers::IpAddress => "urn:oasis:names:tc:xacml:1.0:subject:authn-locality:ip-address"@,
        AttributeIdentifiers::AuthenticationMethod => "urn:oasis:names:tc:xacml:1.0:subject:authentication-method"@,
        AttributeIdentifiers::AuthenticationTime => "urn:oasis:names:tc:xacml:1.0:subject:authentication-time"@,
        AttributeIdentifiers::KeyInfo => "urn:oasis:names:tc:xacml:1.0:subject:key-info"@,
        AttributeIdentifiers::RequestTime => "urn:oasis:names:tc:xacml:1.0:subject:request-time"@,
        AttributeIdentifiers::SessionStartTime => "urn:oasis:names:tc:xacml:1.0:subject:session-start-time"@,
        AttributeIdentifiers::SubjectId => "urn:oasis:names:tc:xacml:1.0:subject:subject-id"@,
        AttributeIdentifiers::SubjectIdQualifier => "urn:oasis:names:tc:xacml:1.0:subject:subject-id-qualifier"@,
        AttributeIdentifiers::ResourceLocation => "urn:oasis:names:tc:xacml:1.0:resource:resource-location"@,
        AttributeIdentifiers::ResourceId => "urn:oasis:names:tc:xacml:1.0:resource:resource-id"@,
        AttributeIdentifiers::ResourceSimpleFileName => "urn:oasis:names:tc:xacml:1.0:resource:simple-file-name"@,
        AttributeIdentifiers::ActionId => "urn:oasis:names:tc:xacml:1.0:action:action-id"@,
        AttributeIdentifiers::ImpliedAction => "urn:oasis:names:tc:xacml:1.0:action:implied-action"@,
        AttributeIdentifiers::TrusteeBelief => "urn:example.com:xacml:attribute:trustee:belief"@,
        AttributeIdentifiers::Other(s) => s@,
    }
}

/// The attribute identifier, if any, whose wire identifier is `v`.
pub open spec fn spec_attr_id_from_known(v: Seq<char>) -> Option<AttributeIdentifiers> {
    if v == "urn:oasis:names:tc:xacml:1.0:subject:authn-locality:dns-name"@ {
        Some(AttributeIdentifiers::DnsName)
    } else if v == "urn:oasis:names:tc:xacml:1.0:subject:authn-locality:ip-address"@ {
        Some(AttributeIdentifiers::IpAddress)
    } else if v == "urn:oasis:names:tc:xacml:1.0:subject:authentication-method"@ {
        Some(AttributeIdentifiers::AuthenticationMethod)
    } else if v == "urn:oasis:names:tc:xacml:1.0:subject:authentication-time"@ {
        Some(AttributeIdentifiers::AuthenticationTime)
    } else if v == "urn:oasis:names:tc:xacml:1.0:subject:key-info"@ {
        Some(AttributeIdentifiers::KeyInfo)
    } else if v == "urn:oasis:names:tc:xacml:1.0:subject:request-time"@ {
        Some(AttributeIdentifiers::RequestTime)
    } else if v == "urn:oasis:names:tc:xacml:1.0:subject:session-start-time"@ {
        Some(AttributeIdentifiers::SessionStartTime)
    } else if v == "urn:oasis:names:tc:xacml:1.0:subject:subject-id"@ {
        Some(AttributeIdentifiers::SubjectId)
    } else if v == "urn:oasis:names:tc:xacml:1.0:subject:subject-id-qualifier"@ {
        Some(AttributeIdentifiers::SubjectIdQualifier)
    } else if v == "urn:oasis:names:tc:xacml:1.0:resource:resource-location"@ {
        Some(AttributeIdentifiers::ResourceLocation)
    } else if v == "urn:oasis:names:tc:xacml:1.0:resource:resource-id"@ {
        Some(AttributeIdentifiers::ResourceId)
    } else if v == "urn:oasis:names:tc:xacml:1.0:resource:simple-file-name"@ {
        Some(AttributeIdentifiers::ResourceSimpleFileName)
    } else if v == "urn:oasis:names:tc:xacml:1.0:action:action-id"@ {
        Some(AttributeIdentifiers::ActionId)
    } else if v == "urn:oasis:names:tc:xacml:1.0:action:implied-action"@ {
        Some(AttributeIdentifiers::ImpliedAction)
    } else if v == "urn:example.com:xacml:attribute:trustee:belief"@ {
        Some(AttributeIdentifiers::TrusteeBelief)
    } else {
        None
    }
}

impl AttributeIdentifiers {
    pub fn to_xacml_id(&self) -> (r: String)
        ensures
            r@ == spec_attr_id_id(*self),
    {
        match self {
            AttributeIdentifiers::DnsName => "urn:oasis:names:tc:xacml:1.0:subject:authn-locality:dns-name".to_owned(),
            AttributeIdentifiers::IpAddress => "urn:oasis:names:tc:xacml:1.0:subject:authn-locality:ip-address".to_owned(),
            AttributeIdentifiers::AuthenticationMethod => "urn:oasis:names:tc:xacml:1.0:subject:authentication-method".to_owned(),
            AttributeIdentifiers::AuthenticationTime => "urn:oasis:names:tc:xacml:1.0:subject:authentication-time".to_owned(),
            AttributeIdentifiers::KeyInfo => "urn:oasis:names:tc:xacml:1.0:subject:key-info".to_owned(),
            AttributeIdentifiers::RequestTime => "urn:oasis:names:tc:xacml:1.0:subject:request-time".to_owned(),
            AttributeIdentifiers::SessionStartTime => "urn:oasis:names:tc:xacml:1.0:subject:session-start-time".to_owned(),
            AttributeIdentifiers::SubjectId => "urn:oasis:names:tc:xacml:1.0:subject:subject-id".to_owned(),
            AttributeIdentifiers::SubjectIdQualifier => "urn:oasis:names:tc:xacml:1.0:subject:subject-id-qualifier".to_owned(),
            AttributeIdentifiers::ResourceLocation => "urn:oasis:names:tc:xacml:1.0:resource:resource-location".to_owned(),
            AttributeIdentifiers::ResourceId => "urn:oasis:names:tc:xacml:1.0:resource:resource-id".to_owned(),
            AttributeIdentifiers::ResourceSimpleFileName => "urn:oasis:names:tc:xacml:1.0:resource:simple-file-name".to_owned(),
            AttributeIdentifiers::ActionId => "urn:oasis:names:tc:xacml:1.0:action:action-id".to_owned(),
            AttributeIdentifiers::ImpliedAction => "urn:oasis:names:tc:xacml:1.0:action:implied-action".to_owned(),
            AttributeIdentifiers::TrusteeBelief => "urn:example.com:xacml:attribute:trustee:belief".to_owned(),
            AttributeIdentifiers::Other(s) => s.clone(),
        }
    }

    /// Parses a wire identifier back into an attribute identifier; one
    /// outside the standardized set becomes `Other`.
    pub fn from_xacml_id(s: &str) -> (r: AttributeIdentifiers)
        ensures
            spec_attr_id_from_known(s@) matches Some(a) ==> r == a,
            spec_attr_id_from_known(s@) is None ==> (r matches AttributeIdentifiers::Other(t)
                && t@ == s@),
    {
        if str_eq(s, "urn:oasis:names:tc:xacml:1.0:subject:authn-locality:dns-name") {
            AttributeIdentifiers::DnsName
        } else if str_eq(s, "urn:oasis:names:tc:xacml:1.0:subject:authn-locality:ip-address") {
            AttributeIdentifiers::IpAddress
        } else if str_eq(s, "urn:oasis:names:tc:xacml:1.0:subject:authentication-method") {
            AttributeIdentifiers::AuthenticationMethod
        } else if str_eq(s, "urn:oasis:names:tc:xacml:1.0:subject:authentication-time") {
            AttributeIdentifiers::AuthenticationTime
        } else if str_eq(s, "urn:oasis:names:tc:xacml:1.0:subject:key-info") {
            AttributeIdentifiers::KeyInfo
        } else if str_eq(s, "urn:oasis:names:tc:xacml:1.0:subject:request-time") {
            AttributeIdentifiers::RequestTime
        } else if str_eq(s, "urn:oasis:names:tc:xacml:1.0:subject:session-start-time") {
            AttributeIdentifiers::SessionStartTime
        } else if str_eq(s, "urn:oasis:names:tc:xacml:1.0:subject:subject-id") {
            AttributeIdentifiers::SubjectId
        } else if str_eq(s, "urn:oasis:names:tc:xacml:1.0:subject:subject-id-qualifier") {
            AttributeIdentifiers::SubjectIdQualifier
        } else if str_eq(s, "urn:oasis:names:tc:xacml:1.0:resource:resource-location") {
            AttributeIdentifiers::ResourceLocation
        } else if str_eq(s, "urn:oasis:names:tc:xacml:1.0:resource:resource-id") {
            AttributeIdentifiers::ResourceId
        } else if str_eq(s, "urn:oasis:names:tc:xacml:1.0:resource:simple-file-name") {
            AttributeIdentifiers::ResourceSimpleFileName
        } else if str_eq(s, "urn:oasis:names:tc:xacml:1.0:action:action-id") {
            AttributeIdentifiers::ActionId
        } else if str_eq(s, "urn:oasis:names:tc:xacml:1.0:action:implied-action") {
            AttributeIdentifiers::ImpliedAction
        } else if str_eq(s, "urn:example.com:xacml:attribute:trustee:belief") {
            AttributeIdentifiers::TrusteeBelief
        } else {
            AttributeIdentifiers::Other(s.to_owned())
        }
    }
}

impl core::str::FromStr for AttributeIdentifiers {
    type Err = ();

    fn from_str(s: &str) -> Result<Self, Self::Err> {
        Ok(AttributeIdentifiers::from_xacml_id(s))
    }
}

} // verus!
