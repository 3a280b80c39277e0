//! The members of a template context that the language generators share.

use vstd::prelude::*;
use crate::config::{AuthenticationConfig, AuthenticationType, FeatureConfig};
use crate::json::{
    json_bool, json_model, json_optional_text, json_text, members_of, optional_text, set_member,
    JsonModel,
};
use crate::serialize::{auth_location_json, auth_location_to_json, optional_view};
use crate::types::{Parameter, ParameterType, Response, TypeReference};
use crate::unicode::{debug_quoted, debug_text};

verus! {

/// How an optional text shows in the debug form of a value.
pub open spec fn optional_debug(text: Option<Seq<char>>) -> Seq<char> {
    match text {
        Some(t) => "Some("@ + debug_quoted(t) + ")"@,
        None => "None"@,
    }
}

/// The debug form of a kind of authentication: the name of the variant,
/// and for a custom kind its fields as well.
pub open spec fn auth_type_debug(a: AuthenticationType) -> Seq<char> {
    match a {
        AuthenticationType::NoAuth => "None"@,
        AuthenticationType::ApiKey => "ApiKey"@,
        AuthenticationType::Http => "Http"@,
        AuthenticationType::OAuth2 => "OAuth2"@,
        AuthenticationType::OpenIdConnect => "OpenIdConnect"@,
        AuthenticationType::Custom { name, description } => "Custom { name: "@ + debug_quoted(
            name@,
        ) + ", description: "@ + optional_debug(optional_view(description)) + " }"@,
    }
}

/// The debug form of a kind of authentication.
pub fn auth_type_debug_text(a: &AuthenticationType) -> (r: String)
    ensures
        r@ == auth_type_debug(*a),
{
    match a {
        AuthenticationType::NoAuth => String::from_str("None"),
        AuthenticationType::ApiKey => String::from_str("ApiKey"),
        AuthenticationType::Http => String::from_str("Http"),
        AuthenticationType::OAuth2 => String::from_str("OAuth2"),
        AuthenticationType::OpenIdConnect => String::from_str("OpenIdConnect"),
        AuthenticationType::Custom { name, description } => {
            let mut r = String::from_str("Custom { name: ");
            r.append(debug_text(name.as_str()).as_str());
            r.append(", description: ");
            match description {
                Some(d) => {
                    let mut shown = String::from_str("Some(");
                    shown.append(debug_text(d.as_str()).as_str());
                    shown.append(")");
                    r.append(shown.as_str());
                },
                None => {
                    r.append("None");
                },
            }
            r.append(" }");
            r
        },
    }
}

/// The context members that describe the authentication: without one,
/// `authentication` is false and nothing else is set; with one, it is true
/// and the kind, the location, the parameter name, the scheme and the
/// bearer format follow.
pub open spec fn with_authentication(
    members: Map<Seq<char>, JsonModel>,
    authentication: Option<AuthenticationConfig>,
) -> Map<Seq<char>, JsonModel> {
    match authentication {
        Some(auth) => members.insert("authentication"@, JsonModel::Bool(true)).insert(
            "auth_type"@,
            JsonModel::Text(auth_type_debug(auth.auth_type)),
        ).insert("auth_location"@, auth_location_json(auth.location)).insert(
            "auth_parameter_name"@,
            optional_text(optional_view(auth.parameter_name)),
        ).insert("auth_scheme"@, optional_text(optional_view(auth.scheme))).insert(
            "bearer_format"@,
            optional_text(optional_view(auth.bearer_format)),
        ),
        None => members.insert("authentication"@, JsonModel::Bool(false)),
    }
}

/// Sets the context members that describe the authentication.
pub(crate) fn set_authentication(object: &mut serde_json::Value, authentication: &Option<
    AuthenticationConfig,
>)
    requires
        json_model(*old(object)) is Object,
    ensures
        json_model(*final(object)) == JsonModel::Object(
            with_authentication(members_of(json_model(*old(object))), *authentication),
        ),
{
    match authentication {
        Some(auth) => {
            set_member(object, "authentication", json_bool(true));
            let shown = auth_type_debug_text(&auth.auth_type);
            set_member(object, "auth_type", json_text(shown.as_str()));
            set_member(object, "auth_location", auth_location_to_json(auth.location));
            set_member(object, "auth_parameter_name", json_optional_text(&auth.parameter_name));
            set_member(object, "auth_scheme", json_optional_text(&auth.scheme));
            set_member(object, "bearer_format", json_optional_text(&auth.bearer_format));
        },
        None => {
            set_member(object, "authentication", json_bool(false));
        },
    }
}

/// The context members that tell which features are enabled.
pub open spec fn with_feature_flags(members: Map<Seq<char>, JsonModel>, features: FeatureConfig) -> Map<
    Seq<char>,
    JsonModel,
> {
    members.insert("async_support"@, JsonModel::Bool(features.async_support)).insert(
        "retry"@,
        JsonModel::Bool(features.retry.enabled),
    ).insert("telemetry"@, JsonModel::Bool(features.telemetry.enabled)).insert(
        "caching"@,
        JsonModel::Bool(features.caching.enabled),
    )
}

/// Sets the context members that tell which features are enabled.
pub(crate) fn set_feature_flags(object: &mut serde_json::Value, features: &FeatureConfig)
    requires
        json_model(*old(object)) is Object,
    ensures
        json_model(*final(object)) == JsonModel::Object(
            with_feature_flags(members_of(json_model(*old(object))), *features),
        ),
{
    set_member(object, "async_support", json_bool(features.async_support));
    set_member(object, "retry", json_bool(features.retry.enabled));
    set_member(object, "telemetry", json_bool(features.telemetry.enabled));
    set_member(object, "caching", json_bool(features.caching.enabled));
}

/// Whether one of the parameters is passed in the given place.
pub open spec fn has_parameter_in(parameters: Seq<Parameter>, place: ParameterType) -> bool {
    exists|i: int| 0 <= i < parameters.len() && (#[trigger] parameters[i]).parameter_type == place
}

/// Whether one of the parameters is passed in the given place.
pub fn any_parameter_in(parameters: &Vec<Parameter>, place: ParameterType) -> (r: bool)
    ensures
        r == has_parameter_in(parameters@, place),
{
    let mut i: usize = 0;
    while i < parameters.len()
        invariant
            i <= parameters@.len(),
            forall|k: int| 0 <= k < i ==> (#[trigger] parameters@[k]).parameter_type != place,
        decreases parameters@.len() - i,
    {
        if parameters[i].parameter_type == place {
            return true;
        }
        i += 1;
    }
    false
}

/// Whether a response reports success and says what it carries.
pub open spec fn is_typed_success(response: Response) -> bool {
    response.status_code matches Some(status) && 200 <= status < 300 && response.data_type
        is Some
}

/// The type that the first successful, typed response carries.
pub open spec fn success_type(responses: Seq<Response>) -> Option<TypeReference>
    decreases responses.len(),
{
    if responses.len() == 0 {
        None
    } else if is_typed_success(responses[0]) {
        responses[0].data_type
    } else {
        success_type(responses.drop_first())
    }
}

/// The type that the first successful, typed response carries.
pub fn find_success_type(responses: &Vec<Response>) -> (r: Option<&TypeReference>)
    ensures
        match r {
            Some(t) => success_type(responses@) == Some(*t),
            None => success_type(responses@) is None,
        },
{
    let mut i: usize = 0;
    assert(responses@.skip(0) =~= responses@);
    while i < responses.len()
        invariant
            i <= responses@.len(),
            success_type(responses@) == success_type(responses@.skip(i as int)),
        decreases responses@.len() - i,
    {
        let response = &responses[i];
        proof {
            assert(responses@.skip(i as int)[0] == responses@[i as int]);
            assert(responses@.skip(i as int).drop_first() =~= responses@.skip(i + 1));
        }
        match response.status_code {
            Some(status) => {
                if status >= 200 && status < 300 {
                    match &response.data_type {
                        Some(t) => {
                            return Some(t);
                        },
                        None => {},
                    }
                }
            },
            None => {},
        }
        i += 1;
    }
    None
}

} // verus!
