//! The JSON form of the API description and of the configuration, as
//! templates read them.
//!
//! A struct is an object with a member for each field. An absent optional
//! value is null. A variant of an enumeration without fields is its name
//! as text; a variant with fields is an object with one member, named after
//! the variant.

use vstd::prelude::*;
use crate::config::{BackoffStrategy, TelemetryProvider, Thousandths};
use crate::json::{
    json_array, json_bool, json_copy, json_model, json_models, json_null,
    json_numeral, json_object, json_optional_text, json_text, json_text_array, json_unsigned,
    numeral_read, optional_text, set_member, text_documents, JsonModel,
};
use crate::string_map::{map_of, StringMap};
use crate::text::{decimal, texts, thousandths_decimal_point, thousandths_point_text};
use crate::types::{BaseShape, BaseType, TypeReference, TypeShape};

verus! {

/// The view of an optional string.
pub open spec fn optional_view(text: Option<String>) -> Option<Seq<char>> {
    match text {
        Some(t) => Some(t@),
        None => None,
    }
}

/// The document of a whole number.
pub open spec fn number_json(n: nat) -> JsonModel {
    JsonModel::Number(decimal(n))
}

/// The document of an optional whole number.
pub open spec fn optional_number_json(n: Option<nat>) -> JsonModel {
    match n {
        Some(n) => number_json(n),
        None => JsonModel::Null,
    }
}

/// The document of a number held in thousandths: the number that the JSON
/// reader takes from its numeral with a fraction, `2.0` for 2000. Should
/// the reader not take that numeral, null.
pub open spec fn thousandths_json(t: Thousandths) -> JsonModel {
    match numeral_read(thousandths_decimal_point(t.count as nat)) {
        Some(numeral) => JsonModel::Number(numeral),
        None => JsonModel::Null,
    }
}

/// The value of a number held in thousandths.
pub fn thousandths_to_json(t: Thousandths) -> (v: serde_json::Value)
    ensures
        json_model(v) == thousandths_json(t),
{
    let numeral = thousandths_point_text(t.count);
    match json_numeral(numeral.as_str()) {
        Some(v) => v,
        None => json_null(),
    }
}

/// The document of a map of texts: an object with a text member for each
/// entry.
pub open spec fn string_map_json(m: Map<Seq<char>, Seq<char>>) -> JsonModel {
    JsonModel::Object(m.map_values(|t: Seq<char>| JsonModel::Text(t)))
}

/// The value of a map of texts.
pub fn string_map_to_json(m: &StringMap) -> (v: serde_json::Value)
    ensures
        json_model(v) == string_map_json(m@),
{
    let mut object = json_object();
    let mut i: usize = 0;
    proof {
        assert(m.pairs().take(0) =~= Seq::empty());
        assert(map_of(m.pairs().take(0)).map_values(|t: Seq<char>| JsonModel::Text(t))
            =~= Map::empty());
    }
    while i < m.len()
        invariant
            i <= m.pairs().len(),
            json_model(object) == string_map_json(map_of(m.pairs().take(i as int))),
        decreases m.pairs().len() - i,
    {
        set_member(&mut object, m.key_at(i).as_str(), json_text(m.value_at(i).as_str()));
        proof {
            let later = m.pairs().take(i + 1);
            let earlier = m.pairs().take(i as int);
            assert(later.drop_last() =~= earlier);
            assert(later.last() == m.pairs()[i as int]);
            assert(map_of(later).map_values(|t: Seq<char>| JsonModel::Text(t)) =~= map_of(
                earlier,
            ).map_values(|t: Seq<char>| JsonModel::Text(t)).insert(
                later.last().0,
                JsonModel::Text(later.last().1),
            ));
        }
        i += 1;
    }
    assert(m.pairs().take(m.pairs().len() as int) =~= m.pairs());
    object
}

/// The document of a base shape.
pub open spec fn base_shape_json(base: BaseShape) -> JsonModel
    decreases base, 0nat,
{
    match base {
        BaseShape::String => JsonModel::Text("String"@),
        BaseShape::Integer => JsonModel::Text("Integer"@),
        BaseShape::Long => JsonModel::Text("Long"@),
        BaseShape::Float => JsonModel::Text("Float"@),
        BaseShape::Double => JsonModel::Text("Double"@),
        BaseShape::Boolean => JsonModel::Text("Boolean"@),
        BaseShape::Date => JsonModel::Text("Date"@),
        BaseShape::DateTime => JsonModel::Text("DateTime"@),
        BaseShape::Binary => JsonModel::Text("Binary"@),
        BaseShape::Any => JsonModel::Text("Any"@),
        BaseShape::Void => JsonModel::Text("Void"@),
        BaseShape::Object(name) => JsonModel::Object(
            Map::empty().insert("Object"@, JsonModel::Text(name)),
        ),
        BaseShape::Array(inner) => JsonModel::Object(
            Map::empty().insert("Array"@, type_shape_json(*inner)),
        ),
        BaseShape::MapOf(key, value) => JsonModel::Object(
            Map::empty().insert(
                "Map"@,
                JsonModel::Array(seq![type_shape_json(*key), type_shape_json(*value)]),
            ),
        ),
    }
}

/// The documents of the generic parameters of a type reference.
pub open spec fn generic_parameters_json(t: TypeShape) -> Seq<JsonModel>
    decreases t, 0nat,
{
    Seq::new(
        t.generic_parameters.len(),
        |i: int|
            if 0 <= i < t.generic_parameters.len() {
                type_shape_json(t.generic_parameters[i])
            } else {
                JsonModel::Null
            },
    )
}

/// The document of a type reference.
pub open spec fn type_shape_json(t: TypeShape) -> JsonModel
    decreases t, 1nat,
{
    JsonModel::Object(
        Map::empty().insert("base_type"@, base_shape_json(t.base)).insert(
            "nullable"@,
            JsonModel::Bool(t.nullable),
        ).insert("array"@, JsonModel::Bool(t.array)).insert(
            "generic_parameters"@,
            JsonModel::Array(generic_parameters_json(t)),
        ),
    )
}

/// The document of an optional type reference.
pub open spec fn optional_type_json(t: Option<TypeReference>) -> JsonModel {
    match t {
        Some(t) => type_shape_json(t@),
        None => JsonModel::Null,
    }
}

/// The value of a base shape.
pub fn base_type_to_json(base: &BaseType) -> (v: serde_json::Value)
    ensures
        json_model(v) == base_shape_json(base@),
    decreases base,
{
    match base {
        BaseType::String => json_text("String"),
        BaseType::Integer => json_text("Integer"),
        BaseType::Long => json_text("Long"),
        BaseType::Float => json_text("Float"),
        BaseType::Double => json_text("Double"),
        BaseType::Boolean => json_text("Boolean"),
        BaseType::Date => json_text("Date"),
        BaseType::DateTime => json_text("DateTime"),
        BaseType::Binary => json_text("Binary"),
        BaseType::Any => json_text("Any"),
        BaseType::Void => json_text("Void"),
        BaseType::Object(name) => {
            let mut object = json_object();
            set_member(&mut object, "Object", json_text(name.as_str()));
            object
        },
        BaseType::Array(inner) => {
            let mut object = json_object();
            set_member(&mut object, "Array", type_reference_to_json(inner));
            object
        },
        BaseType::MapOf(key, value) => {
            let mut pair: Vec<serde_json::Value> = Vec::new();
            pair.push(type_reference_to_json(key));
            pair.push(type_reference_to_json(value));
            assert(json_models(pair@) =~= seq![
                type_shape_json(key@),
                type_shape_json(value@),
            ]);
            let mut object = json_object();
            set_member(&mut object, "Map", json_array(pair));
            object
        },
    }
}

/// The value of a type reference.
pub fn type_reference_to_json(t: &TypeReference) -> (v: serde_json::Value)
    ensures
        json_model(v) == type_shape_json(t@),
    decreases t,
{
    let mut parameters: Vec<serde_json::Value> = Vec::new();
    let mut i: usize = 0;
    while i < t.generic_parameters.len()
        invariant
            i <= t.generic_parameters@.len(),
            parameters@.len() == i,
            forall|k: int|
                0 <= k < i ==> json_model(#[trigger] parameters@[k]) == type_shape_json(
                    t.generic_parameters@[k]@,
                ),
        decreases t.generic_parameters@.len() - i,
    {
        parameters.push(type_reference_to_json(&t.generic_parameters[i]));
        i += 1;
    }
    proof {
        let shape = t@;
        assert(shape.base == t.base_type@);
        assert(shape.generic_parameters.len() == t.generic_parameters@.len());
        assert forall|k: int| 0 <= k < shape.generic_parameters.len() implies #[trigger] shape.generic_parameters[k]
            == t.generic_parameters@[k]@ by {}
        assert(json_models(parameters@) =~= generic_parameters_json(shape));
    }
    let mut object = json_object();
    set_member(&mut object, "base_type", base_type_to_json(&t.base_type));
    set_member(&mut object, "nullable", json_bool(t.nullable));
    set_member(&mut object, "array", json_bool(t.array));
    set_member(&mut object, "generic_parameters", json_array(parameters));
    object
}

/// The document of the kind of authentication that an API asks for.
pub open spec fn spec_auth_type_json(a: crate::types::AuthenticationType) -> JsonModel {
    match a {
        crate::types::AuthenticationType::ApiKey => JsonModel::Text("ApiKey"@),
        crate::types::AuthenticationType::Bearer => JsonModel::Text("Bearer"@),
        crate::types::AuthenticationType::Basic => JsonModel::Text("Basic"@),
        crate::types::AuthenticationType::OAuth2 => JsonModel::Text("OAuth2"@),
        crate::types::AuthenticationType::OpenIdConnect => JsonModel::Text("OpenIdConnect"@),
        crate::types::AuthenticationType::Custom(name) => JsonModel::Object(
            Map::empty().insert("Custom"@, JsonModel::Text(name@)),
        ),
    }
}

/// The value of the kind of authentication that an API asks for.
pub fn spec_auth_type_to_json(a: &crate::types::AuthenticationType) -> (v: serde_json::Value)
    ensures
        json_model(v) == spec_auth_type_json(*a),
{
    match a {
        crate::types::AuthenticationType::ApiKey => json_text("ApiKey"),
        crate::types::AuthenticationType::Bearer => json_text("Bearer"),
        crate::types::AuthenticationType::Basic => json_text("Basic"),
        crate::types::AuthenticationType::OAuth2 => json_text("OAuth2"),
        crate::types::AuthenticationType::OpenIdConnect => json_text("OpenIdConnect"),
        crate::types::AuthenticationType::Custom(name) => {
            let mut object = json_object();
            set_member(&mut object, "Custom", json_text(name.as_str()));
            object
        },
    }
}

/// The document of the kind of authentication that a client is set up
/// with.
pub open spec fn config_auth_type_json(a: crate::config::AuthenticationType) -> JsonModel {
    match a {
        crate::config::AuthenticationType::NoAuth => JsonModel::Text("None"@),
        crate::config::AuthenticationType::ApiKey => JsonModel::Text("ApiKey"@),
        crate::config::AuthenticationType::Http => JsonModel::Text("Http"@),
        crate::config::AuthenticationType::OAuth2 => JsonModel::Text("OAuth2"@),
        crate::config::AuthenticationType::OpenIdConnect => JsonModel::Text("OpenIdConnect"@),
        crate::config::AuthenticationType::Custom { name, description } => JsonModel::Object(
            Map::empty().insert(
                "Custom"@,
                JsonModel::Object(
                    Map::empty().insert("name"@, JsonModel::Text(name@)).insert(
                        "description"@,
                        optional_text(optional_view(description)),
                    ),
                ),
            ),
        ),
    }
}

/// The value of the kind of authentication that a client is set up with.
pub fn config_auth_type_to_json(a: &crate::config::AuthenticationType) -> (v:
    serde_json::Value)
    ensures
        json_model(v) == config_auth_type_json(*a),
{
    match a {
        crate::config::AuthenticationType::NoAuth => json_text("None"),
        crate::config::AuthenticationType::ApiKey => json_text("ApiKey"),
        crate::config::AuthenticationType::Http => json_text("Http"),
        crate::config::AuthenticationType::OAuth2 => json_text("OAuth2"),
        crate::config::AuthenticationType::OpenIdConnect => json_text("OpenIdConnect"),
        crate::config::AuthenticationType::Custom { name, description } => {
            let mut inner = json_object();
            set_member(&mut inner, "name", json_text(name.as_str()));
            set_member(&mut inner, "description", json_optional_text(description));
            let mut object = json_object();
            set_member(&mut object, "Custom", inner);
            object
        },
    }
}

/// The document of a telemetry provider.
pub open spec fn telemetry_provider_json(p: TelemetryProvider) -> JsonModel {
    match p {
        TelemetryProvider::Prometheus => JsonModel::Text("Prometheus"@),
        TelemetryProvider::OpenTelemetry => JsonModel::Text("OpenTelemetry"@),
        TelemetryProvider::Custom { implementation } => JsonModel::Object(
            Map::empty().insert(
                "Custom"@,
                JsonModel::Object(
                    Map::empty().insert("implementation"@, JsonModel::Text(implementation@)),
                ),
            ),
        ),
    }
}

/// The value of a telemetry provider.
pub fn telemetry_provider_to_json(p: &TelemetryProvider) -> (v: serde_json::Value)
    ensures
        json_model(v) == telemetry_provider_json(*p),
{
    match p {
        TelemetryProvider::Prometheus => json_text("Prometheus"),
        TelemetryProvider::OpenTelemetry => json_text("OpenTelemetry"),
        TelemetryProvider::Custom { implementation } => {
            let mut inner = json_object();
            set_member(&mut inner, "implementation", json_text(implementation.as_str()));
            let mut object = json_object();
            set_member(&mut object, "Custom", inner);
            object
        },
    }
}

/// The document of a backoff strategy.
pub open spec fn backoff_strategy_json(s: BackoffStrategy) -> JsonModel {
    match s {
        BackoffStrategy::Fixed { delay_ms } => JsonModel::Object(
            Map::empty().insert(
                "Fixed"@,
                JsonModel::Object(Map::empty().insert("delay_ms"@, number_json(delay_ms as nat))),
            ),
        ),
        BackoffStrategy::Exponential { initial_delay_ms, multiplier, max_delay_ms } =>
            JsonModel::Object(
            Map::empty().insert(
                "Exponential"@,
                JsonModel::Object(
                    Map::empty().insert(
                        "initial_delay_ms"@,
                        number_json(initial_delay_ms as nat),
                    ).insert("multiplier"@, thousandths_json(multiplier)).insert(
                        "max_delay_ms"@,
                        number_json(max_delay_ms as nat),
                    ),
                ),
            ),
        ),
        BackoffStrategy::Linear { initial_delay_ms, increment_ms } => JsonModel::Object(
            Map::empty().insert(
                "Linear"@,
                JsonModel::Object(
                    Map::empty().insert(
                        "initial_delay_ms"@,
                        number_json(initial_delay_ms as nat),
                    ).insert("increment_ms"@, number_json(increment_ms as nat)),
                ),
            ),
        ),
    }
}

/// The value of a backoff strategy.
pub fn backoff_strategy_to_json(s: &BackoffStrategy) -> (v: serde_json::Value)
    ensures
        json_model(v) == backoff_strategy_json(*s),
{
    match *s {
        BackoffStrategy::Fixed { delay_ms } => {
            let mut inner = json_object();
            set_member(&mut inner, "delay_ms", json_unsigned(delay_ms));
            let mut object = json_object();
            set_member(&mut object, "Fixed", inner);
            object
        },
        BackoffStrategy::Exponential { initial_delay_ms, multiplier, max_delay_ms } => {
            let mut inner = json_object();
            set_member(&mut inner, "initial_delay_ms", json_unsigned(initial_delay_ms));
            set_member(&mut inner, "multiplier", thousandths_to_json(multiplier));
            set_member(&mut inner, "max_delay_ms", json_unsigned(max_delay_ms));
            let mut object = json_object();
            set_member(&mut object, "Exponential", inner);
            object
        },
        BackoffStrategy::Linear { initial_delay_ms, increment_ms } => {
            let mut inner = json_object();
            set_member(&mut inner, "initial_delay_ms", json_unsigned(initial_delay_ms));
            set_member(&mut inner, "increment_ms", json_unsigned(increment_ms));
            let mut object = json_object();
            set_member(&mut object, "Linear", inner);
            object
        },
    }
}


/// The document of a `HttpMethod`: the name of the variant.
pub open spec fn http_method_json(e: crate::types::HttpMethod) -> JsonModel {
    match e {
        crate::types::HttpMethod::Get => JsonModel::Text("Get"@),
        crate::types::HttpMethod::Post => JsonModel::Text("Post"@),
        crate::types::HttpMethod::Put => JsonModel::Text("Put"@),
        crate::types::HttpMethod::Delete => JsonModel::Text("Delete"@),
        crate::types::HttpMethod::Patch => JsonModel::Text("Patch"@),
        crate::types::HttpMethod::Options => JsonModel::Text("Options"@),
        crate::types::HttpMethod::Head => JsonModel::Text("Head"@),
        crate::types::HttpMethod::Trace => JsonModel::Text("Trace"@),
    }
}

/// The value of a `HttpMethod`.
pub fn http_method_to_json(e: crate::types::HttpMethod) -> (v: serde_json::Value)
    ensures
        json_model(v) == http_method_json(e),
{
    match e {
        crate::types::HttpMethod::Get => json_text("Get"),
        crate::types::HttpMethod::Post => json_text("Post"),
        crate::types::HttpMethod::Put => json_text("Put"),
        crate::types::HttpMethod::Delete => json_text("Delete"),
        crate::types::HttpMethod::Patch => json_text("Patch"),
        crate::types::HttpMethod::Options => json_text("Options"),
        crate::types::HttpMethod::Head => json_text("Head"),
        crate::types::HttpMethod::Trace => json_text("Trace"),
    }
}


/// The document of a `ParameterType`: the name of the variant.
pub open spec fn parameter_type_json(e: crate::types::ParameterType) -> JsonModel {
    match e {
        crate::types::ParameterType::Query => JsonModel::Text("Query"@),
        crate::types::ParameterType::Path => JsonModel::Text("Path"@),
        crate::types::ParameterType::Header => JsonModel::Text("Header"@),
        crate::types::ParameterType::Cookie => JsonModel::Text("Cookie"@),
        crate::types::ParameterType::FormData => JsonModel::Text("FormData"@),
    }
}

/// The value of a `ParameterType`.
pub fn parameter_type_to_json(e: crate::types::ParameterType) -> (v: serde_json::Value)
    ensures
        json_model(v) == parameter_type_json(e),
{
    match e {
        crate::types::ParameterType::Query => json_text("Query"),
        crate::types::ParameterType::Path => json_text("Path"),
        crate::types::ParameterType::Header => json_text("Header"),
        crate::types::ParameterType::Cookie => json_text("Cookie"),
        crate::types::ParameterType::FormData => json_text("FormData"),
    }
}


/// The document of a `TypeKind`: the name of the variant.
pub open spec fn type_kind_json(e: crate::types::TypeKind) -> JsonModel {
    match e {
        crate::types::TypeKind::Object => JsonModel::Text("Object"@),
        crate::types::TypeKind::Array => JsonModel::Text("Array"@),
        crate::types::TypeKind::String => JsonModel::Text("String"@),
        crate::types::TypeKind::Integer => JsonModel::Text("Integer"@),
        crate::types::TypeKind::Float => JsonModel::Text("Float"@),
        crate::types::TypeKind::Boolean => JsonModel::Text("Boolean"@),
        crate::types::TypeKind::Enum => JsonModel::Text("Enum"@),
        crate::types::TypeKind::Union => JsonModel::Text("Union"@),
        crate::types::TypeKind::Interface => JsonModel::Text("Interface"@),
    }
}

/// The value of a `TypeKind`.
pub fn type_kind_to_json(e: crate::types::TypeKind) -> (v: serde_json::Value)
    ensures
        json_model(v) == type_kind_json(e),
{
    match e {
        crate::types::TypeKind::Object => json_text("Object"),
        crate::types::TypeKind::Array => json_text("Array"),
        crate::types::TypeKind::String => json_text("String"),
        crate::types::TypeKind::Integer => json_text("Integer"),
        crate::types::TypeKind::Float => json_text("Float"),
        crate::types::TypeKind::Boolean => json_text("Boolean"),
        crate::types::TypeKind::Enum => json_text("Enum"),
        crate::types::TypeKind::Union => json_text("Union"),
        crate::types::TypeKind::Interface => json_text("Interface"),
    }
}


/// The document of a `InputType`: the name of the variant.
pub open spec fn input_type_json(e: crate::config::InputType) -> JsonModel {
    match e {
        crate::config::InputType::OpenApi => JsonModel::Text("OpenApi"@),
        crate::config::InputType::GraphQL => JsonModel::Text("GraphQL"@),
        crate::config::InputType::Grpc => JsonModel::Text("Grpc"@),
    }
}

/// The value of a `InputType`.
pub fn input_type_to_json(e: crate::config::InputType) -> (v: serde_json::Value)
    ensures
        json_model(v) == input_type_json(e),
{
    match e {
        crate::config::InputType::OpenApi => json_text("OpenApi"),
        crate::config::InputType::GraphQL => json_text("GraphQL"),
        crate::config::InputType::Grpc => json_text("Grpc"),
    }
}


/// The document of a `TargetLanguage`: the name of the variant.
pub open spec fn target_language_json(e: crate::config::TargetLanguage) -> JsonModel {
    match e {
        crate::config::TargetLanguage::Java => JsonModel::Text("Java"@),
        crate::config::TargetLanguage::Python => JsonModel::Text("Python"@),
        crate::config::TargetLanguage::Rust => JsonModel::Text("Rust"@),
        crate::config::TargetLanguage::Go => JsonModel::Text("Go"@),
        crate::config::TargetLanguage::TypeScript => JsonModel::Text("TypeScript"@),
    }
}

/// The value of a `TargetLanguage`.
pub fn target_language_to_json(e: crate::config::TargetLanguage) -> (v: serde_json::Value)
    ensures
        json_model(v) == target_language_json(e),
{
    match e {
        crate::config::TargetLanguage::Java => json_text("Java"),
        crate::config::TargetLanguage::Python => json_text("Python"),
        crate::config::TargetLanguage::Rust => json_text("Rust"),
        crate::config::TargetLanguage::Go => json_text("Go"),
        crate::config::TargetLanguage::TypeScript => json_text("TypeScript"),
    }
}


/// The document of a `CacheKeyStrategy`: the name of the variant.
pub open spec fn cache_key_strategy_json(e: crate::config::CacheKeyStrategy) -> JsonModel {
    match e {
        crate::config::CacheKeyStrategy::MethodAndParams => JsonModel::Text("MethodAndParams"@),
        crate::config::CacheKeyStrategy::CustomHash => JsonModel::Text("CustomHash"@),
        crate::config::CacheKeyStrategy::UserDefined => JsonModel::Text("UserDefined"@),
    }
}

/// The value of a `CacheKeyStrategy`.
pub fn cache_key_strategy_to_json(e: crate::config::CacheKeyStrategy) -> (v: serde_json::Value)
    ensures
        json_model(v) == cache_key_strategy_json(e),
{
    match e {
        crate::config::CacheKeyStrategy::MethodAndParams => json_text("MethodAndParams"),
        crate::config::CacheKeyStrategy::CustomHash => json_text("CustomHash"),
        crate::config::CacheKeyStrategy::UserDefined => json_text("UserDefined"),
    }
}


/// The document of a `AuthLocation`: the name of the variant.
pub open spec fn auth_location_json(e: crate::config::AuthLocation) -> JsonModel {
    match e {
        crate::config::AuthLocation::Query => JsonModel::Text("Query"@),
        crate::config::AuthLocation::Header => JsonModel::Text("Header"@),
        crate::config::AuthLocation::Cookie => JsonModel::Text("Cookie"@),
    }
}

/// The value of a `AuthLocation`.
pub fn auth_location_to_json(e: crate::config::AuthLocation) -> (v: serde_json::Value)
    ensures
        json_model(v) == auth_location_json(e),
{
    match e {
        crate::config::AuthLocation::Query => json_text("Query"),
        crate::config::AuthLocation::Header => json_text("Header"),
        crate::config::AuthLocation::Cookie => json_text("Cookie"),
    }
}


/// The document of a `OAuthFlowType`: the name of the variant.
pub open spec fn oauth_flow_type_json(e: crate::config::OAuthFlowType) -> JsonModel {
    match e {
        crate::config::OAuthFlowType::AuthorizationCode => JsonModel::Text("AuthorizationCode"@),
        crate::config::OAuthFlowType::Implicit => JsonModel::Text("Implicit"@),
        crate::config::OAuthFlowType::ResourceOwnerPassword => JsonModel::Text("ResourceOwnerPassword"@),
        crate::config::OAuthFlowType::ClientCredentials => JsonModel::Text("ClientCredentials"@),
    }
}

/// The value of a `OAuthFlowType`.
pub fn oauth_flow_type_to_json(e: crate::config::OAuthFlowType) -> (v: serde_json::Value)
    ensures
        json_model(v) == oauth_flow_type_json(e),
{
    match e {
        crate::config::OAuthFlowType::AuthorizationCode => json_text("AuthorizationCode"),
        crate::config::OAuthFlowType::Implicit => json_text("Implicit"),
        crate::config::OAuthFlowType::ResourceOwnerPassword => json_text("ResourceOwnerPassword"),
        crate::config::OAuthFlowType::ClientCredentials => json_text("ClientCredentials"),
    }
}


/// The document of a response header.
pub open spec fn header_json(x: crate::types::Header) -> JsonModel {
    JsonModel::Object(
        Map::empty().insert(
            "name"@,
            JsonModel::Text(x.name@),
        ).insert(
            "description"@,
            optional_text(optional_view(x.description)),
        ).insert(
            "data_type"@,
            type_shape_json(x.data_type@),
        ).insert(
            "required"@,
            JsonModel::Bool(x.required),
        ),
    )
}

/// The value of a response header.
pub fn header_to_json(x: &crate::types::Header) -> (v: serde_json::Value)
    ensures
        json_model(v) == header_json(*x),
{
    let mut object = json_object();
    set_member(&mut object, "name", json_text(x.name.as_str()));
    set_member(&mut object, "description", json_optional_text(&x.description));
    set_member(&mut object, "data_type", type_reference_to_json(&x.data_type));
    set_member(&mut object, "required", json_bool(x.required));
    object
}

/// The documents of a list of `Header`.
pub open spec fn header_list_json(list: Seq<crate::types::Header>) -> Seq<JsonModel> {
    list.map_values(|x: crate::types::Header| header_json(x))
}

/// The array of a list of `Header`.
pub fn header_list_to_json(list: &Vec<crate::types::Header>) -> (v: serde_json::Value)
    ensures
        json_model(v) == JsonModel::Array(header_list_json(list@)),
{
    let mut values: Vec<serde_json::Value> = Vec::new();
    let mut i: usize = 0;
    while i < list.len()
        invariant
            i <= list@.len(),
            values@.len() == i,
            forall|k: int|
                0 <= k < i ==> json_model(#[trigger] values@[k]) == header_json(list@[k]),
        decreases list@.len() - i,
    {
        values.push(header_to_json(&list[i]));
        i += 1;
    }
    assert(json_models(values@) =~= header_list_json(list@));
    json_array(values)
}


/// The document of a parameter.
pub open spec fn parameter_json(x: crate::types::Parameter) -> JsonModel {
    JsonModel::Object(
        Map::empty().insert(
            "name"@,
            JsonModel::Text(x.name@),
        ).insert(
            "description"@,
            optional_text(optional_view(x.description)),
        ).insert(
            "parameter_type"@,
            parameter_type_json(x.parameter_type),
        ).insert(
            "data_type"@,
            type_shape_json(x.data_type@),
        ).insert(
            "required"@,
            JsonModel::Bool(x.required),
        ).insert(
            "default_value"@,
            (match x.default_value {
            Some(value) => json_model(value),
            None => JsonModel::Null,
        }),
        ),
    )
}

/// The value of a parameter.
pub fn parameter_to_json(x: &crate::types::Parameter) -> (v: serde_json::Value)
    ensures
        json_model(v) == parameter_json(*x),
{
    let mut object = json_object();
    set_member(&mut object, "name", json_text(x.name.as_str()));
    set_member(&mut object, "description", json_optional_text(&x.description));
    set_member(&mut object, "parameter_type", parameter_type_to_json(x.parameter_type));
    set_member(&mut object, "data_type", type_reference_to_json(&x.data_type));
    set_member(&mut object, "required", json_bool(x.required));
    let default_value = match &x.default_value {
        Some(value) => json_copy(value),
        None => json_null(),
    };
    set_member(&mut object, "default_value", default_value);
    object
}

/// The documents of a list of `Parameter`.
pub open spec fn parameter_list_json(list: Seq<crate::types::Parameter>) -> Seq<JsonModel> {
    list.map_values(|x: crate::types::Parameter| parameter_json(x))
}

/// The array of a list of `Parameter`.
pub fn parameter_list_to_json(list: &Vec<crate::types::Parameter>) -> (v: serde_json::Value)
    ensures
        json_model(v) == JsonModel::Array(parameter_list_json(list@)),
{
    let mut values: Vec<serde_json::Value> = Vec::new();
    let mut i: usize = 0;
    while i < list.len()
        invariant
            i <= list@.len(),
            values@.len() == i,
            forall|k: int|
                0 <= k < i ==> json_model(#[trigger] values@[k]) == parameter_json(list@[k]),
        decreases list@.len() - i,
    {
        values.push(parameter_to_json(&list[i]));
        i += 1;
    }
    assert(json_models(values@) =~= parameter_list_json(list@));
    json_array(values)
}


/// The document of a response.
pub open spec fn response_json(x: crate::types::Response) -> JsonModel {
    JsonModel::Object(
        Map::empty().insert(
            "status_code"@,
            optional_number_json(
            match x.status_code {
                Some(n) => Some(n as nat),
                None => None,
            },
        ),
        ).insert(
            "description"@,
            JsonModel::Text(x.description@),
        ).insert(
            "content_type"@,
            JsonModel::Text(x.content_type@),
        ).insert(
            "data_type"@,
            optional_type_json(x.data_type),
        ).insert(
            "headers"@,
            JsonModel::Array(header_list_json(x.headers@)),
        ),
    )
}

/// The value of a response.
pub fn response_to_json(x: &crate::types::Response) -> (v: serde_json::Value)
    ensures
        json_model(v) == response_json(*x),
{
    let mut object = json_object();
    let status_code = match x.status_code {
        Some(n) => json_unsigned(n as u64),
        None => json_null(),
    };
    set_member(&mut object, "status_code", status_code);
    set_member(&mut object, "description", json_text(x.description.as_str()));
    set_member(&mut object, "content_type", json_text(x.content_type.as_str()));
    let data_type = match &x.data_type {
        Some(inner) => type_reference_to_json(inner),
        None => json_null(),
    };
    set_member(&mut object, "data_type", data_type);
    set_member(&mut object, "headers", header_list_to_json(&x.headers));
    object
}

/// The documents of a list of `Response`.
pub open spec fn response_list_json(list: Seq<crate::types::Response>) -> Seq<JsonModel> {
    list.map_values(|x: crate::types::Response| response_json(x))
}

/// The array of a list of `Response`.
pub fn response_list_to_json(list: &Vec<crate::types::Response>) -> (v: serde_json::Value)
    ensures
        json_model(v) == JsonModel::Array(response_list_json(list@)),
{
    let mut values: Vec<serde_json::Value> = Vec::new();
    let mut i: usize = 0;
    while i < list.len()
        invariant
            i <= list@.len(),
            values@.len() == i,
            forall|k: int|
                0 <= k < i ==> json_model(#[trigger] values@[k]) == response_json(list@[k]),
        decreases list@.len() - i,
    {
        values.push(response_to_json(&list[i]));
        i += 1;
    }
    assert(json_models(values@) =~= response_list_json(list@));
    json_array(values)
}


/// The document of a cache directive.
pub open spec fn cache_operation_json(x: crate::types::CacheOperation) -> JsonModel {
    JsonModel::Object(
        Map::empty().insert(
            "enabled"@,
            JsonModel::Bool(x.enabled),
        ).insert(
            "ttl_seconds"@,
            optional_number_json(
            match x.ttl_seconds {
                Some(n) => Some(n as nat),
                None => None,
            },
        ),
        ).insert(
            "cache_key"@,
            optional_text(optional_view(x.cache_key)),
        ).insert(
            "vary_on"@,
            JsonModel::Array(text_documents(texts(x.vary_on@))),
        ),
    )
}

/// The value of a cache directive.
pub fn cache_operation_to_json(x: &crate::types::CacheOperation) -> (v: serde_json::Value)
    ensures
        json_model(v) == cache_operation_json(*x),
{
    let mut object = json_object();
    set_member(&mut object, "enabled", json_bool(x.enabled));
    let ttl_seconds = match x.ttl_seconds {
        Some(n) => json_unsigned(n),
        None => json_null(),
    };
    set_member(&mut object, "ttl_seconds", ttl_seconds);
    set_member(&mut object, "cache_key", json_optional_text(&x.cache_key));
    set_member(&mut object, "vary_on", json_text_array(&x.vary_on));
    object
}


/// The document of an operation.
pub open spec fn operation_json(x: crate::types::Operation) -> JsonModel {
    JsonModel::Object(
        Map::empty().insert(
            "id"@,
            JsonModel::Text(x.id@),
        ).insert(
            "name"@,
            JsonModel::Text(x.name@),
        ).insert(
            "description"@,
            optional_text(optional_view(x.description)),
        ).insert(
            "method"@,
            http_method_json(x.method),
        ).insert(
            "path"@,
            JsonModel::Text(x.path@),
        ).insert(
            "parameters"@,
            JsonModel::Array(parameter_list_json(x.parameters@)),
        ).insert(
            "request_body"@,
            optional_type_json(x.request_body),
        ).insert(
            "responses"@,
            JsonModel::Array(response_list_json(x.responses@)),
        ).insert(
            "tags"@,
            JsonModel::Array(text_documents(texts(x.tags@))),
        ).insert(
            "deprecated"@,
            JsonModel::Bool(x.deprecated),
        ).insert(
            "cache_config"@,
            (match x.cache_config {
            Some(inner) => cache_operation_json(inner),
            None => JsonModel::Null,
        }),
        ),
    )
}

/// The value of an operation.
pub fn operation_to_json(x: &crate::types::Operation) -> (v: serde_json::Value)
    ensures
        json_model(v) == operation_json(*x),
{
    let mut object = json_object();
    set_member(&mut object, "id", json_text(x.id.as_str()));
    set_member(&mut object, "name", json_text(x.name.as_str()));
    set_member(&mut object, "description", json_optional_text(&x.description));
    set_member(&mut object, "method", http_method_to_json(x.method));
    set_member(&mut object, "path", json_text(x.path.as_str()));
    set_member(&mut object, "parameters", parameter_list_to_json(&x.parameters));
    let request_body = match &x.request_body {
        Some(inner) => type_reference_to_json(inner),
        None => json_null(),
    };
    set_member(&mut object, "request_body", request_body);
    set_member(&mut object, "responses", response_list_to_json(&x.responses));
    set_member(&mut object, "tags", json_text_array(&x.tags));
    set_member(&mut object, "deprecated", json_bool(x.deprecated));
    let cache_config = match &x.cache_config {
        Some(inner) => cache_operation_to_json(inner),
        None => json_null(),
    };
    set_member(&mut object, "cache_config", cache_config);
    object
}

/// The documents of a list of `Operation`.
pub open spec fn operation_list_json(list: Seq<crate::types::Operation>) -> Seq<JsonModel> {
    list.map_values(|x: crate::types::Operation| operation_json(x))
}

/// The array of a list of `Operation`.
pub fn operation_list_to_json(list: &Vec<crate::types::Operation>) -> (v: serde_json::Value)
    ensures
        json_model(v) == JsonModel::Array(operation_list_json(list@)),
{
    let mut values: Vec<serde_json::Value> = Vec::new();
    let mut i: usize = 0;
    while i < list.len()
        invariant
            i <= list@.len(),
            values@.len() == i,
            forall|k: int|
                0 <= k < i ==> json_model(#[trigger] values@[k]) == operation_json(list@[k]),
        decreases list@.len() - i,
    {
        values.push(operation_to_json(&list[i]));
        i += 1;
    }
    assert(json_models(values@) =~= operation_list_json(list@));
    json_array(values)
}


/// The document of a property.
pub open spec fn property_json(x: crate::types::Property) -> JsonModel {
    JsonModel::Object(
        Map::empty().insert(
            "name"@,
            JsonModel::Text(x.name@),
        ).insert(
            "description"@,
            optional_text(optional_view(x.description)),
        ).insert(
            "data_type"@,
            type_shape_json(x.data_type@),
        ).insert(
            "required"@,
            JsonModel::Bool(x.required),
        ).insert(
            "read_only"@,
            JsonModel::Bool(x.read_only),
        ).insert(
            "write_only"@,
            JsonModel::Bool(x.write_only),
        ).insert(
            "deprecated"@,
            JsonModel::Bool(x.deprecated),
        ).insert(
            "default_value"@,
            (match x.default_value {
            Some(value) => json_model(value),
            None => JsonModel::Null,
        }),
        ),
    )
}

/// The value of a property.
pub fn property_to_json(x: &crate::types::Property) -> (v: serde_json::Value)
    ensures
        json_model(v) == property_json(*x),
{
    let mut object = json_object();
    set_member(&mut object, "name", json_text(x.name.as_str()));
    set_member(&mut object, "description", json_optional_text(&x.description));
    set_member(&mut object, "data_type", type_reference_to_json(&x.data_type));
    set_member(&mut object, "required", json_bool(x.required));
    set_member(&mut object, "read_only", json_bool(x.read_only));
    set_member(&mut object, "write_only", json_bool(x.write_only));
    set_member(&mut object, "deprecated", json_bool(x.deprecated));
    let default_value = match &x.default_value {
        Some(value) => json_copy(value),
        None => json_null(),
    };
    set_member(&mut object, "default_value", default_value);
    object
}

/// The documents of a list of `Property`.
pub open spec fn property_list_json(list: Seq<crate::types::Property>) -> Seq<JsonModel> {
    list.map_values(|x: crate::types::Property| property_json(x))
}

/// The array of a list of `Property`.
pub fn property_list_to_json(list: &Vec<crate::types::Property>) -> (v: serde_json::Value)
    ensures
        json_model(v) == JsonModel::Array(property_list_json(list@)),
{
    let mut values: Vec<serde_json::Value> = Vec::new();
    let mut i: usize = 0;
    while i < list.len()
        invariant
            i <= list@.len(),
            values@.len() == i,
            forall|k: int|
                0 <= k < i ==> json_model(#[trigger] values@[k]) == property_json(list@[k]),
        decreases list@.len() - i,
    {
        values.push(property_to_json(&list[i]));
        i += 1;
    }
    assert(json_models(values@) =~= property_list_json(list@));
    json_array(values)
}


/// The document of a type definition.
pub open spec fn type_definition_json(x: crate::types::TypeDefinition) -> JsonModel {
    JsonModel::Object(
        Map::empty().insert(
            "name"@,
            JsonModel::Text(x.name@),
        ).insert(
            "description"@,
            optional_text(optional_view(x.description)),
        ).insert(
            "type_kind"@,
            type_kind_json(x.type_kind),
        ).insert(
            "properties"@,
            JsonModel::Array(property_list_json(x.properties@)),
        ).insert(
            "required"@,
            JsonModel::Array(text_documents(texts(x.required@))),
        ).insert(
            "additional_properties"@,
            JsonModel::Bool(x.additional_properties),
        ),
    )
}

/// The value of a type definition.
pub fn type_definition_to_json(x: &crate::types::TypeDefinition) -> (v: serde_json::Value)
    ensures
        json_model(v) == type_definition_json(*x),
{
    let mut object = json_object();
    set_member(&mut object, "name", json_text(x.name.as_str()));
    set_member(&mut object, "description", json_optional_text(&x.description));
    set_member(&mut object, "type_kind", type_kind_to_json(x.type_kind));
    set_member(&mut object, "properties", property_list_to_json(&x.properties));
    set_member(&mut object, "required", json_text_array(&x.required));
    set_member(&mut object, "additional_properties", json_bool(x.additional_properties));
    object
}

/// The documents of a list of `TypeDefinition`.
pub open spec fn type_definition_list_json(list: Seq<crate::types::TypeDefinition>) -> Seq<JsonModel> {
    list.map_values(|x: crate::types::TypeDefinition| type_definition_json(x))
}

/// The array of a list of `TypeDefinition`.
pub fn type_definition_list_to_json(list: &Vec<crate::types::TypeDefinition>) -> (v: serde_json::Value)
    ensures
        json_model(v) == JsonModel::Array(type_definition_list_json(list@)),
{
    let mut values: Vec<serde_json::Value> = Vec::new();
    let mut i: usize = 0;
    while i < list.len()
        invariant
            i <= list@.len(),
            values@.len() == i,
            forall|k: int|
                0 <= k < i ==> json_model(#[trigger] values@[k]) == type_definition_json(list@[k]),
        decreases list@.len() - i,
    {
        values.push(type_definition_to_json(&list[i]));
        i += 1;
    }
    assert(json_models(values@) =~= type_definition_list_json(list@));
    json_array(values)
}


/// The document of an authentication flow.
pub open spec fn auth_flow_json(x: crate::types::AuthFlow) -> JsonModel {
    JsonModel::Object(
        Map::empty().insert(
            "flow_type"@,
            JsonModel::Text(x.flow_type@),
        ).insert(
            "authorization_url"@,
            optional_text(optional_view(x.authorization_url)),
        ).insert(
            "token_url"@,
            optional_text(optional_view(x.token_url)),
        ).insert(
            "scopes"@,
            string_map_json(x.scopes@),
        ),
    )
}

/// The value of an authentication flow.
pub fn auth_flow_to_json(x: &crate::types::AuthFlow) -> (v: serde_json::Value)
    ensures
        json_model(v) == auth_flow_json(*x),
{
    let mut object = json_object();
    set_member(&mut object, "flow_type", json_text(x.flow_type.as_str()));
    set_member(&mut object, "authorization_url", json_optional_text(&x.authorization_url));
    set_member(&mut object, "token_url", json_optional_text(&x.token_url));
    set_member(&mut object, "scopes", string_map_to_json(&x.scopes));
    object
}

/// The documents of a list of `AuthFlow`.
pub open spec fn auth_flow_list_json(list: Seq<crate::types::AuthFlow>) -> Seq<JsonModel> {
    list.map_values(|x: crate::types::AuthFlow| auth_flow_json(x))
}

/// The array of a list of `AuthFlow`.
pub fn auth_flow_list_to_json(list: &Vec<crate::types::AuthFlow>) -> (v: serde_json::Value)
    ensures
        json_model(v) == JsonModel::Array(auth_flow_list_json(list@)),
{
    let mut values: Vec<serde_json::Value> = Vec::new();
    let mut i: usize = 0;
    while i < list.len()
        invariant
            i <= list@.len(),
            values@.len() == i,
            forall|k: int|
                0 <= k < i ==> json_model(#[trigger] values@[k]) == auth_flow_json(list@[k]),
        decreases list@.len() - i,
    {
        values.push(auth_flow_to_json(&list[i]));
        i += 1;
    }
    assert(json_models(values@) =~= auth_flow_list_json(list@));
    json_array(values)
}


/// The document of an API's authentication.
pub open spec fn authentication_spec_json(x: crate::types::AuthenticationSpec) -> JsonModel {
    JsonModel::Object(
        Map::empty().insert(
            "auth_type"@,
            spec_auth_type_json(x.auth_type),
        ).insert(
            "flows"@,
            JsonModel::Array(auth_flow_list_json(x.flows@)),
        ),
    )
}

/// The value of an API's authentication.
pub fn authentication_spec_to_json(x: &crate::types::AuthenticationSpec) -> (v: serde_json::Value)
    ensures
        json_model(v) == authentication_spec_json(*x),
{
    let mut object = json_object();
    set_member(&mut object, "auth_type", spec_auth_type_to_json(&x.auth_type));
    set_member(&mut object, "flows", auth_flow_list_to_json(&x.flows));
    object
}


/// The document of an API.
pub open spec fn api_spec_json(x: crate::types::ApiSpec) -> JsonModel {
    JsonModel::Object(
        Map::empty().insert(
            "name"@,
            JsonModel::Text(x.name@),
        ).insert(
            "version"@,
            JsonModel::Text(x.version@),
        ).insert(
            "description"@,
            optional_text(optional_view(x.description)),
        ).insert(
            "base_url"@,
            optional_text(optional_view(x.base_url)),
        ).insert(
            "operations"@,
            JsonModel::Array(operation_list_json(x.operations@)),
        ).insert(
            "types"@,
            JsonModel::Array(type_definition_list_json(x.types@)),
        ).insert(
            "authentication"@,
            (match x.authentication {
            Some(inner) => authentication_spec_json(inner),
            None => JsonModel::Null,
        }),
        ),
    )
}

/// The value of an API.
pub fn api_spec_to_json(x: &crate::types::ApiSpec) -> (v: serde_json::Value)
    ensures
        json_model(v) == api_spec_json(*x),
{
    let mut object = json_object();
    set_member(&mut object, "name", json_text(x.name.as_str()));
    set_member(&mut object, "version", json_text(x.version.as_str()));
    set_member(&mut object, "description", json_optional_text(&x.description));
    set_member(&mut object, "base_url", json_optional_text(&x.base_url));
    set_member(&mut object, "operations", operation_list_to_json(&x.operations));
    set_member(&mut object, "types", type_definition_list_to_json(&x.types));
    let authentication = match &x.authentication {
        Some(inner) => authentication_spec_to_json(inner),
        None => json_null(),
    };
    set_member(&mut object, "authentication", authentication);
    object
}


/// The document of the retry settings.
pub open spec fn retry_config_json(x: crate::config::RetryConfig) -> JsonModel {
    JsonModel::Object(
        Map::empty().insert(
            "enabled"@,
            JsonModel::Bool(x.enabled),
        ).insert(
            "max_attempts"@,
            number_json(x.max_attempts as nat),
        ).insert(
            "backoff_strategy"@,
            backoff_strategy_json(x.backoff_strategy),
        ).insert(
            "retry_on"@,
            JsonModel::Array(text_documents(texts(x.retry_on@))),
        ),
    )
}

/// The value of the retry settings.
pub fn retry_config_to_json(x: &crate::config::RetryConfig) -> (v: serde_json::Value)
    ensures
        json_model(v) == retry_config_json(*x),
{
    let mut object = json_object();
    set_member(&mut object, "enabled", json_bool(x.enabled));
    set_member(&mut object, "max_attempts", json_unsigned(x.max_attempts as u64));
    set_member(&mut object, "backoff_strategy", backoff_strategy_to_json(&x.backoff_strategy));
    set_member(&mut object, "retry_on", json_text_array(&x.retry_on));
    object
}


/// The document of the metrics settings.
pub open spec fn metrics_config_json(x: crate::config::MetricsConfig) -> JsonModel {
    JsonModel::Object(
        Map::empty().insert(
            "enabled"@,
            JsonModel::Bool(x.enabled),
        ).insert(
            "include_request_duration"@,
            JsonModel::Bool(x.include_request_duration),
        ).insert(
            "include_request_count"@,
            JsonModel::Bool(x.include_request_count),
        ).insert(
            "include_error_count"@,
            JsonModel::Bool(x.include_error_count),
        ).insert(
            "custom_labels"@,
            string_map_json(x.custom_labels@),
        ),
    )
}

/// The value of the metrics settings.
pub fn metrics_config_to_json(x: &crate::config::MetricsConfig) -> (v: serde_json::Value)
    ensures
        json_model(v) == metrics_config_json(*x),
{
    let mut object = json_object();
    set_member(&mut object, "enabled", json_bool(x.enabled));
    set_member(&mut object, "include_request_duration", json_bool(x.include_request_duration));
    set_member(&mut object, "include_request_count", json_bool(x.include_request_count));
    set_member(&mut object, "include_error_count", json_bool(x.include_error_count));
    set_member(&mut object, "custom_labels", string_map_to_json(&x.custom_labels));
    object
}


/// The document of the tracing settings.
pub open spec fn tracing_config_json(x: crate::config::TracingConfig) -> JsonModel {
    JsonModel::Object(
        Map::empty().insert(
            "enabled"@,
            JsonModel::Bool(x.enabled),
        ).insert(
            "include_request_body"@,
            JsonModel::Bool(x.include_request_body),
        ).insert(
            "include_response_body"@,
            JsonModel::Bool(x.include_response_body),
        ).insert(
            "sample_rate"@,
            thousandths_json(x.sample_rate),
        ),
    )
}

/// The value of the tracing settings.
pub fn tracing_config_to_json(x: &crate::config::TracingConfig) -> (v: serde_json::Value)
    ensures
        json_model(v) == tracing_config_json(*x),
{
    let mut object = json_object();
    set_member(&mut object, "enabled", json_bool(x.enabled));
    set_member(&mut object, "include_request_body", json_bool(x.include_request_body));
    set_member(&mut object, "include_response_body", json_bool(x.include_response_body));
    set_member(&mut object, "sample_rate", thousandths_to_json(x.sample_rate));
    object
}


/// The document of the telemetry settings.
pub open spec fn telemetry_config_json(x: crate::config::TelemetryConfig) -> JsonModel {
    JsonModel::Object(
        Map::empty().insert(
            "enabled"@,
            JsonModel::Bool(x.enabled),
        ).insert(
            "provider"@,
            telemetry_provider_json(x.provider),
        ).insert(
            "metrics"@,
            metrics_config_json(x.metrics),
        ).insert(
            "tracing"@,
            tracing_config_json(x.tracing),
        ),
    )
}

/// The value of the telemetry settings.
pub fn telemetry_config_to_json(x: &crate::config::TelemetryConfig) -> (v: serde_json::Value)
    ensures
        json_model(v) == telemetry_config_json(*x),
{
    let mut object = json_object();
    set_member(&mut object, "enabled", json_bool(x.enabled));
    set_member(&mut object, "provider", telemetry_provider_to_json(&x.provider));
    set_member(&mut object, "metrics", metrics_config_to_json(&x.metrics));
    set_member(&mut object, "tracing", tracing_config_to_json(&x.tracing));
    object
}


/// The document of the caching settings.
pub open spec fn caching_config_json(x: crate::config::CachingConfig) -> JsonModel {
    JsonModel::Object(
        Map::empty().insert(
            "enabled"@,
            JsonModel::Bool(x.enabled),
        ).insert(
            "default_ttl_seconds"@,
            number_json(x.default_ttl_seconds as nat),
        ).insert(
            "max_cache_size"@,
            number_json(x.max_cache_size as nat),
        ).insert(
            "cache_key_strategy"@,
            cache_key_strategy_json(x.cache_key_strategy),
        ),
    )
}

/// The value of the caching settings.
pub fn caching_config_to_json(x: &crate::config::CachingConfig) -> (v: serde_json::Value)
    ensures
        json_model(v) == caching_config_json(*x),
{
    let mut object = json_object();
    set_member(&mut object, "enabled", json_bool(x.enabled));
    set_member(&mut object, "default_ttl_seconds", json_unsigned(x.default_ttl_seconds));
    set_member(&mut object, "max_cache_size", json_unsigned(x.max_cache_size as u64));
    set_member(&mut object, "cache_key_strategy", cache_key_strategy_to_json(x.cache_key_strategy));
    object
}


/// The document of the feature settings.
pub open spec fn feature_config_json(x: crate::config::FeatureConfig) -> JsonModel {
    JsonModel::Object(
        Map::empty().insert(
            "retry"@,
            retry_config_json(x.retry),
        ).insert(
            "telemetry"@,
            telemetry_config_json(x.telemetry),
        ).insert(
            "caching"@,
            caching_config_json(x.caching),
        ).insert(
            "async_support"@,
            JsonModel::Bool(x.async_support),
        ),
    )
}

/// The value of the feature settings.
pub fn feature_config_to_json(x: &crate::config::FeatureConfig) -> (v: serde_json::Value)
    ensures
        json_model(v) == feature_config_json(*x),
{
    let mut object = json_object();
    set_member(&mut object, "retry", retry_config_to_json(&x.retry));
    set_member(&mut object, "telemetry", telemetry_config_to_json(&x.telemetry));
    set_member(&mut object, "caching", caching_config_to_json(&x.caching));
    set_member(&mut object, "async_support", json_bool(x.async_support));
    object
}


/// The document of the output settings.
pub open spec fn output_config_json(x: crate::config::OutputConfig) -> JsonModel {
    JsonModel::Object(
        Map::empty().insert(
            "package_name"@,
            optional_text(optional_view(x.package_name)),
        ).insert(
            "version"@,
            JsonModel::Text(x.version@),
        ).insert(
            "author"@,
            optional_text(optional_view(x.author)),
        ).insert(
            "license"@,
            optional_text(optional_view(x.license)),
        ).insert(
            "include_tests"@,
            JsonModel::Bool(x.include_tests),
        ).insert(
            "include_docs"@,
            JsonModel::Bool(x.include_docs),
        ).insert(
            "format_code"@,
            JsonModel::Bool(x.format_code),
        ),
    )
}

/// The value of the output settings.
pub fn output_config_to_json(x: &crate::config::OutputConfig) -> (v: serde_json::Value)
    ensures
        json_model(v) == output_config_json(*x),
{
    let mut object = json_object();
    set_member(&mut object, "package_name", json_optional_text(&x.package_name));
    set_member(&mut object, "version", json_text(x.version.as_str()));
    set_member(&mut object, "author", json_optional_text(&x.author));
    set_member(&mut object, "license", json_optional_text(&x.license));
    set_member(&mut object, "include_tests", json_bool(x.include_tests));
    set_member(&mut object, "include_docs", json_bool(x.include_docs));
    set_member(&mut object, "format_code", json_bool(x.format_code));
    object
}


/// The document of an OAuth flow.
pub open spec fn oauth_flow_json(x: crate::config::OAuthFlow) -> JsonModel {
    JsonModel::Object(
        Map::empty().insert(
            "flow_type"@,
            oauth_flow_type_json(x.flow_type),
        ).insert(
            "authorization_url"@,
            optional_text(optional_view(x.authorization_url)),
        ).insert(
            "token_url"@,
            optional_text(optional_view(x.token_url)),
        ).insert(
            "refresh_url"@,
            optional_text(optional_view(x.refresh_url)),
        ).insert(
            "scopes"@,
            string_map_json(x.scopes@),
        ),
    )
}

/// The value of an OAuth flow.
pub fn oauth_flow_to_json(x: &crate::config::OAuthFlow) -> (v: serde_json::Value)
    ensures
        json_model(v) == oauth_flow_json(*x),
{
    let mut object = json_object();
    set_member(&mut object, "flow_type", oauth_flow_type_to_json(x.flow_type));
    set_member(&mut object, "authorization_url", json_optional_text(&x.authorization_url));
    set_member(&mut object, "token_url", json_optional_text(&x.token_url));
    set_member(&mut object, "refresh_url", json_optional_text(&x.refresh_url));
    set_member(&mut object, "scopes", string_map_to_json(&x.scopes));
    object
}

/// The documents of a list of `OAuthFlow`.
pub open spec fn oauth_flow_list_json(list: Seq<crate::config::OAuthFlow>) -> Seq<JsonModel> {
    list.map_values(|x: crate::config::OAuthFlow| oauth_flow_json(x))
}

/// The array of a list of `OAuthFlow`.
pub fn oauth_flow_list_to_json(list: &Vec<crate::config::OAuthFlow>) -> (v: serde_json::Value)
    ensures
        json_model(v) == JsonModel::Array(oauth_flow_list_json(list@)),
{
    let mut values: Vec<serde_json::Value> = Vec::new();
    let mut i: usize = 0;
    while i < list.len()
        invariant
            i <= list@.len(),
            values@.len() == i,
            forall|k: int|
                0 <= k < i ==> json_model(#[trigger] values@[k]) == oauth_flow_json(list@[k]),
        decreases list@.len() - i,
    {
        values.push(oauth_flow_to_json(&list[i]));
        i += 1;
    }
    assert(json_models(values@) =~= oauth_flow_list_json(list@));
    json_array(values)
}


/// The document of the authentication settings.
pub open spec fn authentication_config_json(x: crate::config::AuthenticationConfig) -> JsonModel {
    JsonModel::Object(
        Map::empty().insert(
            "auth_type"@,
            config_auth_type_json(x.auth_type),
        ).insert(
            "location"@,
            auth_location_json(x.location),
        ).insert(
            "parameter_name"@,
            optional_text(optional_view(x.parameter_name)),
        ).insert(
            "scheme"@,
            optional_text(optional_view(x.scheme)),
        ).insert(
            "bearer_format"@,
            optional_text(optional_view(x.bearer_format)),
        ).insert(
            "flows"@,
            (match x.flows {
            Some(list) => JsonModel::Array(oauth_flow_list_json(list@)),
            None => JsonModel::Null,
        }),
        ).insert(
            "openid_connect_url"@,
            optional_text(optional_view(x.openid_connect_url)),
        ),
    )
}

/// The value of the authentication settings.
pub fn authentication_config_to_json(x: &crate::config::AuthenticationConfig) -> (v: serde_json::Value)
    ensures
        json_model(v) == authentication_config_json(*x),
{
    let mut object = json_object();
    set_member(&mut object, "auth_type", config_auth_type_to_json(&x.auth_type));
    set_member(&mut object, "location", auth_location_to_json(x.location));
    set_member(&mut object, "parameter_name", json_optional_text(&x.parameter_name));
    set_member(&mut object, "scheme", json_optional_text(&x.scheme));
    set_member(&mut object, "bearer_format", json_optional_text(&x.bearer_format));
    let flows = match &x.flows {
        Some(list) => oauth_flow_list_to_json(list),
        None => json_null(),
    };
    set_member(&mut object, "flows", flows);
    set_member(&mut object, "openid_connect_url", json_optional_text(&x.openid_connect_url));
    object
}


/// The document of a generator configuration.
pub open spec fn generator_config_json(x: crate::config::GeneratorConfig) -> JsonModel {
    JsonModel::Object(
        Map::empty().insert(
            "input_type"@,
            input_type_json(x.input_type),
        ).insert(
            "target_language"@,
            target_language_json(x.target_language),
        ).insert(
            "features"@,
            feature_config_json(x.features),
        ).insert(
            "output_config"@,
            output_config_json(x.output_config),
        ).insert(
            "authentication"@,
            (match x.authentication {
            Some(inner) => authentication_config_json(inner),
            None => JsonModel::Null,
        }),
        ).insert(
            "template_overrides"@,
            optional_text(optional_view(x.template_overrides)),
        ),
    )
}

/// The value of a generator configuration.
pub fn generator_config_to_json(x: &crate::config::GeneratorConfig) -> (v: serde_json::Value)
    ensures
        json_model(v) == generator_config_json(*x),
{
    let mut object = json_object();
    set_member(&mut object, "input_type", input_type_to_json(x.input_type));
    set_member(&mut object, "target_language", target_language_to_json(x.target_language));
    set_member(&mut object, "features", feature_config_to_json(&x.features));
    set_member(&mut object, "output_config", output_config_to_json(&x.output_config));
    let authentication = match &x.authentication {
        Some(inner) => authentication_config_to_json(inner),
        None => json_null(),
    };
    set_member(&mut object, "authentication", authentication);
    set_member(&mut object, "template_overrides", json_optional_text(&x.template_overrides));
    object
}


/// A copy of a list of texts.
pub fn copy_texts(list: &Vec<String>) -> (r: Vec<String>)
    ensures
        texts(r@) == texts(list@),
{
    let mut r: Vec<String> = Vec::new();
    let mut i: usize = 0;
    while i < list.len()
        invariant
            i <= list@.len(),
            r@.len() == i,
            forall|k: int| 0 <= k < i ==> (#[trigger] r@[k])@ == list@[k]@,
        decreases list@.len() - i,
    {
        r.push(list[i].clone());
        i += 1;
    }
    assert(texts(r@) =~= texts(list@));
    r
}

/// A copy of an optional text.
pub fn copy_optional_text(text: &Option<String>) -> (r: Option<String>)
    ensures
        optional_view(r) == optional_view(*text),
{
    match text {
        Some(t) => Some(t.clone()),
        None => None,
    }
}

/// A copy of a response header: it has the same document.
pub fn copy_header(x: &crate::types::Header) -> (r: crate::types::Header)
    ensures
        header_json(r) == header_json(*x),
{
    crate::types::Header {
        name: x.name.clone(),
        description: copy_optional_text(&x.description),
        data_type: x.data_type.duplicate(),
        required: x.required,
    }
}

/// A copy of a list of `Header`.
pub fn copy_header_list(list: &Vec<crate::types::Header>) -> (r: Vec<crate::types::Header>)
    ensures
        header_list_json(r@) == header_list_json(list@),
{
    let mut r: Vec<crate::types::Header> = Vec::new();
    let mut i: usize = 0;
    while i < list.len()
        invariant
            i <= list@.len(),
            r@.len() == i,
            forall|k: int| 0 <= k < i ==> header_json(#[trigger] r@[k]) == header_json(list@[k]),
        decreases list@.len() - i,
    {
        r.push(copy_header(&list[i]));
        i += 1;
    }
    assert(header_list_json(r@) =~= header_list_json(list@));
    r
}

/// A copy of a parameter: it has the same document.
pub fn copy_parameter(x: &crate::types::Parameter) -> (r: crate::types::Parameter)
    ensures
        parameter_json(r) == parameter_json(*x),
{
    crate::types::Parameter {
        name: x.name.clone(),
        description: copy_optional_text(&x.description),
        parameter_type: x.parameter_type,
        data_type: x.data_type.duplicate(),
        required: x.required,
        default_value: match &x.default_value {
            Some(value) => Some(json_copy(value)),
            None => None,
        },
    }
}

/// A copy of a list of `Parameter`.
pub fn copy_parameter_list(list: &Vec<crate::types::Parameter>) -> (r: Vec<crate::types::Parameter>)
    ensures
        parameter_list_json(r@) == parameter_list_json(list@),
{
    let mut r: Vec<crate::types::Parameter> = Vec::new();
    let mut i: usize = 0;
    while i < list.len()
        invariant
            i <= list@.len(),
            r@.len() == i,
            forall|k: int| 0 <= k < i ==> parameter_json(#[trigger] r@[k]) == parameter_json(list@[k]),
        decreases list@.len() - i,
    {
        r.push(copy_parameter(&list[i]));
        i += 1;
    }
    assert(parameter_list_json(r@) =~= parameter_list_json(list@));
    r
}

/// A copy of a response: it has the same document.
pub fn copy_response(x: &crate::types::Response) -> (r: crate::types::Response)
    ensures
        response_json(r) == response_json(*x),
{
    crate::types::Response {
        status_code: x.status_code,
        description: x.description.clone(),
        content_type: x.content_type.clone(),
        data_type: match &x.data_type {
            Some(inner) => Some(inner.duplicate()),
            None => None,
        },
        headers: copy_header_list(&x.headers),
    }
}

/// A copy of a list of `Response`.
pub fn copy_response_list(list: &Vec<crate::types::Response>) -> (r: Vec<crate::types::Response>)
    ensures
        response_list_json(r@) == response_list_json(list@),
{
    let mut r: Vec<crate::types::Response> = Vec::new();
    let mut i: usize = 0;
    while i < list.len()
        invariant
            i <= list@.len(),
            r@.len() == i,
            forall|k: int| 0 <= k < i ==> response_json(#[trigger] r@[k]) == response_json(list@[k]),
        decreases list@.len() - i,
    {
        r.push(copy_response(&list[i]));
        i += 1;
    }
    assert(response_list_json(r@) =~= response_list_json(list@));
    r
}

/// A copy of a cache directive: it has the same document.
pub fn copy_cache_operation(x: &crate::types::CacheOperation) -> (r: crate::types::CacheOperation)
    ensures
        cache_operation_json(r) == cache_operation_json(*x),
{
    crate::types::CacheOperation {
        enabled: x.enabled,
        ttl_seconds: x.ttl_seconds,
        cache_key: copy_optional_text(&x.cache_key),
        vary_on: copy_texts(&x.vary_on),
    }
}

/// A copy of an operation: it has the same document.
pub fn copy_operation(x: &crate::types::Operation) -> (r: crate::types::Operation)
    ensures
        operation_json(r) == operation_json(*x),
{
    crate::types::Operation {
        id: x.id.clone(),
        name: x.name.clone(),
        description: copy_optional_text(&x.description),
        method: x.method,
        path: x.path.clone(),
        parameters: copy_parameter_list(&x.parameters),
        request_body: match &x.request_body {
            Some(inner) => Some(inner.duplicate()),
            None => None,
        },
        responses: copy_response_list(&x.responses),
        tags: copy_texts(&x.tags),
        deprecated: x.deprecated,
        cache_config: match &x.cache_config {
            Some(inner) => Some(copy_cache_operation(inner)),
            None => None,
        },
    }
}

/// A copy of a list of `Operation`.
pub fn copy_operation_list(list: &Vec<crate::types::Operation>) -> (r: Vec<crate::types::Operation>)
    ensures
        operation_list_json(r@) == operation_list_json(list@),
{
    let mut r: Vec<crate::types::Operation> = Vec::new();
    let mut i: usize = 0;
    while i < list.len()
        invariant
            i <= list@.len(),
            r@.len() == i,
            forall|k: int| 0 <= k < i ==> operation_json(#[trigger] r@[k]) == operation_json(list@[k]),
        decreases list@.len() - i,
    {
        r.push(copy_operation(&list[i]));
        i += 1;
    }
    assert(operation_list_json(r@) =~= operation_list_json(list@));
    r
}

} // verus!
