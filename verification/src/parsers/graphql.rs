//! The reader of GraphQL schemas.
//!
//! Schemas are not read yet. Every input gives the description of one
//! sample query with the types of its request and response.

use vstd::prelude::*;
use crate::error::GeneratorError;
use crate::parsers::sample::{is_sample_type, is_sample_type_of, sample_type, sample_type_of};
use crate::text::texts;
use crate::types::{
    ApiSpec, BaseShape, HttpMethod, Operation, Parameter, ParameterType, Response,
    TypeReference,
};

verus! {

/// Whether `op` is the sample query: a POST to `/graphql` with the query
/// string as its one, required parameter.
pub open spec fn is_sample_query(op: Operation) -> bool {
    &&& op.id@ == "query_sample"@
    &&& op.name@ == "sample"@
    &&& op.description matches Some(d) && d@ == "Sample GraphQL query"@
    &&& op.method == HttpMethod::Post
    &&& op.path@ == "/graphql"@
    &&& op.parameters@.len() == 1
    &&& op.parameters@[0].name@ == "query"@
    &&& op.parameters@[0].description matches Some(d) && d@ == "GraphQL query string"@
    &&& op.parameters@[0].parameter_type == ParameterType::Query
    &&& op.parameters@[0].data_type@ == TypeReference::plain(BaseShape::String)
    &&& op.parameters@[0].required
    &&& op.parameters@[0].default_value is None
    &&& op.request_body matches Some(t) && t@ == TypeReference::plain(
        BaseShape::Object("GraphQLRequest"@),
    )
    &&& op.responses@.len() == 1
    &&& op.responses@[0].status_code == Some(200u16)
    &&& op.responses@[0].description@ == "GraphQL response"@
    &&& op.responses@[0].content_type@ == "application/json"@
    &&& op.responses@[0].data_type matches Some(t) && t@ == TypeReference::plain(
        BaseShape::Object("GraphQLResponse"@),
    )
    &&& op.responses@[0].headers@.len() == 0
    &&& texts(op.tags@) == seq!["Query"@]
    &&& !op.deprecated
    &&& op.cache_config is None
}

/// Whether `spec` describes the sample GraphQL API.
pub open spec fn is_sample_graphql(spec: ApiSpec) -> bool {
    &&& spec.name@ == "GraphQL API"@
    &&& spec.version@ == "1.0.0"@
    &&& spec.description matches Some(d) && d@ == "Generated from GraphQL schema"@
    &&& spec.base_url matches Some(u) && u@ == "/graphql"@
    &&& spec.authentication is None
    &&& spec.operations@.len() == 1
    &&& is_sample_query(spec.operations@[0])
    &&& spec.types@.len() == 2
    &&& is_sample_type(
        spec.types@[0],
        "GraphQLRequest"@,
        "GraphQL request object"@,
        "query"@,
        "GraphQL query string"@,
        true,
        false,
    )
    &&& !spec.types@[0].additional_properties
    &&& is_sample_type_of(
        spec.types@[1],
        "GraphQLResponse"@,
        "GraphQL response object"@,
        "data"@,
        "Response data"@,
        BaseShape::Object("Object"@),
        false,
        true,
    )
    &&& spec.types@[1].additional_properties
}

/// Reads GraphQL schemas.
#[derive(Debug, Clone, Copy, PartialEq, Eq, Structural)]
pub struct GraphQLParser;

impl GraphQLParser {
    pub fn new() -> (r: GraphQLParser) {
        GraphQLParser
    }

    /// The API that the schema text describes. For now that is the sample
    /// API, whatever the text holds.
    pub fn parse(&self, schema: &str) -> (r: Result<ApiSpec, GeneratorError>)
        ensures
            r matches Ok(spec) && is_sample_graphql(spec),
    {
        let mut api_spec = ApiSpec::new(String::from_str("GraphQL API"), String::from_str("1.0.0"));
        api_spec.description = Some(String::from_str("Generated from GraphQL schema"));
        api_spec.base_url = Some(String::from_str("/graphql"));
        let mut parameters: Vec<Parameter> = Vec::new();
        parameters.push(
            Parameter {
                name: String::from_str("query"),
                description: Some(String::from_str("GraphQL query string")),
                parameter_type: ParameterType::Query,
                data_type: TypeReference::string(),
                required: true,
                default_value: None,
            },
        );
        let mut responses: Vec<Response> = Vec::new();
        responses.push(
            Response {
                status_code: Some(200),
                description: String::from_str("GraphQL response"),
                content_type: String::from_str("application/json"),
                data_type: Some(TypeReference::object(String::from_str("GraphQLResponse"))),
                headers: Vec::new(),
            },
        );
        let mut tags: Vec<String> = Vec::new();
        tags.push(String::from_str("Query"));
        assert(texts(tags@) =~= seq!["Query"@]);
        api_spec.add_operation(
            Operation {
                id: String::from_str("query_sample"),
                name: String::from_str("sample"),
                description: Some(String::from_str("Sample GraphQL query")),
                method: HttpMethod::Post,
                path: String::from_str("/graphql"),
                parameters,
                request_body: Some(TypeReference::object(String::from_str("GraphQLRequest"))),
                responses,
                tags,
                deprecated: false,
                cache_config: None,
            },
        );
        api_spec.add_type(
            sample_type(
                "GraphQLRequest",
                "GraphQL request object",
                "query",
                "GraphQL query string",
                true,
                false,
            ),
        );
        let mut response_type = sample_type_of(
            "GraphQLResponse",
            "GraphQL response object",
            "data",
            "Response data",
            TypeReference::object(String::from_str("Object")),
            false,
            true,
        );
        response_type.additional_properties = true;
        api_spec.add_type(response_type);
        Ok(api_spec)
    }
}

impl Default for GraphQLParser {
    fn default() -> (r: GraphQLParser) {
        GraphQLParser
    }
}

} // verus!
