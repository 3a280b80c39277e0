use client_sdk_generator::config::{FeatureConfig, TargetLanguage};
use client_sdk_generator::error::GeneratorError;
use client_sdk_generator::features::{FeatureGenerator, FeatureKind};
use client_sdk_generator::generator::{ArtifactKind, SdkGenerator};
use client_sdk_generator::config::{GeneratorConfig, InputType};
use client_sdk_generator::parsers::openapi::{
    ContentDescription, DocumentDescription, DocumentFormat, HeaderDescription, NamedSchema, ObjectDescription,
    OperationDescription, ParameterDescription, PathDescription, PropertyDescription,
    ResponseDescription, SchemaDescription, SchemaShape, SecurityDescription, StringFormat,
};
use client_sdk_generator::parsers::{GraphQLParser, GrpcParser, OpenApiParser};
use client_sdk_generator::types::{
    AuthenticationType, BaseType, HttpMethod, ParameterType, TypeKind,
};
use serde_json::Value;

fn schema(shape: SchemaShape) -> SchemaDescription {
    SchemaDescription {
        shape,
        nullable: false,
        description: None,
        read_only: false,
        write_only: false,
        deprecated: false,
        default_value: None,
    }
}

fn operation(method: HttpMethod, id: Option<&str>) -> OperationDescription {
    OperationDescription {
        method,
        operation_id: id.map(|s| s.to_string()),
        description: None,
        tags: Vec::new(),
        deprecated: false,
        parameters: Vec::new(),
        request_content: Vec::new(),
        responses: Vec::new(),
    }
}

#[test]
fn the_grpc_reader_gives_the_user_service() {
    let spec = GrpcParser::new().parse(&vec!["a.proto".to_string()]).unwrap();
    assert_eq!(spec.name, "UserService gRPC API");
    assert_eq!(spec.version, "1.0.0");
    assert_eq!(spec.description, Some("Generated from UserService gRPC proto files".to_string()));
    assert_eq!(spec.operations.len(), 17);
    let first = &spec.operations[0];
    assert_eq!(first.id, "UserService_RegisterUser");
    assert_eq!(first.name, "RegisterUser");
    assert_eq!(first.description, Some("Register a new user account".to_string()));
    assert_eq!(first.method, HttpMethod::Post);
    assert_eq!(first.path, "/userservice.v1.UserService/RegisterUser");
    assert_eq!(first.tags, vec!["UserService"]);
    assert_eq!(first.responses[0].status_code, Some(200));
    assert_eq!(first.responses[0].content_type, "application/grpc");
    match &first.request_body.as_ref().unwrap().base_type {
        BaseType::Object(name) => assert_eq!(name, "RegisterUserRequest"),
        _ => panic!("no request message"),
    }
    let current = &spec.operations[5];
    assert_eq!(current.name, "GetCurrentUser");
    match &current.request_body.as_ref().unwrap().base_type {
        BaseType::Object(name) => assert_eq!(name, "Empty"),
        _ => panic!("no request message"),
    }
    let last = &spec.operations[16];
    assert_eq!(last.name, "UpdateUserPreferences");
    match &last.responses[0].data_type.as_ref().unwrap().base_type {
        BaseType::Object(name) => assert_eq!(name, "UpdateUserPreferencesResponse"),
        _ => panic!("no response message"),
    }
    assert_eq!(spec.types.len(), 2);
    assert_eq!(spec.types[0].name, "SampleRequest");
    assert_eq!(spec.types[0].required, vec!["message"]);
    assert!(!spec.types[0].properties[0].read_only);
    assert_eq!(spec.types[1].name, "SampleResponse");
    assert_eq!(spec.types[1].properties[0].name, "result");
    assert!(spec.types[1].properties[0].read_only);
    assert!(GrpcParser::is_proto_file("a/b/user.proto"));
    assert!(!GrpcParser::is_proto_file(".proto"));
    assert!(!GrpcParser::is_proto_file("a/.proto"));
    assert!(!GrpcParser::is_proto_file("user.proto.txt"));
}

#[test]
fn the_graphql_reader_gives_the_sample_api() {
    let spec = GraphQLParser::new().parse("type Query { x: Int }").unwrap();
    assert_eq!(spec.name, "GraphQL API");
    assert_eq!(spec.base_url, Some("/graphql".to_string()));
    assert_eq!(spec.operations.len(), 1);
    let query = &spec.operations[0];
    assert_eq!(query.id, "query_sample");
    assert_eq!(query.name, "sample");
    assert_eq!(query.path, "/graphql");
    assert_eq!(query.parameters.len(), 1);
    assert_eq!(query.parameters[0].name, "query");
    assert!(query.parameters[0].required);
    assert_eq!(query.tags, vec!["Query"]);
    assert_eq!(spec.types.len(), 2);
    assert_eq!(spec.types[0].name, "GraphQLRequest");
    assert!(!spec.types[0].additional_properties);
    assert_eq!(spec.types[1].name, "GraphQLResponse");
    assert!(spec.types[1].additional_properties);
    assert!(spec.types[1].required.is_empty());
    assert!(!spec.types[1].properties[0].required);
    match &spec.types[1].properties[0].data_type.base_type {
        BaseType::Object(name) => assert_eq!(name, "Object"),
        _ => panic!("not an object"),
    }
}

#[test]
fn schemas_as_type_references() {
    let parser = OpenApiParser::new();
    let reference = |s: &SchemaDescription| parser.parse_schema_to_type_reference(s).unwrap();
    assert!(matches!(reference(&schema(SchemaShape::Text(StringFormat::Other))).base_type, BaseType::String));
    assert!(matches!(reference(&schema(SchemaShape::Text(StringFormat::Date))).base_type, BaseType::Date));
    assert!(matches!(
        reference(&schema(SchemaShape::Text(StringFormat::DateTime))).base_type,
        BaseType::DateTime
    ));
    assert!(matches!(reference(&schema(SchemaShape::Text(StringFormat::Binary))).base_type, BaseType::Binary));
    assert!(matches!(reference(&schema(SchemaShape::Integer { int64: true })).base_type, BaseType::Long));
    assert!(matches!(reference(&schema(SchemaShape::Integer { int64: false })).base_type, BaseType::Integer));
    assert!(matches!(reference(&schema(SchemaShape::Number { double: true })).base_type, BaseType::Double));
    assert!(matches!(reference(&schema(SchemaShape::Number { double: false })).base_type, BaseType::Float));
    assert!(matches!(reference(&schema(SchemaShape::Boolean)).base_type, BaseType::Boolean));
    assert!(matches!(reference(&schema(SchemaShape::OneOf)).base_type, BaseType::Any));
    assert!(matches!(reference(&schema(SchemaShape::Other)).base_type, BaseType::Any));
    let mut nullable = schema(SchemaShape::Boolean);
    nullable.nullable = true;
    let t = reference(&nullable);
    assert!(t.nullable && !t.array);
    let object = schema(SchemaShape::Object(ObjectDescription {
        properties: Vec::new(),
        required: Vec::new(),
        additional_properties: false,
    }));
    match reference(&object).base_type {
        BaseType::Object(name) => assert_eq!(name, "Object"),
        _ => panic!("not an object"),
    }
    let mut list = schema(SchemaShape::Array(Some(Box::new(nullable))));
    list.nullable = true;
    let t = reference(&list);
    assert!(t.array && !t.nullable);
    match t.base_type {
        BaseType::Array(inner) => {
            assert!(matches!(inner.base_type, BaseType::Boolean));
            assert!(inner.nullable);
        }
        _ => panic!("not an array"),
    }
    let mut bare = schema(SchemaShape::Array(None));
    bare.nullable = true;
    let t = reference(&bare);
    assert!(t.array && t.nullable);
    match t.base_type {
        BaseType::Array(inner) => assert!(matches!(inner.base_type, BaseType::String)),
        _ => panic!("not an array"),
    }
}

#[test]
fn a_document_as_an_api() {
    let mut age = schema(SchemaShape::Integer { int64: false });
    age.description = Some("in years".to_string());
    age.read_only = true;
    age.default_value = Some(Value::from(3));
    let pet = SchemaDescription {
        description: Some("A pet".to_string()),
        ..schema(SchemaShape::Object(ObjectDescription {
            properties: vec![
                PropertyDescription { name: "name".to_string(), schema: Some(schema(SchemaShape::Text(StringFormat::Other))) },
                PropertyDescription { name: "owner".to_string(), schema: None },
                PropertyDescription { name: "age".to_string(), schema: Some(age) },
            ],
            required: vec!["name".to_string()],
            additional_properties: true,
        }))
    };
    let mut list = operation(HttpMethod::Get, Some("listPets"));
    list.description = Some("Lists".to_string());
    list.tags = vec!["pets".to_string()];
    list.deprecated = true;
    list.parameters = vec![ParameterDescription {
        name: "limit".to_string(),
        description: Some("how many".to_string()),
        place: ParameterType::Query,
        required: true,
    }];
    list.request_content = vec![
        ContentDescription { media_type: "text/plain".to_string(), schema: Some(schema(SchemaShape::OneOf)) },
        ContentDescription { media_type: "application/json".to_string(), schema: Some(schema(SchemaShape::Boolean)) },
    ];
    list.responses = vec![ResponseDescription {
        status_code: Some(200),
        description: "ok".to_string(),
        content: vec![ContentDescription {
            media_type: "application/json".to_string(),
            schema: Some(schema(SchemaShape::Array(None))),
        }],
        headers: vec![HeaderDescription { name: "X-Next".to_string(), description: None }],
    }];
    let document = DocumentDescription {
        title: "Pets".to_string(),
        version: "2".to_string(),
        description: Some("d".to_string()),
        servers: vec!["https://a".to_string(), "https://b".to_string()],
        paths: vec![
            PathDescription {
                path: "/pets".to_string(),
                operations: vec![list, operation(HttpMethod::Post, None)],
            },
            PathDescription { path: "/none".to_string(), operations: Vec::new() },
            PathDescription {
                path: "/pets/{petId}/toys".to_string(),
                operations: vec![operation(HttpMethod::Delete, None)],
            },
        ],
        schemas: vec![
            NamedSchema { name: "Ref".to_string(), schema: None },
            NamedSchema { name: "Pet".to_string(), schema: Some(pet) },
            NamedSchema { name: "Ids".to_string(), schema: Some(schema(SchemaShape::Array(None))) },
            NamedSchema { name: "Either".to_string(), schema: Some(schema(SchemaShape::OneOf)) },
            NamedSchema { name: "Both".to_string(), schema: Some(schema(SchemaShape::AllOf)) },
            NamedSchema { name: "Text".to_string(), schema: Some(schema(SchemaShape::Text(StringFormat::Date))) },
        ],
        security_schemes: vec![
            SecurityDescription::Http { scheme: "digest".to_string() },
            SecurityDescription::ApiKey,
        ],
    };
    let spec = OpenApiParser::new().parse(&document).unwrap();
    assert_eq!(spec.name, "Pets");
    assert_eq!(spec.version, "2");
    assert_eq!(spec.description, Some("d".to_string()));
    assert_eq!(spec.base_url, Some("https://a".to_string()));
    let ids: Vec<&str> = spec.operations.iter().map(|o| o.id.as_str()).collect();
    assert_eq!(ids, vec!["listPets", "post__pets", "delete__pets_petId_toys"]);
    let list = &spec.operations[0];
    assert_eq!(list.name, "listPets");
    assert_eq!(list.method, HttpMethod::Get);
    assert_eq!(list.path, "/pets");
    assert_eq!(list.description, Some("Lists".to_string()));
    assert_eq!(list.tags, vec!["pets"]);
    assert!(list.deprecated);
    assert!(list.cache_config.is_none());
    assert_eq!(list.parameters[0].name, "limit");
    assert_eq!(list.parameters[0].parameter_type, ParameterType::Query);
    assert!(list.parameters[0].required);
    assert!(matches!(list.parameters[0].data_type.base_type, BaseType::String));
    assert!(matches!(list.request_body.as_ref().unwrap().base_type, BaseType::Boolean));
    assert_eq!(list.responses[0].status_code, Some(200));
    assert_eq!(list.responses[0].content_type, "application/json");
    assert!(list.responses[0].data_type.as_ref().unwrap().array);
    assert_eq!(list.responses[0].headers[0].name, "X-Next");
    assert!(!list.responses[0].headers[0].required);
    assert_eq!(spec.operations[2].path, "/pets/{petId}/toys");
    let names: Vec<&str> = spec.types.iter().map(|t| t.name.as_str()).collect();
    assert_eq!(names, vec!["Pet", "Ids", "Either", "Both", "Text"]);
    let kinds: Vec<TypeKind> = spec.types.iter().map(|t| t.type_kind).collect();
    assert_eq!(
        kinds,
        vec![TypeKind::Object, TypeKind::Array, TypeKind::Union, TypeKind::Interface, TypeKind::Object]
    );
    let pet = &spec.types[0];
    assert_eq!(pet.description, Some("A pet".to_string()));
    assert_eq!(pet.required, vec!["name"]);
    assert!(pet.additional_properties);
    assert_eq!(pet.properties.len(), 2);
    assert_eq!(pet.properties[0].name, "name");
    assert!(pet.properties[0].required);
    assert_eq!(pet.properties[1].name, "age");
    assert!(!pet.properties[1].required);
    assert!(pet.properties[1].read_only);
    assert_eq!(pet.properties[1].description, Some("in years".to_string()));
    assert_eq!(pet.properties[1].default_value, Some(Value::from(3)));
    assert!(matches!(pet.properties[1].data_type.base_type, BaseType::Integer));
    match spec.authentication.unwrap().auth_type {
        AuthenticationType::Custom(name) => assert_eq!(name, "digest"),
        other => panic!("unexpected: {:?}", other),
    }
}

#[test]
fn documents_at_the_edges() {
    let parser = OpenApiParser::new();
    let empty = DocumentDescription {
        title: String::new(),
        version: String::new(),
        description: None,
        servers: Vec::new(),
        paths: Vec::new(),
        schemas: Vec::new(),
        security_schemes: Vec::new(),
    };
    let spec = parser.convert_to_api_spec(&empty).unwrap();
    assert!(spec.base_url.is_none());
    assert!(spec.operations.is_empty() && spec.types.is_empty());
    assert!(spec.authentication.is_none());
    let auth = |d: SecurityDescription| parser.parse_security_scheme(&d).unwrap().auth_type;
    assert!(matches!(auth(SecurityDescription::ApiKey), AuthenticationType::ApiKey));
    assert!(matches!(auth(SecurityDescription::OAuth2), AuthenticationType::OAuth2));
    assert!(matches!(auth(SecurityDescription::OpenIdConnect), AuthenticationType::OpenIdConnect));
    assert!(matches!(
        auth(SecurityDescription::Http { scheme: "basic".to_string() }),
        AuthenticationType::Basic
    ));
    assert!(matches!(
        auth(SecurityDescription::Http { scheme: "bearer".to_string() }),
        AuthenticationType::Bearer
    ));
    assert!(matches!(
        auth(SecurityDescription::Http { scheme: "Bearer".to_string() }),
        AuthenticationType::Custom(_)
    ));
    let methods = [
        (HttpMethod::Get, "get_"),
        (HttpMethod::Put, "put_"),
        (HttpMethod::Patch, "patch_"),
        (HttpMethod::Head, "head_"),
        (HttpMethod::Options, "options_"),
        (HttpMethod::Trace, "trace_"),
    ];
    let mut other_media = operation(HttpMethod::Get, Some("x"));
    other_media.request_content = vec![
        ContentDescription { media_type: "application/xml".to_string(), schema: Some(schema(SchemaShape::Boolean)) },
        ContentDescription { media_type: "application/json".to_string(), schema: None },
        ContentDescription { media_type: "application/json".to_string(), schema: Some(schema(SchemaShape::Boolean)) },
    ];
    assert!(parser.parse_operation("/x", &other_media).unwrap().request_body.is_none());
    for (method, id) in methods {
        assert_eq!(parser.parse_operation("", &operation(method, None)).unwrap().id, id);
    }
    assert_eq!(OpenApiParser::format_for_extension(Some("json")), DocumentFormat::Json);
    assert_eq!(OpenApiParser::format_for_extension(Some("yaml")), DocumentFormat::Yaml);
    assert_eq!(OpenApiParser::format_for_extension(Some("JSON")), DocumentFormat::Yaml);
    assert_eq!(OpenApiParser::format_for_extension(None), DocumentFormat::Yaml);
}

#[test]
fn failures_say_what_failed() {
    assert_eq!(
        GeneratorError::TemplateNotFound { name: "client".to_string() }.to_string(),
        "Template not found: client"
    );
    let wrapped = GeneratorError::TemplateRender { name: "model".to_string(), message: "bad".to_string() }
        .for_artifact("src/models/pet.rs")
        .for_artifact("models");
    assert_eq!(
        wrapped.to_string(),
        "Failed to generate models: Failed to generate src/models/pet.rs: Failed to render template: model: bad"
    );
    assert!(!wrapped.is_template_not_found());
    assert_eq!(
        GeneratorError::TemplateSyntax { name: "a".to_string(), message: "b".to_string() }.to_string(),
        "Failed to register template: a: b"
    );
    assert_eq!(GeneratorError::Io { message: "io".to_string() }.to_string(), "io");
    assert_eq!(GeneratorError::Mapping { message: "m".to_string() }.to_string(), "m");
    assert_eq!(GeneratorError::Configuration { message: "c".to_string() }.to_string(), "c");
}

#[test]
fn synthesis_by_kind_and_paths_by_kind() {
    let features = FeatureConfig::default();
    let generator = FeatureGenerator::new(TargetLanguage::Python);
    let retry = generator.synthesize(FeatureKind::Retry, &features);
    assert_eq!(retry.code, generator.generate_retry_code(&features.retry).code);
    assert_eq!(retry.dependencies, vec!["tenacity>=8.2.0"]);
    let telemetry = generator.synthesize(FeatureKind::Telemetry, &features);
    assert_eq!(telemetry.dependencies, vec!["prometheus-client>=0.19.0"]);
    let caching = generator.synthesize(FeatureKind::Caching, &features);
    assert_eq!(caching.dependencies, vec!["cachetools>=5.3.0"]);
    assert!(caching.code.contains("TTLCache(maxsize=1000, ttl=300)"));
    let sdk = SdkGenerator::new(GeneratorConfig::default_for(InputType::OpenApi, TargetLanguage::Go)).unwrap();
    assert_eq!(sdk.artifact_path(ArtifactKind::Client, ""), "client_sdk/client.go");
    assert_eq!(sdk.artifact_path(ArtifactKind::AsyncClient, ""), "client_sdk/async_client.go");
    assert_eq!(sdk.artifact_path(ArtifactKind::Config, ""), "client_sdk/config.go");
    assert_eq!(sdk.artifact_path(ArtifactKind::Model, "PetOwner"), "client_sdk/models/pet_owner.go");
    assert_eq!(sdk.artifact_path(ArtifactKind::Manifest, ""), "go.mod");
    assert_eq!(sdk.artifact_path(ArtifactKind::Documentation, "api.md"), "docs/api.md");
    assert_eq!(sdk.artifact_path(ArtifactKind::Test, ""), "tests/client_test.go");
    assert_eq!(sdk.language_template_directory("templates"), "templates/go/rest");
}
