use client_sdk_generator::config::{
    BackoffStrategy, CachingConfig, ConfigFormat, FeatureConfig, GeneratorConfig, InputType,
    RetryConfig, TargetLanguage, Thousandths,
};
use client_sdk_generator::error::GeneratorError;
use client_sdk_generator::string_map::StringMap;
use client_sdk_generator::types::{
    ApiSpec, BaseType, HttpMethod, Operation, TypeDefinition, TypeKind, TypeReference,
};
use std::str::FromStr;

#[test]
fn test_config_default() {
    let config = GeneratorConfig::default_for(InputType::OpenApi, TargetLanguage::Java);

    assert!(matches!(config.input_type, InputType::OpenApi));
    assert!(matches!(config.target_language, TargetLanguage::Java));
    assert!(config.features.async_support);
}

#[test]
fn test_target_language_from_str() {
    assert!(matches!(TargetLanguage::from_str("java").unwrap(), TargetLanguage::Java));
    assert!(matches!(TargetLanguage::from_str("Python").unwrap(), TargetLanguage::Python));
    assert!(matches!(TargetLanguage::from_str("RUST").unwrap(), TargetLanguage::Rust));

    assert!(TargetLanguage::from_str("invalid").is_err());
}

#[test]
fn test_api_spec_creation() {
    let mut api_spec = ApiSpec::new("Test API".to_string(), "1.0.0".to_string());

    assert_eq!(api_spec.name, "Test API");
    assert_eq!(api_spec.version, "1.0.0");
    assert_eq!(api_spec.operations.len(), 0);
    assert_eq!(api_spec.types.len(), 0);

    let operation = Operation {
        id: "test_op".to_string(),
        name: "testOp".to_string(),
        description: None,
        method: HttpMethod::Get,
        path: "/test".to_string(),
        parameters: Vec::new(),
        request_body: None,
        responses: Vec::new(),
        tags: Vec::new(),
        deprecated: false,
        cache_config: None,
    };

    api_spec.add_operation(operation);
    assert_eq!(api_spec.operations.len(), 1);

    let type_def = TypeDefinition {
        name: "TestType".to_string(),
        description: None,
        type_kind: TypeKind::Object,
        properties: Vec::new(),
        required: Vec::new(),
        additional_properties: false,
    };

    api_spec.add_type(type_def);
    assert_eq!(api_spec.types.len(), 1);
}

#[test]
fn test_type_reference_builders() {
    let string_ref = TypeReference::string();
    assert!(matches!(string_ref.base_type, BaseType::String));
    assert!(!string_ref.nullable);
    assert!(!string_ref.array);

    let nullable_string = TypeReference::string().nullable();
    assert!(nullable_string.nullable);

    let array_string = TypeReference::array(TypeReference::string());
    assert!(array_string.array);
}

#[test]
fn other_builders_set_their_base() {
    assert!(matches!(TypeReference::integer().base_type, BaseType::Integer));
    assert!(matches!(TypeReference::boolean().base_type, BaseType::Boolean));
    match TypeReference::object("Pet".to_string()).base_type {
        BaseType::Object(name) => assert_eq!(name, "Pet"),
        _ => panic!("not an object reference"),
    }
    match TypeReference::array(TypeReference::integer()).base_type {
        BaseType::Array(inner) => assert!(matches!(inner.base_type, BaseType::Integer)),
        _ => panic!("not an array"),
    }
}

#[test]
fn a_copy_of_a_reference_keeps_every_part() {
    let reference = TypeReference {
        base_type: BaseType::MapOf(
            Box::new(TypeReference::string()),
            Box::new(TypeReference::object("Pet".to_string()).nullable()),
        ),
        nullable: true,
        array: false,
        generic_parameters: vec![TypeReference::integer()],
    };
    let copy = reference.clone();
    assert!(copy.nullable);
    assert!(!copy.array);
    assert_eq!(copy.generic_parameters.len(), 1);
    match copy.base_type {
        BaseType::MapOf(key, value) => {
            assert!(matches!(key.base_type, BaseType::String));
            assert!(value.nullable);
            match value.base_type {
                BaseType::Object(name) => assert_eq!(name, "Pet"),
                _ => panic!("value is not an object reference"),
            }
        }
        _ => panic!("not a map"),
    }
}

#[test]
fn lookups_find_the_first_match() {
    let mut api_spec = ApiSpec::new("A".to_string(), "1".to_string());
    for (id, path) in [("a", "/1"), ("b", "/2"), ("a", "/3")] {
        api_spec.add_operation(Operation {
            id: id.to_string(),
            name: id.to_string(),
            description: None,
            method: HttpMethod::Get,
            path: path.to_string(),
            parameters: Vec::new(),
            request_body: None,
            responses: Vec::new(),
            tags: Vec::new(),
            deprecated: false,
            cache_config: None,
        });
    }
    assert_eq!(api_spec.get_operation_by_id("a").unwrap().path, "/1");
    assert_eq!(api_spec.get_operation_by_id("b").unwrap().path, "/2");
    assert!(api_spec.get_operation_by_id("c").is_none());
    assert!(api_spec.get_type_by_name("T").is_none());
    api_spec.add_type(TypeDefinition {
        name: "T".to_string(),
        description: Some("first".to_string()),
        type_kind: TypeKind::Object,
        properties: Vec::new(),
        required: Vec::new(),
        additional_properties: false,
    });
    assert_eq!(api_spec.get_type_by_name("T").unwrap().description, Some("first".to_string()));
}

#[test]
fn names_of_methods_languages_and_protocols() {
    assert_eq!(HttpMethod::Get.to_string(), "GET");
    assert_eq!(HttpMethod::Options.to_string(), "OPTIONS");
    assert_eq!(HttpMethod::Trace.to_string(), "TRACE");
    assert_eq!(TargetLanguage::TypeScript.to_string(), "TypeScript");
    assert_eq!(TargetLanguage::Go.key_name(), "go");
    assert_eq!(InputType::OpenApi.to_string(), "OpenAPI");
    assert_eq!(InputType::Grpc.to_string(), "gRPC");
    assert_eq!(InputType::OpenApi.directory_name(), "rest");
    assert_eq!(InputType::GraphQL.directory_name(), "graphql");
}

#[test]
fn an_unknown_language_is_a_configuration_error() {
    match TargetLanguage::parse("Cobol") {
        Err(GeneratorError::Configuration { message }) => {
            assert_eq!(message, "Unsupported target language: Cobol")
        }
        other => panic!("unexpected: {:?}", other),
    }
    assert_eq!(TargetLanguage::parse("PY").unwrap(), TargetLanguage::Python);
    assert_eq!(TargetLanguage::parse("rs").unwrap(), TargetLanguage::Rust);
    assert_eq!(TargetLanguage::from_lowercase_name("PY"), None);
    assert!(TargetLanguage::parse("").is_err());
}

#[test]
fn configuration_files_are_yaml_by_extension_only() {
    assert_eq!(ConfigFormat::for_extension(Some("yaml")), ConfigFormat::Yaml);
    assert_eq!(ConfigFormat::for_extension(Some("yml")), ConfigFormat::Yaml);
    assert_eq!(ConfigFormat::for_extension(Some("json")), ConfigFormat::Json);
    assert_eq!(ConfigFormat::for_extension(Some("YAML")), ConfigFormat::Json);
    assert_eq!(ConfigFormat::for_extension(None), ConfigFormat::Json);
}

#[test]
fn defaults() {
    let retry = RetryConfig::default();
    assert!(retry.enabled);
    assert_eq!(retry.max_attempts, 3);
    assert_eq!(
        retry.backoff_strategy,
        BackoffStrategy::Exponential {
            initial_delay_ms: 100,
            multiplier: Thousandths { count: 2000 },
            max_delay_ms: 5000
        }
    );
    assert_eq!(retry.retry_on, vec!["5xx", "408", "429"]);
    let caching = CachingConfig::default();
    assert!(!caching.enabled);
    assert_eq!(caching.default_ttl_seconds, 300);
    assert_eq!(caching.max_cache_size, 1000);
    let features = FeatureConfig::default();
    assert!(features.telemetry.enabled);
    assert_eq!(features.telemetry.tracing.sample_rate, Thousandths { count: 1000 });
    assert_eq!(features.telemetry.metrics.custom_labels.len(), 0);
    let config = GeneratorConfig::default_for(InputType::Grpc, TargetLanguage::Go);
    assert_eq!(config.output_config.version, "1.0.0");
    assert_eq!(config.output_config.license, Some("MIT".to_string()));
    assert!(config.output_config.package_name.is_none());
    assert!(config.output_config.include_tests);
    assert!(config.authentication.is_none());
    assert_eq!(Thousandths::whole(2), Thousandths { count: 2000 });
}

#[test]
fn exponential_backoff_doubles_up_to_the_cap() {
    let strategy = BackoffStrategy::Exponential {
        initial_delay_ms: 100,
        multiplier: Thousandths { count: 2000 },
        max_delay_ms: 5000,
    };
    let delays: Vec<Option<u64>> = (0..5).map(|n| strategy.delay_ms(n)).collect();
    assert_eq!(delays, vec![Some(100), Some(200), Some(400), Some(800), Some(1600)]);
    assert_eq!(strategy.delay_ms(5), Some(3200));
    assert_eq!(strategy.delay_ms(6), Some(5000));
    assert_eq!(strategy.delay_ms(4_000_000_000), Some(5000));
}

#[test]
fn backoff_formulas() {
    let fixed = BackoffStrategy::Fixed { delay_ms: 250 };
    assert_eq!(fixed.delay_ms(0), Some(250));
    assert_eq!(fixed.delay_ms(17), Some(250));
    let linear = BackoffStrategy::Linear { initial_delay_ms: 100, increment_ms: 50 };
    assert_eq!(linear.delay_ms(0), Some(100));
    assert_eq!(linear.delay_ms(3), Some(250));
    let huge = BackoffStrategy::Linear { initial_delay_ms: 1, increment_ms: u64::MAX };
    assert_eq!(huge.delay_ms(0), Some(1));
    assert_eq!(huge.delay_ms(1), None);
    let slow = BackoffStrategy::Exponential {
        initial_delay_ms: 1000,
        multiplier: Thousandths { count: 1500 },
        max_delay_ms: 10_000,
    };
    assert_eq!(slow.delay_ms(1), Some(1500));
    assert_eq!(slow.delay_ms(2), Some(2250));
    assert_eq!(slow.delay_ms(3), Some(3375));
    assert_eq!(slow.delay_ms(4), Some(5062));
    let shrinking = BackoffStrategy::Exponential {
        initial_delay_ms: 10_000,
        multiplier: Thousandths { count: 500 },
        max_delay_ms: 5000,
    };
    assert_eq!(shrinking.delay_ms(0), Some(5000));
    assert_eq!(shrinking.delay_ms(1), Some(5000));
    assert_eq!(shrinking.delay_ms(2), Some(2500));
    assert_eq!(shrinking.delay_ms(40), Some(0));
}

#[test]
fn string_map_keeps_the_last_value_of_a_key() {
    let mut map = StringMap::new();
    assert_eq!(map.len(), 0);
    assert!(map.get("a").is_none());
    map.insert("a".to_string(), "1".to_string());
    map.insert("b".to_string(), "2".to_string());
    map.insert("a".to_string(), "3".to_string());
    assert_eq!(map.len(), 2);
    assert_eq!(map.get("a"), Some(&"3".to_string()));
    assert_eq!(map.key_at(0), "a");
    assert_eq!(map.value_at(1), "2");
    let mut other = StringMap::new();
    other.insert("b".to_string(), "9".to_string());
    other.insert("c".to_string(), "4".to_string());
    map.extend(&other);
    assert_eq!(map.len(), 3);
    assert_eq!(map.get("b"), Some(&"9".to_string()));
    assert_eq!(map.get("c"), Some(&"4".to_string()));
    let copy = map.clone();
    assert_eq!(copy, map);
}
