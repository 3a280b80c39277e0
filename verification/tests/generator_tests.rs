use client_sdk_generator::artifacts::{artifact, render_all, render_artifact, GeneratedFile};
use client_sdk_generator::config::{
    AuthLocation, AuthenticationConfig, AuthenticationType, BackoffStrategy, GeneratorConfig,
    InputType, TargetLanguage, Thousandths,
};
use client_sdk_generator::error::GeneratorError;
use client_sdk_generator::features::FeatureCode;
use client_sdk_generator::generator::{formatter_command, SdkGenerator};
use client_sdk_generator::generators::go::{to_go_name, GoGenerator};
use client_sdk_generator::generators::test_generators::StubTestGenerator;
use client_sdk_generator::generators::typescript::{
    method_lower_name, to_camel_case, to_pascal_case, TypeScriptGenerator,
};
use client_sdk_generator::generators::TestGeneratorFactory;
use client_sdk_generator::serialize::{
    api_spec_to_json, copy_operation, generator_config_to_json, operation_to_json,
    thousandths_to_json, type_reference_to_json,
};
use client_sdk_generator::string_map::StringMap;
use client_sdk_generator::template::{TemplateEngine, TemplateFile};
use client_sdk_generator::test_generation::{
    generate_test_cases_for_operation, ConfigFile, MockDataFile, TestFile, TestGenerationConfig,
    TestGenerator, TestScenarioType, TestSuite, TestType,
};
use client_sdk_generator::types::{
    ApiSpec, BaseType, HttpMethod, Operation, Parameter, ParameterType, Property, Response,
    TypeDefinition, TypeKind, TypeReference,
};
use serde_json::Value;

const LANGUAGES: [TargetLanguage; 5] = [
    TargetLanguage::Java,
    TargetLanguage::Python,
    TargetLanguage::Rust,
    TargetLanguage::Go,
    TargetLanguage::TypeScript,
];

fn parameter(name: &str, required: bool, place: ParameterType) -> Parameter {
    Parameter {
        name: name.to_string(),
        description: None,
        parameter_type: place,
        data_type: TypeReference::string(),
        required,
        default_value: None,
    }
}

fn list_pets() -> Operation {
    Operation {
        id: "listPets".to_string(),
        name: "listPets".to_string(),
        description: Some("Lists pets".to_string()),
        method: HttpMethod::Get,
        path: "/pets".to_string(),
        parameters: vec![
            parameter("limit", true, ParameterType::Query),
            parameter("tag", true, ParameterType::Query),
        ],
        request_body: None,
        responses: vec![
            Response {
                status_code: Some(404),
                description: "missing".to_string(),
                content_type: "application/json".to_string(),
                data_type: Some(TypeReference::string()),
                headers: Vec::new(),
            },
            Response {
                status_code: Some(200),
                description: "ok".to_string(),
                content_type: "application/json".to_string(),
                data_type: Some(TypeReference::array(TypeReference::object("Pet".to_string()))),
                headers: Vec::new(),
            },
        ],
        tags: vec!["pets".to_string()],
        deprecated: false,
        cache_config: None,
    }
}

fn pet_store() -> ApiSpec {
    let mut api = ApiSpec::new("pet_store".to_string(), "1.0.0".to_string());
    api.base_url = Some("https://example.com".to_string());
    api.add_operation(list_pets());
    api.add_type(TypeDefinition {
        name: "PetOwner".to_string(),
        description: None,
        type_kind: TypeKind::Object,
        properties: vec![Property {
            name: "first_name".to_string(),
            description: None,
            data_type: TypeReference::string().nullable(),
            required: false,
            read_only: false,
            write_only: false,
            deprecated: false,
            default_value: Some(Value::from(1.5)),
        }],
        required: Vec::new(),
        additional_properties: false,
    });
    api
}

fn file(path: &str, content: &str) -> TemplateFile {
    TemplateFile { relative_path: path.to_string(), content: content.to_string() }
}

fn templates(language: TargetLanguage) -> Vec<TemplateFile> {
    let manifest = match language {
        TargetLanguage::Java => "pom.xml.hbs",
        TargetLanguage::Python => "setup.py.hbs",
        TargetLanguage::Rust => "Cargo.toml.hbs",
        TargetLanguage::Go => "go.mod.hbs",
        TargetLanguage::TypeScript => "package.json.hbs",
    };
    vec![
        file(
            "client.hbs",
            "{{class_name}}:{{#each operations}}{{name}}({{#each parameters}}{{camel_case name}};{{/each}}){{/each}}{{{feature_code.code}}}",
        ),
        file("async_client.hbs", "async {{language}}"),
        file("config.hbs", "config {{package}}"),
        file("model.hbs", "model {{type.name}} {{missing.key}}"),
        file(manifest, "{{package}} {{version}} {{#each dependencies}}[{{{this}}}]{{/each}}"),
        file("tsconfig.json.hbs", "tsconfig"),
        file("README.md.hbs", "# {{api_name}} {{api_version}}"),
        file("api_docs.md.hbs", "{{#each spec.operations}}{{method}} {{path}}{{/each}}"),
    ]
}

fn paths(files: &[GeneratedFile]) -> Vec<&str> {
    files.iter().map(|f| f.path.as_str()).collect()
}

#[test]
fn the_client_names_both_required_parameters_in_every_language() {
    for language in LANGUAGES {
        let config = GeneratorConfig::default_for(InputType::OpenApi, language);
        let mut generator = SdkGenerator::new(config).unwrap();
        let plan = generator
            .generate_sdk(&pet_store(), "templates", Some(templates(language)), "out")
            .unwrap();
        let client = &plan.client_files[0].content;
        assert!(client.starts_with("PetStoreclient:listPets(limit;tag;)"), "{}", client);
    }
}

#[test]
fn a_run_for_java() {
    let mut config = GeneratorConfig::default_for(InputType::OpenApi, TargetLanguage::Java);
    config.output_config.package_name = Some("org.acme.pets".to_string());
    let mut generator = SdkGenerator::new(config).unwrap();
    let plan =
        generator.generate_sdk(&pet_store(), "t", Some(templates(TargetLanguage::Java)), "out").unwrap();
    assert_eq!(
        paths(&plan.client_files),
        vec![
            "src/main/java/org/acme/pets/Client.java",
            "src/main/java/org/acme/pets/AsyncClient.java",
            "src/main/java/org/acme/pets/ClientConfig.java"
        ]
    );
    assert_eq!(plan.client_files[1].content, "async java");
    assert_eq!(plan.client_files[2].content, "config org.acme.pets");
    assert_eq!(paths(&plan.model_files), vec!["src/main/java/org/acme/pets/models/PetOwner.java"]);
    assert_eq!(plan.model_files[0].content, "model PetOwner ");
    assert_eq!(paths(&plan.build_files), vec!["pom.xml"]);
    assert_eq!(
        plan.build_files[0].content,
        "org.acme.pets 1.0.0 [dev.failsafe:failsafe-okhttp:3.3.2][dev.failsafe:failsafe:3.3.2][io.micrometer:micrometer-core:1.12.0][io.micrometer:micrometer-registry-prometheus:1.12.0]"
    );
    assert!(plan.test_files.is_empty());
    assert_eq!(paths(&plan.documentation_files), vec!["docs/README.md", "docs/api.md"]);
    assert_eq!(plan.documentation_files[0].content, "# pet_store 1.0.0");
    assert_eq!(plan.documentation_files[1].content, "Get /pets");
    let formatter = plan.formatter.unwrap();
    assert_eq!(formatter.program, "google-java-format");
    assert_eq!(formatter.arguments, vec!["--replace", "--recursive"]);
    assert!(formatter.output_path_as_argument);
    assert!(!formatter.run_in_output_directory);
}

#[test]
fn a_run_for_python_lists_its_requirements() {
    let mut config = GeneratorConfig::default_for(InputType::OpenApi, TargetLanguage::Python);
    config.features.caching.enabled = true;
    config.output_config.include_docs = false;
    config.output_config.format_code = false;
    config.output_config.include_tests = false;
    let mut generator = SdkGenerator::new(config).unwrap();
    let plan = generator
        .generate_sdk(&pet_store(), "t", Some(templates(TargetLanguage::Python)), "out")
        .unwrap();
    assert_eq!(paths(&plan.client_files), vec!["client_sdk/client.py", "client_sdk/config.py"]);
    assert_eq!(paths(&plan.model_files), vec!["client_sdk/models/pet_owner.py"]);
    assert_eq!(paths(&plan.build_files), vec!["setup.py", "requirements.txt"]);
    assert_eq!(
        plan.build_files[1].content,
        "cachetools>=5.3.0\nprometheus-client>=0.19.0\ntenacity>=8.2.0"
    );
    assert!(plan.documentation_files.is_empty());
    assert!(plan.formatter.is_none());
}

#[test]
fn paths_for_the_other_languages() {
    let expected = [
        (TargetLanguage::Rust, "src/client.rs", "src/models/pet_owner.rs", "Cargo.toml", "tests/integration_tests.rs"),
        (TargetLanguage::Go, "client_sdk/client.go", "client_sdk/models/pet_owner.go", "go.mod", "tests/client_test.go"),
        (TargetLanguage::TypeScript, "client_sdk/client.ts", "client_sdk/models/pet_owner.ts", "package.json", "tests/client_test.ts"),
        (TargetLanguage::Python, "client_sdk/client.py", "client_sdk/models/pet_owner.py", "setup.py", "tests/test_client.py"),
        (TargetLanguage::Java, "src/main/java/com/example/client/Client.java", "src/main/java/com/example/client/models/PetOwner.java", "pom.xml", "src/test/java/ClientTest.java"),
    ];
    for (language, client, model, _manifest, test) in expected {
        let generator =
            SdkGenerator::new(GeneratorConfig::default_for(InputType::Grpc, language)).unwrap();
        assert_eq!(generator.get_client_file_path(), client);
        assert_eq!(generator.get_model_file_path("PetOwner"), model);
        assert_eq!(generator.get_test_file_path(), test);
    }
    let rust =
        SdkGenerator::new(GeneratorConfig::default_for(InputType::Grpc, TargetLanguage::Rust)).unwrap();
    assert_eq!(rust.get_async_client_file_path(), "src/async_client.rs");
    assert_eq!(rust.get_config_file_path(), "src/config.rs");
    assert_eq!(rust.get_models_directory(), "src/models");
    assert_eq!(rust.get_tests_directory(), "tests");
    assert_eq!(rust.get_template_directory("fallback"), "fallback");
    let mut config = GeneratorConfig::default_for(InputType::Grpc, TargetLanguage::TypeScript);
    config.template_overrides = Some("mine".to_string());
    let ts = SdkGenerator::new(config).unwrap();
    assert_eq!(ts.get_template_directory("fallback"), "mine");
    let plan_files = {
        let mut ts = ts;
        let mut files = templates(TargetLanguage::TypeScript);
        files.push(file("tsconfig.json.hbs", "tsconfig"));
        ts.generate_sdk(&pet_store(), "t", Some(files), "out").unwrap().build_files
    };
    assert_eq!(paths(&plan_files), vec!["package.json", "tsconfig.json"]);
}

#[test]
fn formatters() {
    let rust = formatter_command(TargetLanguage::Rust);
    assert_eq!((rust.program.as_str(), rust.arguments), ("cargo", vec!["fmt".to_string(), "--all".to_string()]));
    assert!(rust.run_in_output_directory && !rust.output_path_as_argument);
    let python = formatter_command(TargetLanguage::Python);
    assert_eq!(python.program, "black");
    assert!(python.arguments.is_empty());
    assert!(python.output_path_as_argument);
    let go = formatter_command(TargetLanguage::Go);
    assert_eq!((go.program.as_str(), go.arguments), ("gofmt", vec!["-w".to_string(), ".".to_string()]));
    let ts = formatter_command(TargetLanguage::TypeScript);
    assert_eq!((ts.program.as_str(), ts.arguments), ("prettier", vec!["--write".to_string(), "**/*.ts".to_string()]));
}

#[test]
fn a_run_fails_as_a_whole() {
    let config = GeneratorConfig::default_for(InputType::OpenApi, TargetLanguage::Rust);
    let mut generator = SdkGenerator::new(config).unwrap();
    match generator.generate_sdk(&pet_store(), "nowhere", None, "out") {
        Err(GeneratorError::Io { message }) => {
            assert_eq!(message, "Template directory not found: nowhere")
        }
        _ => panic!("a missing template directory was passed over"),
    }
    let mut generator = SdkGenerator::new(GeneratorConfig::default_for(
        InputType::OpenApi,
        TargetLanguage::Rust,
    ))
    .unwrap();
    let only_client = vec![file("client.hbs", "c")];
    match generator.generate_sdk(&pet_store(), "t", Some(only_client), "out") {
        Err(e) => {
            assert!(e.is_template_not_found());
            match e {
                GeneratorError::Artifact { artifact, cause } => {
                    assert_eq!(artifact, "src/async_client.rs");
                    match *cause {
                        GeneratorError::TemplateNotFound { name } => assert_eq!(name, "async_client"),
                        other => panic!("unexpected: {:?}", other),
                    }
                }
                other => panic!("unexpected: {:?}", other),
            }
        }
        Ok(_) => panic!("a missing template was passed over"),
    }
}

#[test]
fn enabled_features_in_order() {
    let mut config = GeneratorConfig::default_for(InputType::OpenApi, TargetLanguage::Go);
    config.features.caching.enabled = true;
    let generator = SdkGenerator::new(config).unwrap();
    let features = generator.generate_features();
    assert_eq!(features.len(), 3);
    assert!(features[0].code.contains("executeWithRetry"));
    assert!(features[1].code.contains("recordMetrics"));
    assert!(features[2].code.contains("NewCacheHandler"));
    let merged = FeatureCode::merge_all(&features);
    assert_eq!(
        merged.code,
        format!("{}\n\n{}\n\n{}", features[0].code, features[1].code, features[2].code)
    );
    let mut config = GeneratorConfig::default_for(InputType::OpenApi, TargetLanguage::Go);
    config.features.retry.enabled = false;
    config.features.telemetry.enabled = false;
    assert!(SdkGenerator::new(config).unwrap().generate_features().is_empty());
}

#[test]
fn contexts() {
    let mut config = GeneratorConfig::default_for(InputType::OpenApi, TargetLanguage::Python);
    config.output_config.package_name = Some("My-Pets api".to_string());
    config.features.retry.backoff_strategy = BackoffStrategy::Exponential {
        initial_delay_ms: 100,
        multiplier: Thousandths { count: 1500 },
        max_delay_ms: 5000,
    };
    let generator = SdkGenerator::new(config).unwrap();
    let features = generator.generate_features();
    let context = generator.create_template_context(&pet_store(), &features).unwrap();
    assert_eq!(context["language"], "python");
    assert_eq!(context["package"], "My-Pets api");
    assert_eq!(context["package_name"], "My-Pets api");
    assert_eq!(context["version"], "1.0.0");
    assert_eq!(context["api_name"], "pet_store");
    assert_eq!(context["class_name"], "pet_storeClient");
    assert_eq!(context["go_module"], "github.com/example/my_pets_api");
    assert_eq!(context["base_url"], "https://example.com");
    assert_eq!(context["description"], Value::Null);
    assert_eq!(context["features"]["retry"], true);
    assert_eq!(context["features"]["caching"], false);
    assert_eq!(context["features"]["async"], true);
    assert_eq!(context["feature_code"]["dependencies"][0], "prometheus-client>=0.19.0");
    assert_eq!(context["operations"][0]["method"], "Get");
    assert_eq!(context["operations"][0]["parameters"][1]["name"], "tag");
    assert_eq!(context["operations"][0]["parameters"][1]["parameter_type"], "Query");
    assert_eq!(context["spec"]["operations"], context["operations"]);
    assert_eq!(context["types"][0]["properties"][0]["default_value"], 1.5);
    assert_eq!(context["types"][0]["properties"][0]["data_type"]["nullable"], true);
    assert_eq!(context["types"][0]["properties"][0]["data_type"]["base_type"], "String");
    assert_eq!(context["config"]["target_language"], "Python");
    assert_eq!(
        context["config"]["features"]["retry"]["backoff_strategy"]["Exponential"]["multiplier"],
        1.5
    );
    assert_eq!(context["config"]["features"]["telemetry"]["tracing"]["sample_rate"], 1.0);
    assert_eq!(context["config"]["features"]["caching"]["max_cache_size"], 1000);
    assert_eq!(context["config"]["output_config"]["license"], "MIT");
    let model = generator.create_model_context(&pet_store().types[0]).unwrap();
    assert_eq!(model["type"]["name"], "PetOwner");
    assert_eq!(model["type"]["type_kind"], "Object");
    assert_eq!(model["language"], "python");
    let build = generator.create_build_context(&FeatureCode::merge_all(&features)).unwrap();
    assert_eq!(build["package"], "My-Pets api");
    assert_eq!(build["author"], Value::Null);
    assert_eq!(build["license"], "MIT");
    assert_eq!(build["dependencies"].as_array().unwrap().len(), 2);
}

#[test]
fn documents_of_the_model() {
    let map = TypeReference {
        base_type: BaseType::MapOf(
            Box::new(TypeReference::string()),
            Box::new(TypeReference::object("Pet".to_string())),
        ),
        nullable: false,
        array: true,
        generic_parameters: vec![TypeReference::integer()],
    };
    let document = type_reference_to_json(&map);
    assert_eq!(document["base_type"]["Map"][0]["base_type"], "String");
    assert_eq!(document["base_type"]["Map"][1]["base_type"]["Object"], "Pet");
    assert_eq!(document["array"], true);
    assert_eq!(document["generic_parameters"][0]["base_type"], "Integer");
    let array = type_reference_to_json(&TypeReference::array(TypeReference::boolean()));
    assert_eq!(array["base_type"]["Array"]["base_type"], "Boolean");
    assert_eq!(thousandths_to_json(Thousandths { count: 2000 }), Value::from(2.0));
    assert_eq!(thousandths_to_json(Thousandths { count: 1 }), Value::from(0.001));
    let copy = copy_operation(&list_pets());
    assert_eq!(operation_to_json(&copy), operation_to_json(&list_pets()));
    assert_eq!(copy.parameters.len(), 2);
    let mut config = GeneratorConfig::default_for(InputType::GraphQL, TargetLanguage::Go);
    let mut labels = StringMap::new();
    labels.insert("team".to_string(), "core".to_string());
    config.features.telemetry.metrics.custom_labels = labels;
    config.authentication = Some(AuthenticationConfig {
        auth_type: AuthenticationType::Custom { name: "x".to_string(), description: None },
        location: AuthLocation::Cookie,
        parameter_name: None,
        scheme: None,
        bearer_format: None,
        flows: Some(Vec::new()),
        openid_connect_url: None,
    });
    let document = generator_config_to_json(&config);
    assert_eq!(document["input_type"], "GraphQL");
    assert_eq!(document["features"]["telemetry"]["metrics"]["custom_labels"]["team"], "core");
    assert_eq!(document["features"]["telemetry"]["provider"], "Prometheus");
    assert_eq!(document["authentication"]["auth_type"]["Custom"]["name"], "x");
    assert_eq!(document["authentication"]["auth_type"]["Custom"]["description"], Value::Null);
    assert_eq!(document["authentication"]["location"], "Cookie");
    assert_eq!(document["authentication"]["flows"].as_array().unwrap().len(), 0);
    assert_eq!(document["template_overrides"], Value::Null);
    assert_eq!(api_spec_to_json(&pet_store())["authentication"], Value::Null);
}

#[test]
fn go_and_typescript_names() {
    assert_eq!(to_go_name("user_profile_id"), "UserProfileId");
    assert_eq!(to_go_name("userProfile"), "Userprofile");
    assert_eq!(to_go_name("_x__y"), "XY");
    assert_eq!(to_go_name(""), "");
    assert_eq!(to_camel_case("user_profile_id"), "userProfileId");
    assert_eq!(to_camel_case("User"), "user");
    assert_eq!(to_camel_case("_x"), "X");
    assert_eq!(to_camel_case("a b_c"), "a bC");
    assert_eq!(to_pascal_case("pet_store"), "PetStore");
    assert_eq!(method_lower_name(HttpMethod::Delete), "delete");
}

#[test]
fn the_go_generator() {
    let mut config = GeneratorConfig::default_for(InputType::OpenApi, TargetLanguage::Go);
    config.output_config.package_name = Some("Pet-Store Client".to_string());
    config.authentication = Some(AuthenticationConfig {
        auth_type: AuthenticationType::Custom {
            name: "sig\"v4".to_string(),
            description: Some("d".to_string()),
        },
        location: AuthLocation::Header,
        parameter_name: Some("X-Key".to_string()),
        scheme: None,
        bearer_format: None,
        flows: None,
        openid_connect_url: None,
    });
    let mut generator = GoGenerator::new(config).unwrap();
    assert_eq!(generator.map_type_to_go(&TypeReference::integer().nullable()), "*int64");
    let context = generator.build_context(&pet_store());
    assert_eq!(context["package_name"], "pet_store_client");
    assert_eq!(context["go_module"], "github.com/example/pet_store_client");
    assert_eq!(context["class_name"], "PetStoreclient");
    assert_eq!(context["authentication"], true);
    assert_eq!(context["auth_type"], "Custom { name: \"sig\\\"v4\", description: Some(\"d\") }");
    assert_eq!(context["auth_location"], "Header");
    assert_eq!(context["auth_parameter_name"], "X-Key");
    assert_eq!(context["auth_scheme"], Value::Null);
    assert_eq!(context["retry"], true);
    assert_eq!(context["caching"], false);
    let operation = &context["operations"][0];
    assert_eq!(operation["method"], "Get");
    assert_eq!(operation["response_type"], "[]Pet");
    assert_eq!(operation["has_path_params"], false);
    assert_eq!(operation["has_query_params"], true);
    assert_eq!(operation["parameters"][0]["go_name"], "Limit");
    assert_eq!(operation["parameters"][0]["go_type"], "string");
    assert_eq!(operation["parameters"][0]["location"], "Query");
    let property = &context["types"][0]["properties"][0];
    assert_eq!(property["go_name"], "FirstName");
    assert_eq!(property["go_type"], "*string");
    assert_eq!(property["json_name"], "first_name");
    assert_eq!(context["types"][0]["go_name"], "Petowner");
    // Without templates nothing can be rendered.
    match generator.generate(&pet_store()) {
        Err(e) => assert!(e.is_template_not_found()),
        Ok(_) => panic!("rendered without templates"),
    }
    let files = vec![
        file("client.go.hbs", "package {{package_name}}"),
        file("types.go.hbs", "{{#each types}}{{go_name name}}{{/each}}"),
        file("go.mod.hbs", "module {{go_module}}"),
        file("README.md.hbs", "{{api_name}}"),
    ];
    generator.load_templates("t", Some(files)).unwrap();
    let generated = generator.generate(&pet_store()).unwrap();
    assert_eq!(paths(&generated), vec!["client.go", "types.go", "go.mod", "README.md"]);
    assert_eq!(generated[0].content, "package pet_store_client");
    assert_eq!(generated[1].content, "Petowner");
    assert_eq!(generated[2].content, "module github.com/example/pet_store_client");
}

#[test]
fn the_typescript_generator() {
    let mut config = GeneratorConfig::default_for(InputType::OpenApi, TargetLanguage::TypeScript);
    config.output_config.include_docs = false;
    config.authentication = Some(AuthenticationConfig {
        auth_type: AuthenticationType::OAuth2,
        location: AuthLocation::Header,
        parameter_name: None,
        scheme: None,
        bearer_format: None,
        flows: None,
        openid_connect_url: None,
    });
    let mut generator = TypeScriptGenerator::new(config).unwrap();
    assert_eq!(
        generator.map_type_to_typescript(&TypeReference::array(TypeReference::string()).nullable()),
        "string[] | null"
    );
    let mut api = pet_store();
    api.operations[0].request_body = Some(TypeReference::object("Pet".to_string()));
    api.operations[0].parameters.push(parameter("pet_id", false, ParameterType::Path));
    let context = generator.build_context(&api);
    assert_eq!(context["package_name"], "api-client");
    assert_eq!(context["client_class_name"], "PetStoreClient");
    assert_eq!(context["auth_type"], "OAuth2");
    assert_eq!(context["supports_bearer_auth"], true);
    assert_eq!(context["supports_api_key"], false);
    let operation = &context["operations"][0];
    assert_eq!(operation["method"], "GET");
    assert_eq!(operation["method_lower"], "get");
    assert_eq!(operation["response_type"], "Pet[]");
    assert_eq!(operation["has_path_params"], true);
    assert_eq!(operation["has_body_params"], true);
    assert_eq!(operation["parameters"][2]["camel_name"], "petId");
    assert_eq!(operation["parameters"][2]["ts_type"], "string");
    let property = &context["types"][0]["properties"][0];
    assert_eq!(property["camel_name"], "firstName");
    assert_eq!(property["ts_type"], "string | null");
    assert_eq!(property["optional_marker"], "?");
    let no_auth = TypeScriptGenerator::new(GeneratorConfig::default_for(
        InputType::OpenApi,
        TargetLanguage::TypeScript,
    ))
    .unwrap()
    .build_context(&ApiSpec::new("a".to_string(), "1".to_string()));
    assert_eq!(no_auth["authentication"], false);
    assert!(no_auth.get("auth_type").is_none());
    assert!(no_auth.get("supports_api_key").is_none());
    assert_eq!(no_auth["operations"].as_array().unwrap().len(), 0);
    let files = vec![
        file("client.ts.hbs", "class {{client_class_name}}"),
        file("types.ts.hbs", "t"),
        file("index.ts.hbs", "i"),
        file("package.json.hbs", "{{package_name}}"),
        file("tsconfig.json.hbs", "{}"),
    ];
    generator.load_templates("t", Some(files)).unwrap();
    let generated = generator.generate(&api).unwrap();
    assert_eq!(
        paths(&generated),
        vec!["src/client.ts", "src/types.ts", "src/index.ts", "package.json", "tsconfig.json"]
    );
    assert_eq!(generated[0].content, "class PetStoreClient");
}

#[test]
fn rendering_artifacts() {
    let mut engine = TemplateEngine::new(TargetLanguage::Rust, InputType::OpenApi).unwrap();
    engine.register_template("a", "{{x}}").unwrap();
    engine.register_template("bad", "{{snake_case}}").unwrap();
    let context = Value::Null;
    let one = render_artifact(&engine, &context, "a", "out/a.rs").unwrap();
    assert_eq!((one.path.as_str(), one.content.as_str()), ("out/a.rs", ""));
    let plan = vec![artifact("a", "1"), artifact("a", "2")];
    assert_eq!(paths(&render_all(&engine, &context, &plan).unwrap()), vec!["1", "2"]);
    assert!(render_all(&engine, &context, &Vec::new()).unwrap().is_empty());
    let plan = vec![artifact("a", "1"), artifact("bad", "2"), artifact("none", "3")];
    match render_all(&engine, &context, &plan) {
        Err(GeneratorError::Artifact { artifact, cause }) => {
            assert_eq!(artifact, "2");
            assert!(matches!(*cause, GeneratorError::TemplateRender { .. }));
        }
        other => panic!("unexpected: {:?}", other.map(|_| ())),
    }
}

#[test]
fn test_cases_for_an_operation() {
    let cases = generate_test_cases_for_operation(&list_pets());
    assert_eq!(cases.len(), 3);
    assert_eq!(cases[0].name, "listPetsTest");
    assert_eq!(cases[0].description, "Test cases for listPets operation");
    assert_eq!(cases[0].operation.id, "listPets");
    assert_eq!(cases[0].test_scenarios.len(), 1);
    let success = &cases[0].test_scenarios[0];
    assert_eq!(success.name, "should_succeed_with_valid_parameters");
    assert_eq!(success.description, "Test successful execution of listPets operation");
    assert_eq!(success.scenario_type, TestScenarioType::Success);
    assert_eq!(success.setup, vec!["// Setup valid test data"]);
    assert_eq!(success.execution, vec!["// Call listPets"]);
    assert_eq!(success.assertions, vec!["// Assert successful response"]);
    assert_eq!(success.cleanup, vec!["// Cleanup if needed"]);
    assert_eq!(cases[1].name, "listPetsValidationTest");
    assert_eq!(cases[1].description, "Validation test cases for listPets operation");
    assert_eq!(cases[1].test_scenarios.len(), 2);
    let missing = &cases[1].test_scenarios[1];
    assert_eq!(missing.name, "should_fail_when_tag_is_missing");
    assert_eq!(
        missing.description,
        "Test validation error when required parameter tag is missing"
    );
    assert_eq!(missing.scenario_type, TestScenarioType::ValidationError);
    assert_eq!(missing.setup, vec!["// Setup test data with missing parameter"]);
    assert_eq!(missing.execution, vec!["// Call listPets with missing tag"]);
    assert_eq!(missing.assertions, vec!["// Assert validation error"]);
    assert!(missing.cleanup.is_empty());
    assert_eq!(cases[2].name, "listPetsErrorHandlingTest");
    assert_eq!(cases[2].description, "Error handling test cases for listPets operation");
    let timeout = &cases[2].test_scenarios[0];
    assert_eq!(timeout.name, "should_handle_network_timeout");
    assert_eq!(timeout.description, "Test network timeout handling for listPets operation");
    assert_eq!(timeout.scenario_type, TestScenarioType::TimeoutError);
    assert_eq!(timeout.execution, vec!["// Call listPets with timeout"]);
    let server = &cases[2].test_scenarios[1];
    assert_eq!(server.name, "should_handle_server_error");
    assert_eq!(server.scenario_type, TestScenarioType::ServerError);
    assert_eq!(server.setup, vec!["// Setup server error scenario"]);
    assert_eq!(server.execution, vec!["// Call listPets with server error"]);
    assert_eq!(server.assertions, vec!["// Assert server error handling"]);

    let mut optional_only = list_pets();
    optional_only.parameters[0].required = false;
    optional_only.parameters[1].required = false;
    let cases = generate_test_cases_for_operation(&optional_only);
    assert_eq!(cases.len(), 2);
    assert_eq!(cases[1].name, "listPetsErrorHandlingTest");
}

#[test]
fn the_stand_in_test_generator() {
    let stub = StubTestGenerator::new(TargetLanguage::Go);
    assert_eq!(stub.target_language(), TargetLanguage::Go);
    let config = TestGenerationConfig::default();
    assert_eq!(config.test_coverage_target, Some(Thousandths { count: 80000 }));
    let suite = stub.generate_test_suite(&pet_store(), &config, "out").unwrap();
    assert_eq!(suite.name, "stub_test_suite");
    assert!(suite.files.is_empty() && suite.mock_data_files.is_empty());
    assert!(stub.generate_client_tests(&pet_store(), &config).unwrap().is_empty());
    assert!(stub.generate_test_configs(&config).unwrap().is_empty());
    let made = TestGeneratorFactory::create_generator(TargetLanguage::Java).unwrap();
    assert_eq!(made.target_language(), TargetLanguage::Java);
}

#[test]
fn every_language_gets_a_test_generator_of_its_own() {
    for language in LANGUAGES {
        let made = TestGeneratorFactory::create_generator(language).unwrap();
        assert_eq!(made.target_language(), language);
    }
}

#[test]
fn test_files_follow_the_suite() {
    let suite = TestSuite {
        name: "s".to_string(),
        files: vec![TestFile {
            name: "t".to_string(),
            path: "tests/t.rs".to_string(),
            content: "T".to_string(),
            test_type: TestType::Unit,
        }],
        mock_data_files: vec![MockDataFile {
            name: "m".to_string(),
            path: "tests/m.json".to_string(),
            content: "M".to_string(),
        }],
        config_files: vec![ConfigFile {
            name: "c".to_string(),
            path: "tests/c.toml".to_string(),
            content: "C".to_string(),
        }],
    };
    let files = SdkGenerator::test_files_from(Ok(suite)).unwrap();
    assert_eq!(paths(&files), vec!["tests/t.rs", "tests/m.json", "tests/c.toml"]);
    let contents: Vec<&str> = files.iter().map(|f| f.content.as_str()).collect();
    assert_eq!(contents, vec!["T", "M", "C"]);
    match SdkGenerator::test_files_from(Err(GeneratorError::Io { message: "x".to_string() })) {
        Err(GeneratorError::Io { message }) => assert_eq!(message, "x"),
        _ => panic!("the failure was not passed on"),
    }
    let with_tests = SdkGenerator::new(GeneratorConfig::default_for(
        InputType::OpenApi,
        TargetLanguage::Java,
    ))
    .unwrap();
    assert!(with_tests.generate_test_files(&pet_store(), "out").unwrap().is_empty());
}

#[test]
fn a_run_without_a_client_template_fails_on_the_client() {
    for language in LANGUAGES {
        let mut generator =
            SdkGenerator::new(GeneratorConfig::default_for(InputType::OpenApi, language)).unwrap();
        let client_path = generator.get_client_file_path();
        match generator.generate_sdk(&pet_store(), "t", Some(Vec::new()), "out") {
            Err(GeneratorError::Artifact { artifact, cause }) => {
                assert_eq!(artifact, client_path);
                match *cause {
                    GeneratorError::TemplateNotFound { name } => assert_eq!(name, "client"),
                    other => panic!("unexpected: {:?}", other),
                }
            }
            _ => panic!("a run without templates did not fail on the client"),
        }
    }
    let mut generator = SdkGenerator::new(GeneratorConfig::default_for(
        InputType::OpenApi,
        TargetLanguage::Go,
    ))
    .unwrap();
    let broken = vec![file("client.hbs", "{{#if}")];
    match generator.generate_sdk(&pet_store(), "t", Some(broken), "out") {
        Err(GeneratorError::TemplateSyntax { name, .. }) => assert_eq!(name, "client"),
        _ => panic!("a template that does not parse was passed over"),
    }
}
