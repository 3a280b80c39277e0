use client_sdk_generator::config::{InputType, TargetLanguage};
use client_sdk_generator::error::GeneratorError;
use client_sdk_generator::helpers::{
    default_value_for, import_line_for, map_go_type, map_grpc_type, map_ts_type, run_helper,
    HelperKind,
};
use client_sdk_generator::template::{
    includes_template, render_outcome, template_name_of, TemplateEngine, TemplateFile,
    INCLUSION_MESSAGE,
};
use serde_json::Value;

fn object(members: &[(&str, Value)]) -> Value {
    let mut map = serde_json::map::Map::new();
    for (key, value) in members {
        map.insert(key.to_string(), value.clone());
    }
    Value::Object(map)
}

fn text(s: &str) -> Value {
    Value::String(s.to_string())
}

fn engine() -> TemplateEngine {
    TemplateEngine::new(TargetLanguage::Java, InputType::OpenApi).unwrap()
}

fn render(source: &str, context: &Value) -> Result<String, GeneratorError> {
    let mut engine = engine();
    engine.register_template("t", source).unwrap();
    engine.render_template("t", context)
}

#[test]
fn a_template_that_was_never_registered_is_not_found() {
    let engine = engine();
    assert!(!engine.has_template("client"));
    match engine.render_template("client", &Value::Null) {
        Err(GeneratorError::TemplateNotFound { name }) => assert_eq!(name, "client"),
        other => panic!("unexpected: {:?}", other),
    }
    assert!(engine.list_templates().is_empty());
}

#[test]
fn a_missing_context_key_renders_as_empty_text() {
    let context = object(&[("present", text("here"))]);
    assert_eq!(render("[{{present}}][{{absent}}]", &context).unwrap(), "[here][]");
    assert_eq!(render("[{{a.b.c}}]", &context).unwrap(), "[]");
    assert_eq!(render("{{#each absent}}x{{/each}}.", &context).unwrap(), ".");
    assert_eq!(render("{{#if absent}}x{{/if}}.", &Value::Null).unwrap(), ".");
}

#[test]
fn registering_and_listing() {
    let mut engine = engine();
    engine.register_template("a", "A").unwrap();
    engine.register_template("dir/b", "B{{x}}").unwrap();
    engine.register_template("a", "A2").unwrap();
    assert!(engine.has_template("a"));
    assert!(engine.has_template("dir/b"));
    assert!(!engine.has_template("b"));
    let mut names = engine.list_templates();
    names.sort();
    assert_eq!(names, vec!["a", "dir/b"]);
    assert_eq!(engine.render_template("a", &Value::Null).unwrap(), "A2");
    assert_eq!(engine.render_template("dir/b", &object(&[("x", text("!"))])).unwrap(), "B!");
}

#[test]
fn a_template_that_does_not_parse_is_a_syntax_failure() {
    let mut engine = engine();
    match engine.register_template("broken", "{{#if x}}never closed") {
        Err(GeneratorError::TemplateSyntax { name, message }) => {
            assert_eq!(name, "broken");
            assert!(!message.is_empty());
        }
        other => panic!("unexpected: {:?}", other),
    }
    assert!(!engine.has_template("broken"));
}

#[test]
fn a_helper_failure_is_a_rendering_failure_of_the_template() {
    match render("{{camel_case}}", &Value::Null) {
        Err(GeneratorError::TemplateRender { name, message }) => {
            assert_eq!(name, "t");
            assert!(message.contains("Parameter required for camel_case"), "{}", message);
        }
        other => panic!("unexpected: {:?}", other),
    }
    match render_outcome("t", Err("boom".to_string())) {
        Err(GeneratorError::TemplateRender { name, message }) => {
            assert_eq!(name, "t");
            assert_eq!(message, "boom");
        }
        other => panic!("unexpected: {:?}", other),
    }
    assert_eq!(render_outcome("t", Ok("fine".to_string())).unwrap(), "fine");
}

#[test]
fn templates_call_the_helpers_by_their_names() {
    let context = object(&[
        ("name", text("user_profile id")),
        ("language", text("python")),
        ("class_name", text("pet store")),
        ("yes", Value::Bool(true)),
        ("no", Value::Bool(false)),
    ]);
    let cases = [
        ("{{camel_case name}}", "userProfileId"),
        ("{{camelCase name}}", "userProfileId"),
        ("{{method_name name}}", "userProfileId"),
        ("{{snake_case \"HelloWorld\"}}", "hello_world"),
        ("{{pascal_case name}}", "UserProfileId"),
        ("{{PascalCase name}}", "UserProfileId"),
        ("{{go_name name}}", "UserProfileId"),
        ("{{kebab_case \"apiKey\"}}", "api-key"),
        ("{{upper_case \"aB\"}}", "AB"),
        ("{{lower_case \"aB\"}}", "ab"),
        ("{{type_mapping name}}", "String"),
        ("{{class_name}}", "PetStore"),
        ("{{class_name name}}", "UserProfileId"),
        ("{{class_name_transform \"x y\"}}", "XY"),
        ("{{package_path \"com.example.client\"}}", "com/example/client"),
        ("{{import_path \"UserProfile\"}}", "from .user_profile import Userprofile"),
        ("{{contains_date_type}}", "false"),
        ("{{contains_datetime_type}}", "false"),
        ("{{eq \"a\" \"a\"}},{{eq \"a\" \"b\"}},{{eq name 1}}", "true,false,false"),
        ("{{ne \"a\" \"a\"}},{{ne \"a\" \"b\"}},{{ne name 1}}", "false,true,true"),
        ("{{or yes no}},{{or no no}},{{or absent yes}}", "true,false,true"),
        ("{{{json_schema name}}}", "{ \"type\": \"object\", \"properties\": {} }"),
        ("{{grpc_type_mapping \"sint64\"}},{{grpc_type_mapping \"bytes\"}}", "number,Uint8Array"),
        ("{{{go_type \"bytes\"}}},{{go_type \"double\"}},{{go_type \"Pet\"}}", "[]byte,float64,Pet"),
        ("{{{ts_type \"array\"}}},{{ts_type \"integer\"}},{{ts_type}}", "any[],number,string"),
        ("{{{default_value \"string\"}}},{{default_value \"Pet\"}}", "'',undefined"),
    ];
    for (source, expected) in cases {
        assert_eq!(render(source, &context).unwrap(), expected, "{}", source);
    }
}

#[test]
fn helpers_on_given_values() {
    let data = object(&[("language", text("java")), ("package", text("org.acme"))]);
    let pet = text("Pet");
    let run = |kind, first: Option<&Value>, second: Option<&Value>, data: &Value| {
        run_helper(kind, first, second, data)
    };
    assert_eq!(
        run(HelperKind::ImportPath, Some(&pet), None, &data),
        Ok("import org.acme.Pet;".to_string())
    );
    assert_eq!(
        run(HelperKind::ImportPath, Some(&pet), None, &object(&[("language", text("java"))])),
        Ok("import com.example.Pet;".to_string())
    );
    assert_eq!(
        run(HelperKind::ImportPath, Some(&pet), None, &object(&[("language", text("rust"))])),
        Ok("use crate::pet;".to_string())
    );
    assert_eq!(
        run(HelperKind::ImportPath, Some(&pet), None, &object(&[("language", text("go"))])),
        Ok("Pet".to_string())
    );
    assert_eq!(
        run(HelperKind::ImportPath, Some(&pet), None, &Value::Null),
        Err("Language context required".to_string())
    );
    assert_eq!(
        run(HelperKind::ImportPath, None, None, &data),
        Err("Class name required".to_string())
    );
    assert_eq!(
        run(HelperKind::TypeMapping, None, None, &data),
        Err("Type reference required for type_mapping".to_string())
    );
    assert_eq!(
        run(HelperKind::TypeMapping, Some(&pet), None, &Value::Null),
        Err("Language context required".to_string())
    );
    assert_eq!(
        run(HelperKind::ClassName, Some(&Value::Bool(true)), None, &data),
        Err("Invalid parameter for class_name".to_string())
    );
    assert_eq!(
        run(HelperKind::ClassName, None, None, &data),
        Err("class_name not found in context and no parameter provided".to_string())
    );
    assert_eq!(
        run(HelperKind::JsonSchema, None, None, &data),
        Err("Type reference required for json_schema".to_string())
    );
    for (kind, name) in [
        (HelperKind::CamelCase, "camel_case"),
        (HelperKind::SnakeCase, "snake_case"),
        (HelperKind::PascalCase, "pascal_case"),
        (HelperKind::KebabCase, "kebab_case"),
        (HelperKind::UpperCase, "upper_case"),
        (HelperKind::LowerCase, "lower_case"),
        (HelperKind::MethodName, "method_name"),
    ] {
        assert_eq!(
            run(kind, Some(&Value::Bool(true)), None, &data),
            Err(format!("Parameter required for {}", name))
        );
    }
    assert_eq!(
        run(HelperKind::PackagePath, None, None, &data),
        Err("Package name required".to_string())
    );
    assert_eq!(run(HelperKind::Otherwise, Some(&pet), None, &data), Ok(String::new()));
    assert_eq!(run(HelperKind::UpperCase, Some(&text("")), None, &data), Ok(String::new()));
    assert_eq!(run(HelperKind::Equal, Some(&pet), None, &data), Ok("false".to_string()));
    assert_eq!(run(HelperKind::NotEqual, None, None, &data), Ok("true".to_string()));
    assert_eq!(
        run(HelperKind::Either, Some(&pet), Some(&Value::Bool(true)), &data),
        Ok("true".to_string())
    );
    assert_eq!(
        run(HelperKind::GrpcTypeMapping, Some(&Value::Bool(true)), None, &data),
        Ok("string".to_string())
    );
}

#[test]
fn type_name_tables() {
    assert_eq!(map_grpc_type("string"), "string");
    assert_eq!(map_grpc_type("uint32"), "number");
    assert_eq!(map_grpc_type("double"), "number");
    assert_eq!(map_grpc_type("bool"), "boolean");
    assert_eq!(map_grpc_type("Pet"), "Pet");
    assert_eq!(map_go_type("float"), "float32");
    assert_eq!(map_go_type("int32"), "int32");
    assert_eq!(map_go_type("string"), "string");
    assert_eq!(map_ts_type("bool"), "boolean");
    assert_eq!(map_ts_type("object"), "any");
    assert_eq!(map_ts_type("uint32"), "uint32");
    assert_eq!(default_value_for("number"), "0");
    assert_eq!(default_value_for("bool"), "false");
    assert_eq!(default_value_for("array"), "[]");
    assert_eq!(default_value_for("object"), "{}");
    assert_eq!(default_value_for("integer"), "undefined");
    assert_eq!(import_line_for("python", &None, "apiKey"), "from .api_key import Apikey");
}

#[test]
fn template_files_are_named_by_their_path_without_extension() {
    assert_eq!(template_name_of("client.hbs"), Some("client".to_string()));
    assert_eq!(template_name_of("models/pet.json.hbs"), Some("models/pet.json".to_string()));
    assert_eq!(template_name_of("pom.xml.hbs"), Some("pom.xml".to_string()));
    assert_eq!(template_name_of("client.txt"), None);
    assert_eq!(template_name_of(".hbs"), None);
    assert_eq!(template_name_of("dir/.hbs"), None);
    assert_eq!(template_name_of("hbs"), None);
    assert_eq!(template_name_of(""), None);
    assert_eq!(template_name_of("a.HBS"), None);
}

#[test]
fn loading_templates() {
    let file = |path: &str, content: &str| TemplateFile {
        relative_path: path.to_string(),
        content: content.to_string(),
    };
    let mut engine = TemplateEngine::new(TargetLanguage::Go, InputType::Grpc).unwrap();
    assert_eq!(engine.directory("templates"), "templates/go/grpc");
    match engine.load_templates("templates/go/grpc", None) {
        Err(GeneratorError::Io { message }) => {
            assert_eq!(message, "Template directory not found: templates/go/grpc")
        }
        other => panic!("unexpected: {:?}", other),
    }
    let files = vec![
        file("client.hbs", "one"),
        file("notes.txt", "{{#broken"),
        file("sub/model.hbs", "two"),
        file("client.hbs", "three"),
    ];
    engine.load_templates("templates/go/grpc", Some(files)).unwrap();
    let mut names = engine.list_templates();
    names.sort();
    assert_eq!(names, vec!["client", "sub/model"]);
    assert_eq!(engine.render_template("client", &Value::Null).unwrap(), "three");
    let broken = vec![file("a.hbs", "fine"), file("b.hbs", "{{#if}"), file("c.hbs", "late")];
    match engine.load_templates("templates/go/grpc", Some(broken)) {
        Err(GeneratorError::TemplateSyntax { name, .. }) => assert_eq!(name, "b"),
        other => panic!("unexpected: {:?}", other),
    }
    assert!(engine.has_template("a"));
    assert!(!engine.has_template("b"));
    assert!(!engine.has_template("c"));
}

#[test]
fn a_template_that_includes_another_is_turned_away() {
    for source in ["{{> other}}", "a {{~> other}} b", "{{#> layout}}x{{/layout}}", "{{ \n#\t> x}}", "{{{> x}}}"] {
        assert!(includes_template(source), "{}", source);
        let mut engine = engine();
        match engine.register_template("t", source) {
            Err(GeneratorError::TemplateSyntax { name, message }) => {
                assert_eq!(name, "t");
                assert_eq!(message, INCLUSION_MESSAGE);
            }
            other => panic!("unexpected: {:?}", other),
        }
        assert!(!engine.has_template("t"));
    }
    for source in ["", "{", "{{", "{{x}} > {{y}}", "{ {> x}}", "{{x > y}}", "a > b", "{{#if a}}>{{/if}}"] {
        assert!(!includes_template(source), "{}", source);
    }
    let mut engine = engine();
    let files = vec![
        TemplateFile { relative_path: "a.hbs".to_string(), content: "A".to_string() },
        TemplateFile { relative_path: "b.hbs".to_string(), content: "{{> a}}".to_string() },
        TemplateFile { relative_path: "c.hbs".to_string(), content: "C".to_string() },
    ];
    match engine.load_templates("d", Some(files)) {
        Err(GeneratorError::TemplateSyntax { name, .. }) => assert_eq!(name, "b"),
        other => panic!("unexpected: {:?}", other),
    }
    assert!(engine.has_template("a") && !engine.has_template("b") && !engine.has_template("c"));
}

#[test]
fn the_same_rendering_twice_gives_the_same_text() {
    let mut engine = engine();
    engine.register_template("t", "{{#each items}}{{snake_case this}},{{/each}}{{missing}}").unwrap();
    let context = object(&[(
        "items",
        Value::Array(vec![text("FirstItem"), text("secondItem")]),
    )]);
    let once = engine.render_template("t", &context).unwrap();
    let twice = engine.render_template("t", &context).unwrap();
    assert_eq!(once, "first_item,second_item,");
    assert_eq!(once, twice);
}
