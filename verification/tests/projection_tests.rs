use client_sdk_generator::config::TargetLanguage;
use client_sdk_generator::generators::{JavaGenerator, PythonGenerator, RustGenerator};
use client_sdk_generator::projector::{null_policy_of, project, project_base, NullPolicy};
use client_sdk_generator::types::{BaseType, TypeReference};

const LANGUAGES: [TargetLanguage; 5] = [
    TargetLanguage::Java,
    TargetLanguage::Python,
    TargetLanguage::Rust,
    TargetLanguage::Go,
    TargetLanguage::TypeScript,
];

fn reference(base_type: BaseType, nullable: bool, array: bool) -> TypeReference {
    TypeReference { base_type, nullable, array, generic_parameters: Vec::new() }
}

fn all(t: &TypeReference) -> Vec<String> {
    LANGUAGES.iter().map(|l| project(t, *l)).collect()
}

#[test]
fn scalars() {
    assert_eq!(all(&TypeReference::string()), ["String", "str", "String", "string", "string"]);
    assert_eq!(all(&TypeReference::integer()), ["Integer", "int", "i32", "int64", "number"]);
    assert_eq!(all(&TypeReference::boolean()), ["Boolean", "bool", "bool", "bool", "boolean"]);
    assert_eq!(
        all(&reference(BaseType::Long, false, false)),
        ["Long", "int", "i64", "int64", "number"]
    );
    assert_eq!(
        all(&reference(BaseType::Float, false, false)),
        ["Float", "float", "f32", "float32", "number"]
    );
    assert_eq!(
        all(&reference(BaseType::Double, false, false)),
        ["Double", "float", "f64", "float64", "number"]
    );
    assert_eq!(
        all(&reference(BaseType::Date, false, false)),
        ["LocalDate", "datetime.date", "chrono::NaiveDate", "time.Time", "Date"]
    );
    assert_eq!(
        all(&reference(BaseType::DateTime, false, false)),
        [
            "OffsetDateTime",
            "datetime.datetime",
            "chrono::DateTime<chrono::Utc>",
            "time.Time",
            "Date"
        ]
    );
    assert_eq!(
        all(&reference(BaseType::Binary, false, false)),
        ["byte[]", "bytes", "Vec<u8>", "[]byte", "Blob | ArrayBuffer | Uint8Array"]
    );
    assert_eq!(
        all(&reference(BaseType::Any, false, false)),
        ["Object", "Any", "serde_json::Value", "interface{}", "any"]
    );
    assert_eq!(all(&reference(BaseType::Void, false, false)), ["Void", "None", "()", "", "void"]);
}

#[test]
fn a_reference_that_dangles_projects_to_its_name() {
    let t = TypeReference::object("DoesNotExist".to_string());
    for language in LANGUAGES {
        assert_eq!(project(&t, language), "DoesNotExist");
    }
}

#[test]
fn projection_is_repeatable() {
    let t = reference(
        BaseType::MapOf(
            Box::new(TypeReference::string()),
            Box::new(TypeReference::array(TypeReference::object("Pet".to_string())).nullable()),
        ),
        true,
        true,
    );
    for language in LANGUAGES {
        assert_eq!(project(&t, language), project(&t.clone(), language));
    }
}

#[test]
fn nullable_list_of_strings_by_the_array_flag() {
    let t = reference(BaseType::String, true, true);
    assert_eq!(project(&t, TargetLanguage::Go), "[]string");
    assert_eq!(project(&t, TargetLanguage::Java), "List<String>");
    assert_eq!(project(&t, TargetLanguage::Rust), "Vec<String>");
    assert_eq!(project(&t, TargetLanguage::TypeScript), "string[] | null");
    assert_eq!(project(&t, TargetLanguage::Python), "List[str] | None");
    assert_eq!(null_policy_of(TargetLanguage::Go), NullPolicy::ScalarsOnly);
    assert_eq!(null_policy_of(TargetLanguage::Java), NullPolicy::ScalarsOnly);
    assert_eq!(null_policy_of(TargetLanguage::Rust), NullPolicy::ScalarsOnly);
    assert_eq!(null_policy_of(TargetLanguage::TypeScript), NullPolicy::Always);
    assert_eq!(null_policy_of(TargetLanguage::Python), NullPolicy::Always);
}

#[test]
fn nullable_scalars_are_marked() {
    let t = TypeReference::string().nullable();
    assert_eq!(
        all(&t),
        ["Optional<String>", "str | None", "Option<String>", "*string", "string | null"]
    );
    let named = TypeReference::object("Pet".to_string()).nullable();
    assert_eq!(
        all(&named),
        ["Optional<Pet>", "Pet | None", "Option<Pet>", "*Pet", "Pet | null"]
    );
}

#[test]
fn lists_by_the_base_are_not_wrapped_again() {
    // The builder sets the array flag on an array base: one list, not two.
    let t = TypeReference::array(TypeReference::integer());
    assert_eq!(
        all(&t),
        ["List<Integer>", "List[int]", "Vec<i32>", "[]int64", "number[]"]
    );
    let without_flag = reference(BaseType::Array(Box::new(TypeReference::integer())), false, false);
    assert_eq!(all(&without_flag), all(&t));
    let nullable = TypeReference::array(TypeReference::integer()).nullable();
    assert_eq!(
        all(&nullable),
        ["List<Integer>", "List[int] | None", "Vec<i32>", "[]int64", "number[] | null"]
    );
}

#[test]
fn inner_references_are_projected_in_full() {
    let t = TypeReference::array(TypeReference::string().nullable());
    assert_eq!(
        all(&t),
        [
            "List<Optional<String>>",
            "List[str | None]",
            "Vec<Option<String>>",
            "[]*string",
            "string | null[]"
        ]
    );
    let nested = TypeReference::array(TypeReference::array(TypeReference::boolean()));
    assert_eq!(
        all(&nested),
        ["List<List<Boolean>>", "List[List[bool]]", "Vec<Vec<bool>>", "[][]bool", "boolean[][]"]
    );
}

#[test]
fn maps() {
    let map = BaseType::MapOf(
        Box::new(TypeReference::string()),
        Box::new(TypeReference::object("Pet".to_string())),
    );
    assert_eq!(
        all(&reference(map.clone(), false, false)),
        [
            "Map<String, Pet>",
            "Dict[str, Pet]",
            "std::collections::HashMap<String, Pet>",
            "map[string]Pet",
            "Record<string, Pet>"
        ]
    );
    assert_eq!(
        all(&reference(map.clone(), true, false)),
        [
            "Map<String, Pet>",
            "Dict[str, Pet] | None",
            "std::collections::HashMap<String, Pet>",
            "map[string]Pet",
            "Record<string, Pet> | null"
        ]
    );
    // The array flag on a map gives a list of maps.
    assert_eq!(
        all(&reference(map, false, true)),
        [
            "List<Map<String, Pet>>",
            "List[Dict[str, Pet]]",
            "Vec<std::collections::HashMap<String, Pet>>",
            "[]map[string]Pet",
            "Record<string, Pet>[]"
        ]
    );
}

#[test]
fn base_shapes_hold_inner_references_in_full() {
    let base = BaseType::Array(Box::new(TypeReference::string().nullable()));
    assert_eq!(JavaGenerator::map_type_to_java(&base), "List<Optional<String>>");
    assert_eq!(PythonGenerator::map_type_to_python(&base), "List[str | None]");
    assert_eq!(RustGenerator::map_type_to_rust(&base), "Vec<Option<String>>");
    assert_eq!(project_base(&base, TargetLanguage::Go), "[]*string");
    assert_eq!(project_base(&base, TargetLanguage::TypeScript), "string | null[]");
    let flagged = BaseType::Array(Box::new(reference(BaseType::String, false, true)));
    assert_eq!(JavaGenerator::map_type_to_java(&flagged), "List<List<String>>");
    assert_eq!(PythonGenerator::map_type_to_python(&flagged), "List[List[str]]");
    assert_eq!(RustGenerator::map_type_to_rust(&flagged), "Vec<Vec<String>>");
    let map = BaseType::MapOf(
        Box::new(TypeReference::string()),
        Box::new(reference(BaseType::Long, true, true)),
    );
    assert_eq!(JavaGenerator::map_type_to_java(&map), "Map<String, List<Long>>");
    assert_eq!(PythonGenerator::map_type_to_python(&map), "Dict[str, List[int] | None]");
    assert_eq!(
        RustGenerator::map_type_to_rust(&map),
        "std::collections::HashMap<String, Vec<i64>>"
    );
    assert_eq!(JavaGenerator::map_type_to_java(&BaseType::Object("X".to_string())), "X");
    assert_eq!(RustGenerator::map_type_to_rust(&BaseType::Void), "()");
    assert_eq!(PythonGenerator::map_type_to_python(&BaseType::Any), "Any");
    for language in LANGUAGES {
        let whole = TypeReference { base_type: map.clone(), nullable: false, array: false, generic_parameters: Vec::new() };
        assert_eq!(project_base(&map, language), project(&whole, language));
    }
    let _ = (JavaGenerator::new(), PythonGenerator::new(), RustGenerator::new());
}
