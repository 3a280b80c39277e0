//! The functions that templates can call, by name.
//!
//! A helper reads up to two parameters and a few members of the context it
//! is rendered in, and gives back text or a failure message. Every helper
//! is a function of those inputs alone.

use vstd::prelude::*;
use crate::casing::{camel_case_of, pascal_case_of, snake_case_of, kebab_case_of};
use crate::json::{json_as_bool, json_as_text, json_member_text, json_model, member_text, JsonModel};
use crate::template::{to_camel_case, to_kebab_case, to_pascal_case, to_snake_case};
use crate::text::{replace_char, replaced, str_eq};
use crate::unicode::{lowercase, lowered, raised, uppercase};

verus! {

/// The helpers.
#[derive(Debug, Clone, Copy, PartialEq, Eq, Structural)]
pub enum HelperKind {
    CamelCase,
    SnakeCase,
    PascalCase,
    KebabCase,
    UpperCase,
    LowerCase,
    /// A placeholder that maps every type to `String`.
    TypeMapping,
    MethodName,
    ClassName,
    /// Writes nothing: `else` is handled by the block it stands in.
    Otherwise,
    PackagePath,
    ImportPath,
    ContainsDateType,
    ContainsDatetimeType,
    Equal,
    NotEqual,
    Either,
    JsonSchema,
    /// Protocol buffer scalar names to TypeScript. Meant for templates of
    /// that language only.
    GrpcTypeMapping,
    /// Protocol buffer scalar names to Go. Meant for templates of that
    /// language only.
    GoType,
    /// Schema type names to TypeScript. Meant for templates of that
    /// language only.
    TsType,
    /// The TypeScript literal a type starts out as. Meant for templates of
    /// that language only.
    DefaultValue,
}

/// The text of a parameter that is there and is a text.
pub open spec fn parameter_text(parameter: Option<JsonModel>) -> Option<Seq<char>> {
    match parameter {
        Some(JsonModel::Text(t)) => Some(t),
        _ => None,
    }
}

/// The truth value of a parameter that is there and is a boolean; false
/// for any other.
pub open spec fn parameter_flag(parameter: Option<JsonModel>) -> bool {
    match parameter {
        Some(JsonModel::Bool(b)) => b,
        _ => false,
    }
}

/// The type name that a type mapping helper reads: the parameter where it
/// is a text, `string` otherwise.
pub open spec fn type_name_of(parameter: Option<JsonModel>) -> Seq<char> {
    match parameter_text(parameter) {
        Some(t) => t,
        None => "string"@,
    }
}

/// `true` or `false`.
pub open spec fn truth_text(b: bool) -> Seq<char> {
    if b {
        "true"@
    } else {
        "false"@
    }
}

/// The TypeScript type for a protocol buffer type name. A name that is not
/// a scalar stays as it is.
pub open spec fn grpc_type_name(name: Seq<char>) -> Seq<char> {
    if name == "string"@ {
        "string"@
    } else if name == "int32"@ || name == "int64"@ || name == "uint32"@ || name == "uint64"@
        || name == "sint32"@ || name == "sint64"@ || name == "float"@ || name == "double"@ {
        "number"@
    } else if name == "bool"@ {
        "boolean"@
    } else if name == "bytes"@ {
        "Uint8Array"@
    } else {
        name
    }
}

/// The Go type for a protocol buffer type name. A name that is not a scalar
/// stays as it is.
pub open spec fn go_type_name(name: Seq<char>) -> Seq<char> {
    if name == "float"@ {
        "float32"@
    } else if name == "double"@ {
        "float64"@
    } else if name == "bytes"@ {
        "[]byte"@
    } else {
        name
    }
}

/// The TypeScript type for a schema type name. A name that is not known
/// stays as it is.
pub open spec fn ts_type_name(name: Seq<char>) -> Seq<char> {
    if name == "string"@ {
        "string"@
    } else if name == "integer"@ || name == "number"@ || name == "int32"@ || name == "int64"@
        || name == "float"@ || name == "double"@ {
        "number"@
    } else if name == "boolean"@ || name == "bool"@ {
        "boolean"@
    } else if name == "array"@ {
        "any[]"@
    } else if name == "object"@ {
        "any"@
    } else {
        name
    }
}

/// The TypeScript literal that a value of the named type starts out as.
pub open spec fn default_value_text(name: Seq<char>) -> Seq<char> {
    if name == "string"@ {
        "''"@
    } else if name == "number"@ || name == "int32"@ || name == "int64"@ || name == "float"@
        || name == "double"@ {
        "0"@
    } else if name == "boolean"@ || name == "bool"@ {
        "false"@
    } else if name == "array"@ {
        "[]"@
    } else if name == "object"@ {
        "{}"@
    } else {
        "undefined"@
    }
}

/// The line that imports the class `class_name` in a language, given by its
/// key. `package` is the Java package from the context, if it has one.
pub open spec fn import_line(language: Seq<char>, package: Option<Seq<char>>, class_name: Seq<
    char,
>) -> Seq<char> {
    if language == "java"@ {
        "import "@ + (match package {
            Some(p) => p,
            None => "com.example"@,
        }) + "."@ + class_name + ";"@
    } else if language == "python"@ {
        "from ."@ + snake_case_of(class_name) + " import "@ + pascal_case_of(class_name)
    } else if language == "rust"@ {
        "use crate::"@ + snake_case_of(class_name) + ";"@
    } else {
        class_name
    }
}

/// A failure with the given message.
pub open spec fn failure(message: Seq<char>) -> Result<Seq<char>, Seq<char>> {
    Err(message)
}

/// What a helper that transforms one text gives: the transformed first
/// parameter, or the failure `message` where the parameter is missing or is
/// no text.
pub open spec fn transformed(
    first: Option<JsonModel>,
    message: Seq<char>,
    transform: spec_fn(Seq<char>) -> Seq<char>,
) -> Result<Seq<char>, Seq<char>> {
    match parameter_text(first) {
        Some(t) => Ok(transform(t)),
        None => Err(message),
    }
}

/// What the helper `kind` gives for its first two parameters and the
/// context `data`.
pub open spec fn helper_output(
    kind: HelperKind,
    first: Option<JsonModel>,
    second: Option<JsonModel>,
    data: JsonModel,
) -> Result<Seq<char>, Seq<char>> {
    match kind {
        HelperKind::CamelCase => transformed(
            first,
            "Parameter required for camel_case"@,
            |t: Seq<char>| camel_case_of(t),
        ),
        HelperKind::SnakeCase => transformed(
            first,
            "Parameter required for snake_case"@,
            |t: Seq<char>| snake_case_of(t),
        ),
        HelperKind::PascalCase => transformed(
            first,
            "Parameter required for pascal_case"@,
            |t: Seq<char>| pascal_case_of(t),
        ),
        HelperKind::KebabCase => transformed(
            first,
            "Parameter required for kebab_case"@,
            |t: Seq<char>| kebab_case_of(t),
        ),
        HelperKind::UpperCase => transformed(
            first,
            "Parameter required for upper_case"@,
            |t: Seq<char>| raised(t),
        ),
        HelperKind::LowerCase => transformed(
            first,
            "Parameter required for lower_case"@,
            |t: Seq<char>| lowered(t),
        ),
        HelperKind::MethodName => transformed(
            first,
            "Parameter required for method_name"@,
            |t: Seq<char>| camel_case_of(t),
        ),
        HelperKind::PackagePath => transformed(
            first,
            "Package name required"@,
            |t: Seq<char>| replaced(t, '.', "/"@),
        ),
        HelperKind::TypeMapping => if first is None {
            Err("Type reference required for type_mapping"@)
        } else if member_text(data, "language"@) is None {
            Err("Language context required"@)
        } else {
            Ok("String"@)
        },
        HelperKind::ClassName => match first {
            Some(parameter) => match parameter_text(first) {
                Some(t) => Ok(pascal_case_of(t)),
                None => Err("Invalid parameter for class_name"@),
            },
            None => match member_text(data, "class_name"@) {
                Some(t) => Ok(pascal_case_of(t)),
                None => Err("class_name not found in context and no parameter provided"@),
            },
        },
        HelperKind::Otherwise => Ok(Seq::empty()),
        HelperKind::ImportPath => match parameter_text(first) {
            None => Err("Class name required"@),
            Some(class_name) => match member_text(data, "language"@) {
                None => Err("Language context required"@),
                Some(language) => Ok(
                    import_line(language, member_text(data, "package"@), class_name),
                ),
            },
        },
        HelperKind::ContainsDateType => Ok("false"@),
        HelperKind::ContainsDatetimeType => Ok("false"@),
        HelperKind::Equal => Ok(
            truth_text(
                parameter_text(first) is Some && parameter_text(second) is Some
                    && parameter_text(first) == parameter_text(second),
            ),
        ),
        HelperKind::NotEqual => Ok(
            truth_text(
                !(parameter_text(first) is Some && parameter_text(second) is Some
                    && parameter_text(first) == parameter_text(second)),
            ),
        ),
        HelperKind::Either => Ok(truth_text(parameter_flag(first) || parameter_flag(second))),
        HelperKind::JsonSchema => if first is None {
            Err("Type reference required for json_schema"@)
        } else {
            Ok("{ \"type\": \"object\", \"properties\": {} }"@)
        },
        HelperKind::GrpcTypeMapping => Ok(grpc_type_name(type_name_of(first))),
        HelperKind::GoType => Ok(go_type_name(type_name_of(first))),
        HelperKind::TsType => Ok(ts_type_name(type_name_of(first))),
        HelperKind::DefaultValue => Ok(default_value_text(type_name_of(first))),
    }
}

/// The documents of an optional value.
pub open spec fn optional_model(value: Option<&serde_json::Value>) -> Option<JsonModel> {
    match value {
        Some(v) => Some(json_model(*v)),
        None => None,
    }
}

/// The views of a result of strings.
pub open spec fn result_view(r: Result<String, String>) -> Result<Seq<char>, Seq<char>> {
    match r {
        Ok(s) => Ok(s@),
        Err(m) => Err(m@),
    }
}

fn parameter_text_of(parameter: Option<&serde_json::Value>) -> (r: Option<String>)
    ensures
        match r {
            Some(s) => parameter_text(optional_model(parameter)) == Some(s@),
            None => parameter_text(optional_model(parameter)) is None,
        },
{
    match parameter {
        Some(value) => json_as_text(value),
        None => None,
    }
}

fn parameter_flag_of(parameter: Option<&serde_json::Value>) -> (r: bool)
    ensures
        r == parameter_flag(optional_model(parameter)),
{
    match parameter {
        Some(value) => match json_as_bool(value) {
            Some(b) => b,
            None => false,
        },
        None => false,
    }
}

fn type_name_text(parameter: Option<&serde_json::Value>) -> (r: String)
    ensures
        r@ == type_name_of(optional_model(parameter)),
{
    match parameter_text_of(parameter) {
        Some(t) => t,
        None => String::from_str("string"),
    }
}

fn truth(b: bool) -> (r: String)
    ensures
        r@ == truth_text(b),
{
    if b {
        String::from_str("true")
    } else {
        String::from_str("false")
    }
}

/// The TypeScript type for a protocol buffer type name.
pub fn map_grpc_type(name: &str) -> (r: String)
    ensures
        r@ == grpc_type_name(name@),
{
    if str_eq(name, "string") {
        String::from_str("string")
    } else if str_eq(name, "int32") || str_eq(name, "int64") || str_eq(name, "uint32") || str_eq(
        name,
        "uint64",
    ) || str_eq(name, "sint32") || str_eq(name, "sint64") || str_eq(name, "float") || str_eq(
        name,
        "double",
    ) {
        String::from_str("number")
    } else if str_eq(name, "bool") {
        String::from_str("boolean")
    } else if str_eq(name, "bytes") {
        String::from_str("Uint8Array")
    } else {
        String::from_str(name)
    }
}

/// The Go type for a protocol buffer type name.
pub fn map_go_type(name: &str) -> (r: String)
    ensures
        r@ == go_type_name(name@),
{
    if str_eq(name, "float") {
        String::from_str("float32")
    } else if str_eq(name, "double") {
        String::from_str("float64")
    } else if str_eq(name, "bytes") {
        String::from_str("[]byte")
    } else {
        String::from_str(name)
    }
}

/// The TypeScript type for a schema type name.
pub fn map_ts_type(name: &str) -> (r: String)
    ensures
        r@ == ts_type_name(name@),
{
    if str_eq(name, "string") {
        String::from_str("string")
    } else if str_eq(name, "integer") || str_eq(name, "number") || str_eq(name, "int32")
        || str_eq(name, "int64") || str_eq(name, "float") || str_eq(name, "double") {
        String::from_str("number")
    } else if str_eq(name, "boolean") || str_eq(name, "bool") {
        String::from_str("boolean")
    } else if str_eq(name, "array") {
        String::from_str("any[]")
    } else if str_eq(name, "object") {
        String::from_str("any")
    } else {
        String::from_str(name)
    }
}

/// The TypeScript literal that a value of the named type starts out as.
pub fn default_value_for(name: &str) -> (r: String)
    ensures
        r@ == default_value_text(name@),
{
    if str_eq(name, "string") {
        String::from_str("''")
    } else if str_eq(name, "number") || str_eq(name, "int32") || str_eq(name, "int64") || str_eq(
        name,
        "float",
    ) || str_eq(name, "double") {
        String::from_str("0")
    } else if str_eq(name, "boolean") || str_eq(name, "bool") {
        String::from_str("false")
    } else if str_eq(name, "array") {
        String::from_str("[]")
    } else if str_eq(name, "object") {
        String::from_str("{}")
    } else {
        String::from_str("undefined")
    }
}

/// The line that imports the class `class_name` in the language with the
/// key `language`.
pub fn import_line_for(language: &str, package: &Option<String>, class_name: &str) -> (r:
    String)
    ensures
        r@ == import_line(
            language@,
            match package {
                Some(p) => Some(p@),
                None => None,
            },
            class_name@,
        ),
{
    if str_eq(language, "java") {
        let mut r = String::from_str("import ");
        match package {
            Some(p) => r.append(p.as_str()),
            None => r.append("com.example"),
        }
        r.append(".");
        r.append(class_name);
        r.append(";");
        r
    } else if str_eq(language, "python") {
        let mut r = String::from_str("from .");
        let snake = to_snake_case(class_name);
        r.append(snake.as_str());
        r.append(" import ");
        let pascal = to_pascal_case(class_name);
        r.append(pascal.as_str());
        r
    } else if str_eq(language, "rust") {
        let mut r = String::from_str("use crate::");
        let snake = to_snake_case(class_name);
        r.append(snake.as_str());
        r.append(";");
        r
    } else {
        String::from_str(class_name)
    }
}

/// Runs the helper `kind` on its first two parameters, where the template
/// gave them, and the context `data`.
pub fn run_helper(
    kind: HelperKind,
    first: Option<&serde_json::Value>,
    second: Option<&serde_json::Value>,
    data: &serde_json::Value,
) -> (r: Result<String, String>)
    ensures
        result_view(r) == helper_output(
            kind,
            optional_model(first),
            optional_model(second),
            json_model(*data),
        ),
{
    match kind {
        HelperKind::CamelCase => match parameter_text_of(first) {
            Some(t) => Ok(to_camel_case(t.as_str())),
            None => Err(String::from_str("Parameter required for camel_case")),
        },
        HelperKind::SnakeCase => match parameter_text_of(first) {
            Some(t) => Ok(to_snake_case(t.as_str())),
            None => Err(String::from_str("Parameter required for snake_case")),
        },
        HelperKind::PascalCase => match parameter_text_of(first) {
            Some(t) => Ok(to_pascal_case(t.as_str())),
            None => Err(String::from_str("Parameter required for pascal_case")),
        },
        HelperKind::KebabCase => match parameter_text_of(first) {
            Some(t) => Ok(to_kebab_case(t.as_str())),
            None => Err(String::from_str("Parameter required for kebab_case")),
        },
        HelperKind::UpperCase => match parameter_text_of(first) {
            Some(t) => Ok(uppercase(t.as_str())),
            None => Err(String::from_str("Parameter required for upper_case")),
        },
        HelperKind::LowerCase => match parameter_text_of(first) {
            Some(t) => Ok(lowercase(t.as_str())),
            None => Err(String::from_str("Parameter required for lower_case")),
        },
        HelperKind::MethodName => match parameter_text_of(first) {
            Some(t) => Ok(to_camel_case(t.as_str())),
            None => Err(String::from_str("Parameter required for method_name")),
        },
        HelperKind::PackagePath => match parameter_text_of(first) {
            Some(t) => Ok(replace_char(t.as_str(), '.', "/")),
            None => Err(String::from_str("Package name required")),
        },
        HelperKind::TypeMapping => {
            if first.is_none() {
                Err(String::from_str("Type reference required for type_mapping"))
            } else if json_member_text(data, "language").is_none() {
                Err(String::from_str("Language context required"))
            } else {
                Ok(String::from_str("String"))
            }
        },
        HelperKind::ClassName => match first {
            Some(_) => match parameter_text_of(first) {
                Some(t) => Ok(to_pascal_case(t.as_str())),
                None => Err(String::from_str("Invalid parameter for class_name")),
            },
            None => match json_member_text(data, "class_name") {
                Some(t) => Ok(to_pascal_case(t.as_str())),
                None => Err(
                    String::from_str("class_name not found in context and no parameter provided"),
                ),
            },
        },
        HelperKind::Otherwise => Ok(String::new()),
        HelperKind::ImportPath => match parameter_text_of(first) {
            None => Err(String::from_str("Class name required")),
            Some(class_name) => match json_member_text(data, "language") {
                None => Err(String::from_str("Language context required")),
                Some(language) => {
                    let package = json_member_text(data, "package");
                    Ok(import_line_for(language.as_str(), &package, class_name.as_str()))
                },
            },
        },
        HelperKind::ContainsDateType => Ok(String::from_str("false")),
        HelperKind::ContainsDatetimeType => Ok(String::from_str("false")),
        HelperKind::Equal => {
            let same = match (parameter_text_of(first), parameter_text_of(second)) {
                (Some(l), Some(r)) => str_eq(l.as_str(), r.as_str()),
                _ => false,
            };
            Ok(truth(same))
        },
        HelperKind::NotEqual => {
            let same = match (parameter_text_of(first), parameter_text_of(second)) {
                (Some(l), Some(r)) => str_eq(l.as_str(), r.as_str()),
                _ => false,
            };
            Ok(truth(!same))
        },
        HelperKind::Either => Ok(truth(parameter_flag_of(first) || parameter_flag_of(second))),
        HelperKind::JsonSchema => {
            if first.is_none() {
                Err(String::from_str("Type reference required for json_schema"))
            } else {
                Ok(String::from_str("{ \"type\": \"object\", \"properties\": {} }"))
            }
        },
        HelperKind::GrpcTypeMapping => Ok(map_grpc_type(type_name_text(first).as_str())),
        HelperKind::GoType => Ok(map_go_type(type_name_text(first).as_str())),
        HelperKind::TsType => Ok(map_ts_type(type_name_text(first).as_str())),
        HelperKind::DefaultValue => Ok(default_value_for(type_name_text(first).as_str())),
    }
}

} // verus!
