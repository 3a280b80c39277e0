//! Renders a type reference as a type expression of a target language.
//!
//! A projection has three steps, always in this order. The base shape gives
//! a first text: a scalar name, the bare name of a referenced definition,
//! or a list or map around the projections of the inner references. The
//! array flag then wraps that text in the language's list form, unless the
//! base is a list already. Last, a nullable reference gets the language's
//! null marker, by the language's policy.

use vstd::prelude::*;
use crate::config::TargetLanguage;
use crate::types::{BaseShape, BaseType, TypeReference, TypeShape};

verus! {

/// Which nullable references a language marks.
#[derive(Debug, Clone, Copy, PartialEq, Eq, Structural)]
pub enum NullPolicy {
    /// Lists and maps admit an absent or empty state already and stay
    /// unmarked; every other nullable reference is marked.
    ScalarsOnly,
    /// Every nullable reference is marked.
    Always,
}

/// The policy of each language: Go, Java and Rust wrap scalars only,
/// TypeScript and Python append a union with null to everything.
pub open spec fn null_policy(language: TargetLanguage) -> NullPolicy {
    match language {
        TargetLanguage::Go => NullPolicy::ScalarsOnly,
        TargetLanguage::Java => NullPolicy::ScalarsOnly,
        TargetLanguage::Rust => NullPolicy::ScalarsOnly,
        TargetLanguage::TypeScript => NullPolicy::Always,
        TargetLanguage::Python => NullPolicy::Always,
    }
}

/// What a language writes before a type to mark it nullable.
pub open spec fn null_prefix(language: TargetLanguage) -> Seq<char> {
    match language {
        TargetLanguage::Go => "*"@,
        TargetLanguage::Java => "Optional<"@,
        TargetLanguage::Rust => "Option<"@,
        TargetLanguage::TypeScript => ""@,
        TargetLanguage::Python => ""@,
    }
}

/// What a language writes after a type to mark it nullable.
pub open spec fn null_suffix(language: TargetLanguage) -> Seq<char> {
    match language {
        TargetLanguage::Go => ""@,
        TargetLanguage::Java => ">"@,
        TargetLanguage::Rust => ">"@,
        TargetLanguage::TypeScript => " | null"@,
        TargetLanguage::Python => " | None"@,
    }
}

/// What a language writes before the item type of a list.
pub open spec fn list_prefix(language: TargetLanguage) -> Seq<char> {
    match language {
        TargetLanguage::Go => "[]"@,
        TargetLanguage::Java => "List<"@,
        TargetLanguage::Rust => "Vec<"@,
        TargetLanguage::TypeScript => ""@,
        TargetLanguage::Python => "List["@,
    }
}

/// What a language writes after the item type of a list.
pub open spec fn list_suffix(language: TargetLanguage) -> Seq<char> {
    match language {
        TargetLanguage::Go => ""@,
        TargetLanguage::Java => ">"@,
        TargetLanguage::Rust => ">"@,
        TargetLanguage::TypeScript => "[]"@,
        TargetLanguage::Python => "]"@,
    }
}

/// What a language writes before the key type of a map.
pub open spec fn map_prefix(language: TargetLanguage) -> Seq<char> {
    match language {
        TargetLanguage::Go => "map["@,
        TargetLanguage::Java => "Map<"@,
        TargetLanguage::Rust => "std::collections::HashMap<"@,
        TargetLanguage::TypeScript => "Record<"@,
        TargetLanguage::Python => "Dict["@,
    }
}

/// What a language writes between the key type and the value type of a
/// map.
pub open spec fn map_infix(language: TargetLanguage) -> Seq<char> {
    match language {
        TargetLanguage::Go => "]"@,
        _ => ", "@,
    }
}

/// What a language writes after the value type of a map.
pub open spec fn map_suffix(language: TargetLanguage) -> Seq<char> {
    match language {
        TargetLanguage::Go => ""@,
        TargetLanguage::Java => ">"@,
        TargetLanguage::Rust => ">"@,
        TargetLanguage::TypeScript => ">"@,
        TargetLanguage::Python => "]"@,
    }
}

/// The list of `item` in a language.
pub open spec fn list_of(language: TargetLanguage, item: Seq<char>) -> Seq<char> {
    list_prefix(language) + item + list_suffix(language)
}

/// The map from `key` to `value` in a language.
pub open spec fn map_of(language: TargetLanguage, key: Seq<char>, value: Seq<char>) -> Seq<
    char,
> {
    map_prefix(language) + key + map_infix(language) + value + map_suffix(language)
}

/// The type `inner` marked nullable in a language.
pub open spec fn nullable_of(language: TargetLanguage, inner: Seq<char>) -> Seq<char> {
    null_prefix(language) + inner + null_suffix(language)
}

/// The name of a shape that holds no other reference: a language's native
/// scalar, its spelling of "any value" and "no value", or the bare name of
/// a referenced definition.
pub open spec fn scalar_name(base: BaseShape, language: TargetLanguage) -> Seq<char> {
    match base {
        BaseShape::Object(name) => name,
        BaseShape::String => match language {
            TargetLanguage::Java => "String"@,
            TargetLanguage::Python => "str"@,
            TargetLanguage::Rust => "String"@,
            TargetLanguage::Go => "string"@,
            TargetLanguage::TypeScript => "string"@,
        },
        BaseShape::Integer => match language {
            TargetLanguage::Java => "Integer"@,
            TargetLanguage::Python => "int"@,
            TargetLanguage::Rust => "i32"@,
            TargetLanguage::Go => "int64"@,
            TargetLanguage::TypeScript => "number"@,
        },
        BaseShape::Long => match language {
            TargetLanguage::Java => "Long"@,
            TargetLanguage::Python => "int"@,
            TargetLanguage::Rust => "i64"@,
            TargetLanguage::Go => "int64"@,
            TargetLanguage::TypeScript => "number"@,
        },
        BaseShape::Float => match language {
            TargetLanguage::Java => "Float"@,
            TargetLanguage::Python => "float"@,
            TargetLanguage::Rust => "f32"@,
            TargetLanguage::Go => "float32"@,
            TargetLanguage::TypeScript => "number"@,
        },
        BaseShape::Double => match language {
            TargetLanguage::Java => "Double"@,
            TargetLanguage::Python => "float"@,
            TargetLanguage::Rust => "f64"@,
            TargetLanguage::Go => "float64"@,
            TargetLanguage::TypeScript => "number"@,
        },
        BaseShape::Boolean => match language {
            TargetLanguage::Java => "Boolean"@,
            TargetLanguage::Python => "bool"@,
            TargetLanguage::Rust => "bool"@,
            TargetLanguage::Go => "bool"@,
            TargetLanguage::TypeScript => "boolean"@,
        },
        BaseShape::Date => match language {
            TargetLanguage::Java => "LocalDate"@,
            TargetLanguage::Python => "datetime.date"@,
            TargetLanguage::Rust => "chrono::NaiveDate"@,
            TargetLanguage::Go => "time.Time"@,
            TargetLanguage::TypeScript => "Date"@,
        },
        BaseShape::DateTime => match language {
            TargetLanguage::Java => "OffsetDateTime"@,
            TargetLanguage::Python => "datetime.datetime"@,
            TargetLanguage::Rust => "chrono::DateTime<chrono::Utc>"@,
            TargetLanguage::Go => "time.Time"@,
            TargetLanguage::TypeScript => "Date"@,
        },
        BaseShape::Binary => match language {
            TargetLanguage::Java => "byte[]"@,
            TargetLanguage::Python => "bytes"@,
            TargetLanguage::Rust => "Vec<u8>"@,
            TargetLanguage::Go => "[]byte"@,
            TargetLanguage::TypeScript => "Blob | ArrayBuffer | Uint8Array"@,
        },
        BaseShape::Any => match language {
            TargetLanguage::Java => "Object"@,
            TargetLanguage::Python => "Any"@,
            TargetLanguage::Rust => "serde_json::Value"@,
            TargetLanguage::Go => "interface{}"@,
            TargetLanguage::TypeScript => "any"@,
        },
        BaseShape::Void => match language {
            TargetLanguage::Java => "Void"@,
            TargetLanguage::Python => "None"@,
            TargetLanguage::Rust => "()"@,
            TargetLanguage::Go => ""@,
            TargetLanguage::TypeScript => "void"@,
        },
        BaseShape::Array(_) => Seq::empty(),
        BaseShape::MapOf(_, _) => Seq::empty(),
    }
}

/// Whether a reference is a list or a map.
pub open spec fn is_collection(t: TypeShape) -> bool {
    t.array || t.base is Array || t.base is MapOf
}

/// Whether a language marks the nullable reference `t`.
pub open spec fn is_marked(t: TypeShape, language: TargetLanguage) -> bool {
    t.nullable && (null_policy(language) == NullPolicy::Always || !is_collection(t))
}

/// The text of a base shape: a list or a map holds the full projections of
/// its inner references.
pub open spec fn base_form(base: BaseShape, language: TargetLanguage) -> Seq<char>
    decreases base,
{
    match base {
        BaseShape::Array(inner) => list_of(language, projected(*inner, language)),
        BaseShape::MapOf(key, value) => map_of(
            language,
            projected(*key, language),
            projected(*value, language),
        ),
        _ => scalar_name(base, language),
    }
}

/// The base form, in a list where the array flag asks for one that the base
/// does not already give.
pub open spec fn wrapped_form(t: TypeShape, language: TargetLanguage) -> Seq<char>
    decreases t, 0nat,
{
    if t.array && !(t.base is Array) {
        list_of(language, base_form(t.base, language))
    } else {
        base_form(t.base, language)
    }
}

/// The type expression that a reference projects to in a language.
pub open spec fn projected(t: TypeShape, language: TargetLanguage) -> Seq<char>
    decreases t, 1nat,
{
    if is_marked(t, language) {
        nullable_of(language, wrapped_form(t, language))
    } else {
        wrapped_form(t, language)
    }
}


fn null_prefix_text(language: TargetLanguage) -> (r: &'static str)
    ensures
        r@ == null_prefix(language),
{
    match language {
        TargetLanguage::Go => "*",
        TargetLanguage::Java => "Optional<",
        TargetLanguage::Rust => "Option<",
        TargetLanguage::TypeScript => "",
        TargetLanguage::Python => "",
    }
}

fn null_suffix_text(language: TargetLanguage) -> (r: &'static str)
    ensures
        r@ == null_suffix(language),
{
    match language {
        TargetLanguage::Go => "",
        TargetLanguage::Java => ">",
        TargetLanguage::Rust => ">",
        TargetLanguage::TypeScript => " | null",
        TargetLanguage::Python => " | None",
    }
}

fn list_prefix_text(language: TargetLanguage) -> (r: &'static str)
    ensures
        r@ == list_prefix(language),
{
    match language {
        TargetLanguage::Go => "[]",
        TargetLanguage::Java => "List<",
        TargetLanguage::Rust => "Vec<",
        TargetLanguage::TypeScript => "",
        TargetLanguage::Python => "List[",
    }
}

fn list_suffix_text(language: TargetLanguage) -> (r: &'static str)
    ensures
        r@ == list_suffix(language),
{
    match language {
        TargetLanguage::Go => "",
        TargetLanguage::Java => ">",
        TargetLanguage::Rust => ">",
        TargetLanguage::TypeScript => "[]",
        TargetLanguage::Python => "]",
    }
}

fn map_prefix_text(language: TargetLanguage) -> (r: &'static str)
    ensures
        r@ == map_prefix(language),
{
    match language {
        TargetLanguage::Go => "map[",
        TargetLanguage::Java => "Map<",
        TargetLanguage::Rust => "std::collections::HashMap<",
        TargetLanguage::TypeScript => "Record<",
        TargetLanguage::Python => "Dict[",
    }
}

fn map_infix_text(language: TargetLanguage) -> (r: &'static str)
    ensures
        r@ == map_infix(language),
{
    match language {
        TargetLanguage::Go => "]",
        TargetLanguage::Java => ", ",
        TargetLanguage::Rust => ", ",
        TargetLanguage::TypeScript => ", ",
        TargetLanguage::Python => ", ",
    }
}

fn map_suffix_text(language: TargetLanguage) -> (r: &'static str)
    ensures
        r@ == map_suffix(language),
{
    match language {
        TargetLanguage::Go => "",
        TargetLanguage::Java => ">",
        TargetLanguage::Rust => ">",
        TargetLanguage::TypeScript => ">",
        TargetLanguage::Python => "]",
    }
}

/// The name of a shape that holds no other reference.
fn scalar_text<'a>(base: &'a BaseType, language: TargetLanguage) -> (r: &'a str)
    requires
        !(base@ is Array),
        !(base@ is MapOf),
    ensures
        r@ == scalar_name(base@, language),
{
    match base {
        BaseType::Object(name) => name.as_str(),
        BaseType::String => match language {
            TargetLanguage::Java => "String",
            TargetLanguage::Python => "str",
            TargetLanguage::Rust => "String",
            TargetLanguage::Go => "string",
            TargetLanguage::TypeScript => "string",
        },
        BaseType::Integer => match language {
            TargetLanguage::Java => "Integer",
            TargetLanguage::Python => "int",
            TargetLanguage::Rust => "i32",
            TargetLanguage::Go => "int64",
            TargetLanguage::TypeScript => "number",
        },
        BaseType::Long => match language {
            TargetLanguage::Java => "Long",
            TargetLanguage::Python => "int",
            TargetLanguage::Rust => "i64",
            TargetLanguage::Go => "int64",
            TargetLanguage::TypeScript => "number",
        },
        BaseType::Float => match language {
            TargetLanguage::Java => "Float",
            TargetLanguage::Python => "float",
            TargetLanguage::Rust => "f32",
            TargetLanguage::Go => "float32",
            TargetLanguage::TypeScript => "number",
        },
        BaseType::Double => match language {
            TargetLanguage::Java => "Double",
            TargetLanguage::Python => "float",
            TargetLanguage::Rust => "f64",
            TargetLanguage::Go => "float64",
            TargetLanguage::TypeScript => "number",
        },
        BaseType::Boolean => match language {
            TargetLanguage::Java => "Boolean",
            TargetLanguage::Python => "bool",
            TargetLanguage::Rust => "bool",
            TargetLanguage::Go => "bool",
            TargetLanguage::TypeScript => "boolean",
        },
        BaseType::Date => match language {
            TargetLanguage::Java => "LocalDate",
            TargetLanguage::Python => "datetime.date",
            TargetLanguage::Rust => "chrono::NaiveDate",
            TargetLanguage::Go => "time.Time",
            TargetLanguage::TypeScript => "Date",
        },
        BaseType::DateTime => match language {
            TargetLanguage::Java => "OffsetDateTime",
            TargetLanguage::Python => "datetime.datetime",
            TargetLanguage::Rust => "chrono::DateTime<chrono::Utc>",
            TargetLanguage::Go => "time.Time",
            TargetLanguage::TypeScript => "Date",
        },
        BaseType::Binary => match language {
            TargetLanguage::Java => "byte[]",
            TargetLanguage::Python => "bytes",
            TargetLanguage::Rust => "Vec<u8>",
            TargetLanguage::Go => "[]byte",
            TargetLanguage::TypeScript => "Blob | ArrayBuffer | Uint8Array",
        },
        BaseType::Any => match language {
            TargetLanguage::Java => "Object",
            TargetLanguage::Python => "Any",
            TargetLanguage::Rust => "serde_json::Value",
            TargetLanguage::Go => "interface{}",
            TargetLanguage::TypeScript => "any",
        },
        BaseType::Void => match language {
            TargetLanguage::Java => "Void",
            TargetLanguage::Python => "None",
            TargetLanguage::Rust => "()",
            TargetLanguage::Go => "",
            TargetLanguage::TypeScript => "void",
        },
        BaseType::Array(_) => "",
        BaseType::MapOf(_, _) => "",
    }
}

/// The list of `item` in a language.
fn list_text(language: TargetLanguage, item: &str) -> (r: String)
    ensures
        r@ == list_of(language, item@),
{
    let mut r = String::from_str(list_prefix_text(language));
    r.append(item);
    r.append(list_suffix_text(language));
    r
}

/// The map from `key` to `value` in a language.
fn map_text(language: TargetLanguage, key: &str, value: &str) -> (r: String)
    ensures
        r@ == map_of(language, key@, value@),
{
    let mut r = String::from_str(map_prefix_text(language));
    r.append(key);
    r.append(map_infix_text(language));
    r.append(value);
    r.append(map_suffix_text(language));
    r
}

/// The policy by which a language marks nullable references.
pub fn null_policy_of(language: TargetLanguage) -> (r: NullPolicy)
    ensures
        r == null_policy(language),
{
    match language {
        TargetLanguage::Go => NullPolicy::ScalarsOnly,
        TargetLanguage::Java => NullPolicy::ScalarsOnly,
        TargetLanguage::Rust => NullPolicy::ScalarsOnly,
        TargetLanguage::TypeScript => NullPolicy::Always,
        TargetLanguage::Python => NullPolicy::Always,
    }
}

fn base_text(base: &BaseType, language: TargetLanguage) -> (r: String)
    ensures
        r@ == base_form(base@, language),
    decreases base,
{
    match base {
        BaseType::Array(inner) => {
            let item = project(inner, language);
            list_text(language, item.as_str())
        },
        BaseType::MapOf(key, value) => {
            let k = project(key, language);
            let v = project(value, language);
            map_text(language, k.as_str(), v.as_str())
        },
        _ => String::from_str(scalar_text(base, language)),
    }
}

/// Renders `type_ref` as a type expression of `language`.
///
/// The result depends on the reference and the language alone. A reference
/// to a type definition projects to the definition's bare name, whether or
/// not a definition of that name exists.
pub fn project(type_ref: &TypeReference, language: TargetLanguage) -> (r: String)
    ensures
        r@ == projected(type_ref@, language),
    decreases type_ref,
{
    let base = base_text(&type_ref.base_type, language);
    let list_base = match &type_ref.base_type {
        BaseType::Array(_) => true,
        _ => false,
    };
    let map_base = match &type_ref.base_type {
        BaseType::MapOf(_, _) => true,
        _ => false,
    };
    let wrapped = if type_ref.array && !list_base {
        list_text(language, base.as_str())
    } else {
        base
    };
    let collection = type_ref.array || list_base || map_base;
    let marked = type_ref.nullable && (null_policy_of(language) == NullPolicy::Always
        || !collection);
    if marked {
        let mut r = String::from_str(null_prefix_text(language));
        r.append(wrapped.as_str());
        r.append(null_suffix_text(language));
        r
    } else {
        wrapped
    }
}

/// Renders a base shape: the first step of a projection. A list or a map
/// holds the full projections of its inner references.
pub fn project_base(base: &BaseType, language: TargetLanguage) -> (r: String)
    ensures
        r@ == base_form(base@, language),
{
    base_text(base, language)
}

/// A reference to a named definition, without modifiers, projects to the
/// bare name in every language. No table of definitions is consulted, so
/// the name need not exist.
pub proof fn lemma_object_projects_to_its_name(name: Seq<char>, language: TargetLanguage)
    ensures
        projected(TypeReference::plain(BaseShape::Object(name)), language) == name,
{
    reveal_with_fuel(projected, 3);
}

/// Equal references project to equal text in a language.
pub proof fn lemma_projection_is_a_function(
    a: TypeReference,
    b: TypeReference,
    language: TargetLanguage,
)
    requires
        a@ == b@,
    ensures
        projected(a@, language) == projected(b@, language),
{
}

/// A nullable list of a scalar, given by the array flag: a language that
/// marks scalars only leaves the list unmarked, a language that marks
/// everything puts its marker around the list.
pub proof fn lemma_nullable_list(t: TypeShape, language: TargetLanguage)
    requires
        t.nullable,
        t.array,
        !(t.base is Array),
        !(t.base is MapOf),
    ensures
        null_policy(language) == NullPolicy::ScalarsOnly ==> projected(t, language) == list_of(
            language,
            scalar_name(t.base, language),
        ),
        null_policy(language) == NullPolicy::Always ==> projected(t, language) == nullable_of(
            language,
            list_of(language, scalar_name(t.base, language)),
        ),
{
    reveal_with_fuel(projected, 3);
}

} // verus!
