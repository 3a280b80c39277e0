//! The reader of OpenAPI documents.
//!
//! A document arrives as a description: the parts of it that the reader
//! looks at, held as plain values. Turning the text of a document into its
//! description is left to the caller.

use vstd::prelude::*;
use crate::error::GeneratorError;
use crate::json::{json_copy, json_model, JsonModel};
use crate::serialize::{copy_optional_text, copy_texts, optional_view};
use crate::text::{replace_char, replaced, str_eq, texts};
use crate::types::{
    ApiSpec, AuthenticationSpec, AuthenticationType, BaseShape, BaseType, Header, HttpMethod,
    Operation, Parameter, ParameterType, Property, Response, TypeDefinition, TypeKind,
    TypeReference, TypeShape,
};

verus! {

/// The format of a string schema, as far as the reader tells formats
/// apart.
#[derive(Debug, Clone, Copy, PartialEq, Eq, Structural)]
pub enum StringFormat {
    Date,
    DateTime,
    Binary,
    Other,
}

/// What kind of schema a schema is.
#[derive(Debug)]
pub enum SchemaShape {
    Text(StringFormat),
    Integer { int64: bool },
    Number { double: bool },
    Boolean,
    /// An array, with the schema of its items where the document gives it
    /// in place.
    Array(Option<Box<SchemaDescription>>),
    Object(ObjectDescription),
    OneOf,
    AllOf,
    Other,
}

/// A property of an object schema. The schema is none where the document
/// gives a reference in its place.
#[derive(Debug)]
pub struct PropertyDescription {
    pub name: String,
    pub schema: Option<SchemaDescription>,
}

#[derive(Debug)]
pub struct ObjectDescription {
    pub properties: Vec<PropertyDescription>,
    pub required: Vec<String>,
    pub additional_properties: bool,
}

#[derive(Debug)]
pub struct SchemaDescription {
    pub shape: SchemaShape,
    pub nullable: bool,
    pub description: Option<String>,
    pub read_only: bool,
    pub write_only: bool,
    pub deprecated: bool,
    pub default_value: Option<serde_json::Value>,
}

#[derive(Debug)]
pub struct ParameterDescription {
    pub name: String,
    pub description: Option<String>,
    pub place: ParameterType,
    pub required: bool,
}

#[derive(Debug)]
pub struct HeaderDescription {
    pub name: String,
    pub description: Option<String>,
}

/// The content of a body for one media type. The schema is none where the
/// document gives none, or a reference in its place.
#[derive(Debug)]
pub struct ContentDescription {
    pub media_type: String,
    pub schema: Option<SchemaDescription>,
}

#[derive(Debug)]
pub struct ResponseDescription {
    /// The status code, where the response is given for one code.
    pub status_code: Option<u16>,
    pub description: String,
    pub content: Vec<ContentDescription>,
    pub headers: Vec<HeaderDescription>,
}

#[derive(Debug)]
pub struct OperationDescription {
    pub method: HttpMethod,
    pub operation_id: Option<String>,
    pub description: Option<String>,
    pub tags: Vec<String>,
    pub deprecated: bool,
    pub parameters: Vec<ParameterDescription>,
    /// The content of the request body; empty where the document gives no
    /// request body in place.
    pub request_content: Vec<ContentDescription>,
    pub responses: Vec<ResponseDescription>,
}

/// A path with its operations, in the order get, post, put, delete, patch,
/// head, options, trace.
#[derive(Debug)]
pub struct PathDescription {
    pub path: String,
    pub operations: Vec<OperationDescription>,
}

#[derive(Debug)]
pub enum SecurityDescription {
    ApiKey,
    Http { scheme: String },
    OAuth2,
    OpenIdConnect,
}

/// A named schema of the document's components. The schema is none where
/// the document gives a reference in its place.
#[derive(Debug)]
pub struct NamedSchema {
    pub name: String,
    pub schema: Option<SchemaDescription>,
}

#[derive(Debug)]
pub struct DocumentDescription {
    pub title: String,
    pub version: String,
    pub description: Option<String>,
    /// The address of each server, in order.
    pub servers: Vec<String>,
    pub paths: Vec<PathDescription>,
    pub schemas: Vec<NamedSchema>,
    /// The security schemes given in place, in order.
    pub security_schemes: Vec<SecurityDescription>,
}

/// The format that a document is read in, chosen by the extension of its
/// file.
#[derive(Debug, Clone, Copy, PartialEq, Eq, Structural)]
pub enum DocumentFormat {
    Json,
    Yaml,
}

/// The base shape of a scalar schema.
pub open spec fn scalar_base(shape: SchemaShape) -> BaseShape {
    match shape {
        SchemaShape::Text(StringFormat::Date) => BaseShape::Date,
        SchemaShape::Text(StringFormat::DateTime) => BaseShape::DateTime,
        SchemaShape::Text(StringFormat::Binary) => BaseShape::Binary,
        SchemaShape::Text(StringFormat::Other) => BaseShape::String,
        SchemaShape::Integer { int64 } => if int64 {
            BaseShape::Long
        } else {
            BaseShape::Integer
        },
        SchemaShape::Number { double } => if double {
            BaseShape::Double
        } else {
            BaseShape::Float
        },
        SchemaShape::Boolean => BaseShape::Boolean,
        SchemaShape::Object(_) => BaseShape::Object("Object"@),
        _ => BaseShape::Any,
    }
}

/// The type reference that a schema stands for. A scalar keeps the
/// schema's nullability. An array with an item schema is a list of the
/// item's reference, never nullable; an array without one is a list of
/// strings. An object is a reference to `Object`. Anything else is any
/// value.
pub open spec fn reference_of(schema: SchemaDescription) -> TypeShape
    decreases schema,
{
    match schema.shape {
        SchemaShape::Array(Some(item)) => TypeShape {
            base: BaseShape::Array(Box::new(reference_of(*item))),
            nullable: false,
            array: true,
            generic_parameters: Seq::empty(),
        },
        SchemaShape::Array(None) => TypeShape {
            base: BaseShape::Array(Box::new(TypeReference::plain(BaseShape::String))),
            nullable: schema.nullable,
            array: true,
            generic_parameters: Seq::empty(),
        },
        _ => TypeShape {
            base: scalar_base(schema.shape),
            nullable: schema.nullable,
            array: false,
            generic_parameters: Seq::empty(),
        },
    }
}

/// The schema that types a body: the schema of its JSON content, the
/// first content whose media type is `application/json`.
pub open spec fn json_schema_of(content: Seq<ContentDescription>) -> Option<SchemaDescription>
    decreases content.len(),
{
    if content.len() == 0 {
        None
    } else if content[0].media_type@ == "application/json"@ {
        content[0].schema
    } else {
        json_schema_of(content.drop_first())
    }
}

/// The reference of an optional schema.
pub open spec fn optional_reference(schema: Option<SchemaDescription>) -> Option<TypeShape> {
    match schema {
        Some(s) => Some(reference_of(s)),
        None => None,
    }
}

/// The shape of an optional reference.
pub open spec fn optional_shape(t: Option<TypeReference>) -> Option<TypeShape> {
    match t {
        Some(t) => Some(t@),
        None => None,
    }
}

/// The kind of type definition that a schema gives.
pub open spec fn kind_of(shape: SchemaShape) -> TypeKind {
    match shape {
        SchemaShape::Array(_) => TypeKind::Array,
        SchemaShape::OneOf => TypeKind::Union,
        SchemaShape::AllOf => TypeKind::Interface,
        _ => TypeKind::Object,
    }
}

/// The document of an optional JSON value.
pub open spec fn optional_document(value: Option<serde_json::Value>) -> Option<JsonModel> {
    match value {
        Some(v) => Some(json_model(v)),
        None => None,
    }
}

/// Whether `p` is the property that the schema `schema` gives under
/// `name`.
pub open spec fn is_property_of(
    p: Property,
    name: Seq<char>,
    schema: SchemaDescription,
    required: Seq<Seq<char>>,
) -> bool {
    &&& p.name@ == name
    &&& optional_view(p.description) == optional_view(schema.description)
    &&& p.data_type@ == reference_of(schema)
    &&& p.required == required.contains(name)
    &&& p.read_only == schema.read_only
    &&& p.write_only == schema.write_only
    &&& p.deprecated == schema.deprecated
    &&& optional_document(p.default_value) == optional_document(schema.default_value)
}

/// The properties of an object that are given in place, in order.
pub open spec fn inline_properties(properties: Seq<PropertyDescription>) -> Seq<
    PropertyDescription,
> {
    properties.filter(|p: PropertyDescription| p.schema is Some)
}

/// Whether `properties` are the properties that the object gives in
/// place, in order.
pub open spec fn are_properties_of(properties: Seq<Property>, object: ObjectDescription) -> bool {
    let given = inline_properties(object.properties@);
    &&& properties.len() == given.len()
    &&& forall|i: int|
        0 <= i < given.len() ==> is_property_of(
            #[trigger] properties[i],
            given[i].name@,
            given[i].schema->0,
            texts(object.required@),
        )
}

/// Whether `t` is the type definition that the schema gives under `name`.
pub open spec fn is_definition_of(t: TypeDefinition, name: Seq<char>, schema: SchemaDescription) -> bool {
    &&& t.name@ == name
    &&& optional_view(t.description) == optional_view(schema.description)
    &&& t.type_kind == kind_of(schema.shape)
    &&& match schema.shape {
        SchemaShape::Object(object) => texts(t.required@) == texts(object.required@)
            && t.additional_properties == object.additional_properties && are_properties_of(
            t.properties@,
            object,
        ),
        _ => t.required@.len() == 0 && !t.additional_properties && t.properties@.len() == 0,
    }
}

/// The name of a method in lower case.
pub open spec fn method_key(method: HttpMethod) -> Seq<char> {
    match method {
        HttpMethod::Get => "get"@,
        HttpMethod::Post => "post"@,
        HttpMethod::Put => "put"@,
        HttpMethod::Delete => "delete"@,
        HttpMethod::Patch => "patch"@,
        HttpMethod::Head => "head"@,
        HttpMethod::Options => "options"@,
        HttpMethod::Trace => "trace"@,
    }
}

/// The id of an operation that names none: the method in lower case, an
/// underscore, and the path with an underscore for every slash and without
/// braces.
pub open spec fn default_operation_id(method: HttpMethod, path: Seq<char>) -> Seq<char> {
    method_key(method) + "_"@ + replaced(
        replaced(replaced(path, '/', "_"@), '{', ""@),
        '}',
        ""@,
    )
}

/// The id of an operation.
pub open spec fn operation_id_of(op: OperationDescription, path: Seq<char>) -> Seq<char> {
    match op.operation_id {
        Some(id) => id@,
        None => default_operation_id(op.method, path),
    }
}

/// Whether `p` is the parameter that `d` describes: a string, without a
/// default.
pub open spec fn is_parameter_of(p: Parameter, d: ParameterDescription) -> bool {
    &&& p.name@ == d.name@
    &&& optional_view(p.description) == optional_view(d.description)
    &&& p.parameter_type == d.place
    &&& p.data_type@ == TypeReference::plain(BaseShape::String)
    &&& p.required == d.required
    &&& p.default_value is None
}

/// Whether `h` is the header that `d` describes: an optional string.
pub open spec fn is_header_of(h: Header, d: HeaderDescription) -> bool {
    &&& h.name@ == d.name@
    &&& optional_view(h.description) == optional_view(d.description)
    &&& h.data_type@ == TypeReference::plain(BaseShape::String)
    &&& !h.required
}

/// Whether `r` is the response that `d` describes, with JSON content.
pub open spec fn is_response_of(r: Response, d: ResponseDescription) -> bool {
    &&& r.status_code == d.status_code
    &&& r.description@ == d.description@
    &&& r.content_type@ == "application/json"@
    &&& optional_shape(r.data_type) == optional_reference(json_schema_of(d.content@))
    &&& r.headers@.len() == d.headers@.len()
    &&& forall|i: int|
        0 <= i < d.headers@.len() ==> is_header_of(#[trigger] r.headers@[i], d.headers@[i])
}

/// Whether `op` is the operation that `d` describes at `path`.
pub open spec fn is_operation_of(op: Operation, path: Seq<char>, d: OperationDescription) -> bool {
    &&& op.id@ == operation_id_of(d, path)
    &&& op.name@ == operation_id_of(d, path)
    &&& optional_view(op.description) == optional_view(d.description)
    &&& op.method == d.method
    &&& op.path@ == path
    &&& op.parameters@.len() == d.parameters@.len()
    &&& forall|i: int|
        0 <= i < d.parameters@.len() ==> is_parameter_of(
            #[trigger] op.parameters@[i],
            d.parameters@[i],
        )
    &&& optional_shape(op.request_body) == optional_reference(json_schema_of(d.request_content@))
    &&& op.responses@.len() == d.responses@.len()
    &&& forall|i: int|
        0 <= i < d.responses@.len() ==> is_response_of(
            #[trigger] op.responses@[i],
            d.responses@[i],
        )
    &&& texts(op.tags@) == texts(d.tags@)
    &&& op.deprecated == d.deprecated
    &&& op.cache_config is None
}

/// The kind of authentication that a security scheme stands for. An HTTP
/// scheme other than `basic` and `bearer` is a custom kind under the
/// scheme's name.
pub open spec fn is_authentication_of(a: AuthenticationSpec, d: SecurityDescription) -> bool {
    &&& a.flows@.len() == 0
    &&& match d {
        SecurityDescription::ApiKey => a.auth_type is ApiKey,
        SecurityDescription::Http { scheme } => if scheme@ == "basic"@ {
            a.auth_type is Basic
        } else if scheme@ == "bearer"@ {
            a.auth_type is Bearer
        } else {
            a.auth_type matches AuthenticationType::Custom(name) && name@ == scheme@
        },
        SecurityDescription::OAuth2 => a.auth_type is OAuth2,
        SecurityDescription::OpenIdConnect => a.auth_type is OpenIdConnect,
    }
}

/// A path of the document with one of its operations.
pub struct Located {
    pub path: Seq<char>,
    pub operation: OperationDescription,
}

/// The operations of one path, each with the path.
pub open spec fn located_at(path: PathDescription) -> Seq<Located> {
    path.operations@.map_values(|d: OperationDescription| Located { path: path.path@, operation: d })
}

/// The operations of the paths, in the order of the paths and, within a
/// path, of its operations.
pub open spec fn located(paths: Seq<PathDescription>) -> Seq<Located>
    decreases paths.len(),
{
    if paths.len() == 0 {
        Seq::empty()
    } else {
        located(paths.drop_last()) + located_at(paths.last())
    }
}

/// The named schemas that are given in place, in order.
pub open spec fn inline_schemas(schemas: Seq<NamedSchema>) -> Seq<NamedSchema> {
    schemas.filter(|s: NamedSchema| s.schema is Some)
}

/// Whether `spec` is the API that the document describes: its title and
/// version, the address of its first server, every operation of every
/// path, a type definition for every schema given in place, and the
/// authentication of its first security scheme.
pub open spec fn is_api_of(spec: ApiSpec, document: DocumentDescription) -> bool {
    let operations = located(document.paths@);
    let schemas = inline_schemas(document.schemas@);
    &&& spec.name@ == document.title@
    &&& spec.version@ == document.version@
    &&& optional_view(spec.description) == optional_view(document.description)
    &&& match spec.base_url {
        Some(url) => document.servers@.len() > 0 && url@ == document.servers@[0]@,
        None => document.servers@.len() == 0,
    }
    &&& spec.operations@.len() == operations.len()
    &&& forall|i: int|
        0 <= i < operations.len() ==> is_operation_of(
            #[trigger] spec.operations@[i],
            operations[i].path,
            operations[i].operation,
        )
    &&& spec.types@.len() == schemas.len()
    &&& forall|i: int|
        0 <= i < schemas.len() ==> is_definition_of(
            #[trigger] spec.types@[i],
            schemas[i].name@,
            schemas[i].schema->0,
        )
    &&& match spec.authentication {
        Some(a) => document.security_schemes@.len() > 0 && is_authentication_of(
            a,
            document.security_schemes@[0],
        ),
        None => document.security_schemes@.len() == 0,
    }
}

fn reference(base_type: BaseType, nullable: bool, array: bool) -> (r: TypeReference)
    ensures
        r@ == (TypeShape {
            base: base_type@,
            nullable,
            array,
            generic_parameters: Seq::empty(),
        }),
{
    let r = TypeReference { base_type, nullable, array, generic_parameters: Vec::new() };
    proof {
        reveal_with_fuel(TypeReference::shape, 2);
        assert(r.shape().generic_parameters =~= Seq::empty());
    }
    r
}

fn contains_text(list: &Vec<String>, wanted: &str) -> (r: bool)
    ensures
        r == texts(list@).contains(wanted@),
{
    let mut i: usize = 0;
    while i < list.len()
        invariant
            i <= list@.len(),
            forall|k: int| 0 <= k < i ==> texts(list@)[k] != wanted@,
        decreases list@.len() - i,
    {
        if str_eq(list[i].as_str(), wanted) {
            assert(texts(list@)[i as int] == wanted@);
            return true;
        }
        i += 1;
    }
    false
}

fn find_json_schema(content: &Vec<ContentDescription>) -> (r: Option<&SchemaDescription>)
    ensures
        match r {
            Some(schema) => json_schema_of(content@) == Some(*schema),
            None => json_schema_of(content@) is None,
        },
{
    let mut i: usize = 0;
    assert(content@.skip(0) =~= content@);
    while i < content.len()
        invariant
            i <= content@.len(),
            json_schema_of(content@) == json_schema_of(content@.skip(i as int)),
        decreases content@.len() - i,
    {
        proof {
            assert(content@.skip(i as int)[0] == content@[i as int]);
            assert(content@.skip(i as int).drop_first() =~= content@.skip(i + 1));
        }
        if str_eq(content[i].media_type.as_str(), "application/json") {
            return match &content[i].schema {
                Some(schema) => Some(schema),
                None => None,
            };
        }
        i += 1;
    }
    None
}

fn copy_default(value: &Option<serde_json::Value>) -> (r: Option<serde_json::Value>)
    ensures
        optional_document(r) == optional_document(*value),
{
    match value {
        Some(v) => Some(json_copy(v)),
        None => None,
    }
}

/// Reads OpenAPI documents.
#[derive(Debug, Clone, Copy, PartialEq, Eq, Structural)]
pub struct OpenApiParser;

impl OpenApiParser {
    pub fn new() -> (r: OpenApiParser) {
        OpenApiParser
    }

    /// The format that a document is read in: JSON for a file with the
    /// extension `json`, YAML for any other.
    pub fn format_for_extension(extension: Option<&str>) -> (r: DocumentFormat)
        ensures
            r == (match extension {
                Some(e) if e@ == "json"@ => DocumentFormat::Json,
                _ => DocumentFormat::Yaml,
            }),
    {
        match extension {
            Some(e) => {
                if str_eq(e, "json") {
                    DocumentFormat::Json
                } else {
                    DocumentFormat::Yaml
                }
            },
            None => DocumentFormat::Yaml,
        }
    }

    /// The API that a document describes.
    pub fn parse(&self, document: &DocumentDescription) -> (r: Result<ApiSpec, GeneratorError>)
        ensures
            r matches Ok(spec) && is_api_of(spec, *document),
    {
        self.convert_to_api_spec(document)
    }

    /// The API that a document describes.
    pub fn convert_to_api_spec(&self, document: &DocumentDescription) -> (r: Result<
        ApiSpec,
        GeneratorError,
    >)
        ensures
            r matches Ok(spec) && is_api_of(spec, *document),
    {
        let mut operations: Vec<Operation> = Vec::new();
        let mut i: usize = 0;
        assert(document.paths@.take(0) =~= Seq::empty());
        while i < document.paths.len()
            invariant
                i <= document.paths@.len(),
                operations@.len() == located(document.paths@.take(i as int)).len(),
                forall|k: int|
                    0 <= k < operations@.len() ==> is_operation_of(
                        #[trigger] operations@[k],
                        located(document.paths@.take(i as int))[k].path,
                        located(document.paths@.take(i as int))[k].operation,
                    ),
            decreases document.paths@.len() - i,
        {
            let path = &document.paths[i];
            let ghost before = located(document.paths@.take(i as int));
            proof {
                assert(document.paths@.take(i + 1).drop_last() =~= document.paths@.take(i as int));
            }
            let mut j: usize = 0;
            while j < path.operations.len()
                invariant
                    j <= path.operations@.len(),
                    operations@.len() == before.len() + j,
                    forall|k: int|
                        0 <= k < before.len() ==> is_operation_of(
                            #[trigger] operations@[k],
                            before[k].path,
                            before[k].operation,
                        ),
                    forall|k: int|
                        0 <= k < j ==> is_operation_of(
                            #[trigger] operations@[before.len() + k],
                            path.path@,
                            path.operations@[k],
                        ),
                decreases path.operations@.len() - j,
            {
                let operation = match self.parse_operation(path.path.as_str(), &path.operations[j]) {
                    Ok(operation) => operation,
                    Err(e) => {
                        return Err(e);
                    },
                };
                operations.push(operation);
                j += 1;
            }
            proof {
                let after = located(document.paths@.take(i + 1));
                assert(after == before + located_at(*path));
                assert forall|k: int| 0 <= k < operations@.len() implies is_operation_of(
                    #[trigger] operations@[k],
                    after[k].path,
                    after[k].operation,
                ) by {
                    if k >= before.len() {
                        assert(operations@[before.len() + (k - before.len())] == operations@[k]);
                    }
                }
            }
            i += 1;
        }
        assert(document.paths@.take(document.paths@.len() as int) =~= document.paths@);

        let mut types: Vec<TypeDefinition> = Vec::new();
        let mut s: usize = 0;
        assert(document.schemas@.take(0) =~= Seq::empty());
        assert(inline_schemas(document.schemas@.take(0)) =~= Seq::empty()) by {
            reveal(Seq::filter);
        }
        while s < document.schemas.len()
            invariant
                s <= document.schemas@.len(),
                types@.len() == inline_schemas(document.schemas@.take(s as int)).len(),
                forall|k: int|
                    0 <= k < types@.len() ==> is_definition_of(
                        #[trigger] types@[k],
                        inline_schemas(document.schemas@.take(s as int))[k].name@,
                        inline_schemas(document.schemas@.take(s as int))[k].schema->0,
                    ),
            decreases document.schemas@.len() - s,
        {
            let named = &document.schemas[s];
            let ghost before = inline_schemas(document.schemas@.take(s as int));
            proof {
                let later = document.schemas@.take(s + 1);
                assert(later.drop_last() =~= document.schemas@.take(s as int));
                assert(later.last() == *named);
                reveal(Seq::filter);
                assert(inline_schemas(later) == if named.schema is Some {
                    before.push(*named)
                } else {
                    before
                });
            }
            match &named.schema {
                Some(schema) => {
                    let definition = match self.parse_schema_to_type_definition(
                        named.name.as_str(),
                        schema,
                    ) {
                        Ok(definition) => definition,
                        Err(e) => {
                            return Err(e);
                        },
                    };
                    types.push(definition);
                },
                None => {},
            }
            s += 1;
        }
        assert(document.schemas@.take(document.schemas@.len() as int) =~= document.schemas@);

        let authentication = if document.security_schemes.len() > 0 {
            match self.parse_security_scheme(&document.security_schemes[0]) {
                Ok(a) => Some(a),
                Err(e) => {
                    return Err(e);
                },
            }
        } else {
            None
        };
        let base_url = if document.servers.len() > 0 {
            Some(document.servers[0].clone())
        } else {
            None
        };
        Ok(
            ApiSpec {
                name: document.title.clone(),
                version: document.version.clone(),
                description: copy_optional_text(&document.description),
                base_url,
                operations,
                types,
                authentication,
            },
        )
    }

    /// The operation that `operation` describes at `path`.
    pub fn parse_operation(&self, path: &str, operation: &OperationDescription) -> (r: Result<
        Operation,
        GeneratorError,
    >)
        ensures
            r matches Ok(op) && is_operation_of(op, path@, *operation),
    {
        let id = match &operation.operation_id {
            Some(id) => id.clone(),
            None => {
                let mut id = String::from_str(
                    match operation.method {
                        HttpMethod::Get => "get",
                        HttpMethod::Post => "post",
                        HttpMethod::Put => "put",
                        HttpMethod::Delete => "delete",
                        HttpMethod::Patch => "patch",
                        HttpMethod::Head => "head",
                        HttpMethod::Options => "options",
                        HttpMethod::Trace => "trace",
                    },
                );
                id.append("_");
                let a = replace_char(path, '/', "_");
                let b = replace_char(a.as_str(), '{', "");
                let c = replace_char(b.as_str(), '}', "");
                id.append(c.as_str());
                id
            },
        };
        let mut parameters: Vec<Parameter> = Vec::new();
        let mut i: usize = 0;
        while i < operation.parameters.len()
            invariant
                i <= operation.parameters@.len(),
                parameters@.len() == i,
                forall|k: int|
                    0 <= k < i ==> is_parameter_of(
                        #[trigger] parameters@[k],
                        operation.parameters@[k],
                    ),
            decreases operation.parameters@.len() - i,
        {
            let d = &operation.parameters[i];
            parameters.push(
                Parameter {
                    name: d.name.clone(),
                    description: copy_optional_text(&d.description),
                    parameter_type: d.place,
                    data_type: TypeReference::string(),
                    required: d.required,
                    default_value: None,
                },
            );
            i += 1;
        }
        let request_body = match find_json_schema(&operation.request_content) {
            Some(schema) => match self.parse_schema_to_type_reference(schema) {
                Ok(t) => Some(t),
                Err(e) => {
                    return Err(e);
                },
            },
            None => None,
        };
        let mut responses: Vec<Response> = Vec::new();
        let mut j: usize = 0;
        while j < operation.responses.len()
            invariant
                j <= operation.responses@.len(),
                responses@.len() == j,
                forall|k: int|
                    0 <= k < j ==> is_response_of(
                        #[trigger] responses@[k],
                        operation.responses@[k],
                    ),
            decreases operation.responses@.len() - j,
        {
            let d = &operation.responses[j];
            let data_type = match find_json_schema(&d.content) {
                Some(schema) => match self.parse_schema_to_type_reference(schema) {
                    Ok(t) => Some(t),
                    Err(e) => {
                        return Err(e);
                    },
                },
                None => None,
            };
            let mut headers: Vec<Header> = Vec::new();
            let mut h: usize = 0;
            while h < d.headers.len()
                invariant
                    h <= d.headers@.len(),
                    headers@.len() == h,
                    forall|k: int|
                        0 <= k < h ==> is_header_of(#[trigger] headers@[k], d.headers@[k]),
                decreases d.headers@.len() - h,
            {
                headers.push(
                    Header {
                        name: d.headers[h].name.clone(),
                        description: copy_optional_text(&d.headers[h].description),
                        data_type: TypeReference::string(),
                        required: false,
                    },
                );
                h += 1;
            }
            responses.push(
                Response {
                    status_code: d.status_code,
                    description: d.description.clone(),
                    content_type: String::from_str("application/json"),
                    data_type,
                    headers,
                },
            );
            j += 1;
        }
        Ok(
            Operation {
                id: id.clone(),
                name: id,
                description: copy_optional_text(&operation.description),
                method: operation.method,
                path: String::from_str(path),
                parameters,
                request_body,
                responses,
                tags: copy_texts(&operation.tags),
                deprecated: operation.deprecated,
                cache_config: None,
            },
        )
    }

    /// The type definition that `schema` gives under `name`.
    pub fn parse_schema_to_type_definition(&self, name: &str, schema: &SchemaDescription) -> (r:
        Result<TypeDefinition, GeneratorError>)
        ensures
            r matches Ok(t) && is_definition_of(t, name@, *schema),
    {
        let mut type_def = TypeDefinition {
            name: String::from_str(name),
            description: copy_optional_text(&schema.description),
            type_kind: TypeKind::Object,
            properties: Vec::new(),
            required: Vec::new(),
            additional_properties: false,
        };
        match &schema.shape {
            SchemaShape::Object(object) => {
                let mut properties: Vec<Property> = Vec::new();
                let mut i: usize = 0;
                assert(object.properties@.take(0) =~= Seq::empty());
                assert(inline_properties(object.properties@.take(0)) =~= Seq::empty()) by {
                    reveal(Seq::filter);
                }
                while i < object.properties.len()
                    invariant
                        i <= object.properties@.len(),
                        properties@.len() == inline_properties(
                            object.properties@.take(i as int),
                        ).len(),
                        forall|k: int|
                            0 <= k < properties@.len() ==> is_property_of(
                                #[trigger] properties@[k],
                                inline_properties(object.properties@.take(i as int))[k].name@,
                                inline_properties(object.properties@.take(i as int))[k].schema->0,
                                texts(object.required@),
                            ),
                    decreases object.properties@.len() - i,
                {
                    let d = &object.properties[i];
                    let ghost before = inline_properties(object.properties@.take(i as int));
                    proof {
                        let later = object.properties@.take(i + 1);
                        assert(later.drop_last() =~= object.properties@.take(i as int));
                        assert(later.last() == *d);
                        reveal(Seq::filter);
                        assert(inline_properties(later) == if d.schema is Some {
                            before.push(*d)
                        } else {
                            before
                        });
                    }
                    match &d.schema {
                        Some(property_schema) => {
                            let data_type = match self.parse_schema_to_type_reference(
                                property_schema,
                            ) {
                                Ok(t) => t,
                                Err(e) => {
                                    return Err(e);
                                },
                            };
                            properties.push(
                                Property {
                                    name: d.name.clone(),
                                    description: copy_optional_text(&property_schema.description),
                                    data_type,
                                    required: contains_text(&object.required, d.name.as_str()),
                                    read_only: property_schema.read_only,
                                    write_only: property_schema.write_only,
                                    deprecated: property_schema.deprecated,
                                    default_value: copy_default(&property_schema.default_value),
                                },
                            );
                        },
                        None => {},
                    }
                    i += 1;
                }
                assert(object.properties@.take(object.properties@.len() as int)
                    =~= object.properties@);
                type_def.type_kind = TypeKind::Object;
                type_def.required = copy_texts(&object.required);
                type_def.additional_properties = object.additional_properties;
                type_def.properties = properties;
            },
            SchemaShape::Array(_) => {
                type_def.type_kind = TypeKind::Array;
            },
            SchemaShape::OneOf => {
                type_def.type_kind = TypeKind::Union;
            },
            SchemaShape::AllOf => {
                type_def.type_kind = TypeKind::Interface;
            },
            _ => {},
        }
        Ok(type_def)
    }

    /// The type reference that `schema` stands for.
    pub fn parse_schema_to_type_reference(&self, schema: &SchemaDescription) -> (r: Result<
        TypeReference,
        GeneratorError,
    >)
        ensures
            r matches Ok(t) && t@ == reference_of(*schema),
        decreases schema,
    {
        proof {
            reveal_with_fuel(TypeReference::shape, 2);
        }
        match &schema.shape {
            SchemaShape::Text(format) => {
                let base_type = match format {
                    StringFormat::Date => BaseType::Date,
                    StringFormat::DateTime => BaseType::DateTime,
                    StringFormat::Binary => BaseType::Binary,
                    StringFormat::Other => BaseType::String,
                };
                Ok(reference(base_type, schema.nullable, false))
            },
            SchemaShape::Integer { int64 } => {
                let base_type = if *int64 {
                    BaseType::Long
                } else {
                    BaseType::Integer
                };
                Ok(reference(base_type, schema.nullable, false))
            },
            SchemaShape::Number { double } => {
                let base_type = if *double {
                    BaseType::Double
                } else {
                    BaseType::Float
                };
                Ok(reference(base_type, schema.nullable, false))
            },
            SchemaShape::Boolean => Ok(reference(BaseType::Boolean, schema.nullable, false)),
            SchemaShape::Array(items) => match items {
                Some(item) => {
                    let item_type = match self.parse_schema_to_type_reference(item) {
                        Ok(t) => t,
                        Err(e) => {
                            return Err(e);
                        },
                    };
                    Ok(TypeReference::array(item_type))
                },
                None => Ok(
                    reference(
                        BaseType::Array(Box::new(TypeReference::string())),
                        schema.nullable,
                        true,
                    ),
                ),
            },
            SchemaShape::Object(_) => Ok(
                reference(BaseType::Object(String::from_str("Object")), schema.nullable, false),
            ),
            _ => Ok(reference(BaseType::Any, schema.nullable, false)),
        }
    }

    /// The authentication that a security scheme stands for.
    pub fn parse_security_scheme(&self, security: &SecurityDescription) -> (r: Result<
        AuthenticationSpec,
        GeneratorError,
    >)
        ensures
            r matches Ok(a) && is_authentication_of(a, *security),
    {
        let auth_type = match security {
            SecurityDescription::ApiKey => AuthenticationType::ApiKey,
            SecurityDescription::Http { scheme } => {
                if str_eq(scheme.as_str(), "basic") {
                    AuthenticationType::Basic
                } else if str_eq(scheme.as_str(), "bearer") {
                    AuthenticationType::Bearer
                } else {
                    AuthenticationType::Custom(scheme.clone())
                }
            },
            SecurityDescription::OAuth2 => AuthenticationType::OAuth2,
            SecurityDescription::OpenIdConnect => AuthenticationType::OpenIdConnect,
        };
        Ok(AuthenticationSpec { auth_type, flows: Vec::new() })
    }
}

impl Default for OpenApiParser {
    fn default() -> (r: OpenApiParser) {
        OpenApiParser
    }
}

} // verus!
