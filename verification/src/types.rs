//! The intermediate representation of an API: operations, parameters,
//! responses, type definitions and the recursive type reference.

use vstd::prelude::*;
use crate::string_map::StringMap;
use crate::text::str_eq;

verus! {

#[derive(Debug, Clone, Copy, PartialEq, Eq, Structural)]
pub enum HttpMethod {
    Get,
    Post,
    Put,
    Delete,
    Patch,
    Options,
    Head,
    Trace,
}

#[derive(Debug, Clone, Copy, PartialEq, Eq, Structural)]
pub enum ParameterType {
    Query,
    Path,
    Header,
    Cookie,
    FormData,
}

#[derive(Debug, Clone, Copy, PartialEq, Eq, Structural)]
pub enum TypeKind {
    Object,
    Array,
    String,
    Integer,
    Float,
    Boolean,
    Enum,
    Union,
    Interface,
}

/// The shape of a type reference.
#[derive(Debug)]
pub enum BaseType {
    String,
    Integer,
    Long,
    Float,
    Double,
    Boolean,
    Date,
    DateTime,
    Binary,
    /// A type definition, referred to by its name. The name is not looked
    /// up: a reference to a definition that does not exist is legal.
    Object(String),
    Any,
    Void,
    Array(Box<TypeReference>),
    /// A map from keys of the first type to values of the second.
    MapOf(Box<TypeReference>, Box<TypeReference>),
}

/// A reference to a type: a shape and two modifiers.
#[derive(Debug)]
pub struct TypeReference {
    pub base_type: BaseType,
    pub nullable: bool,
    /// Marks a list of the base type. On a base that is itself
    /// `BaseType::Array` the flag adds nothing.
    pub array: bool,
    pub generic_parameters: Vec<TypeReference>,
}

/// A parameter of an operation.
#[derive(Debug, Clone)]
pub struct Parameter {
    pub name: String,
    pub description: Option<String>,
    pub parameter_type: ParameterType,
    pub data_type: TypeReference,
    pub required: bool,
    pub default_value: Option<serde_json::Value>,
}

#[derive(Debug, Clone)]
pub struct Header {
    pub name: String,
    pub description: Option<String>,
    pub data_type: TypeReference,
    pub required: bool,
}

#[derive(Debug, Clone)]
pub struct Response {
    pub status_code: Option<u16>,
    pub description: String,
    pub content_type: String,
    pub data_type: Option<TypeReference>,
    pub headers: Vec<Header>,
}

/// How the responses of an operation may be cached.
#[derive(Debug, Clone)]
pub struct CacheOperation {
    pub enabled: bool,
    pub ttl_seconds: Option<u64>,
    pub cache_key: Option<String>,
    pub vary_on: Vec<String>,
}

/// One callable operation of the API.
#[derive(Debug, Clone)]
pub struct Operation {
    pub id: String,
    pub name: String,
    pub description: Option<String>,
    pub method: HttpMethod,
    pub path: String,
    pub parameters: Vec<Parameter>,
    pub request_body: Option<TypeReference>,
    pub responses: Vec<Response>,
    pub tags: Vec<String>,
    pub deprecated: bool,
    pub cache_config: Option<CacheOperation>,
}

/// A property of a type definition.
#[derive(Debug, Clone)]
pub struct Property {
    pub name: String,
    pub description: Option<String>,
    pub data_type: TypeReference,
    pub required: bool,
    pub read_only: bool,
    pub write_only: bool,
    pub deprecated: bool,
    pub default_value: Option<serde_json::Value>,
}

/// A named type of the API. Type references point at it by its name.
#[derive(Debug, Clone)]
pub struct TypeDefinition {
    pub name: String,
    pub description: Option<String>,
    pub type_kind: TypeKind,
    pub properties: Vec<Property>,
    pub required: Vec<String>,
    pub additional_properties: bool,
}

#[derive(Debug, Clone)]
pub enum AuthenticationType {
    ApiKey,
    Bearer,
    Basic,
    OAuth2,
    OpenIdConnect,
    Custom(String),
}

#[derive(Debug, Clone)]
pub struct AuthFlow {
    pub flow_type: String,
    pub authorization_url: Option<String>,
    pub token_url: Option<String>,
    pub scopes: StringMap,
}

#[derive(Debug, Clone)]
pub struct AuthenticationSpec {
    pub auth_type: AuthenticationType,
    pub flows: Vec<AuthFlow>,
}

/// An API, whatever format it was described in.
#[derive(Debug, Clone)]
pub struct ApiSpec {
    pub name: String,
    pub version: String,
    pub description: Option<String>,
    pub base_url: Option<String>,
    pub operations: Vec<Operation>,
    pub types: Vec<TypeDefinition>,
    pub authentication: Option<AuthenticationSpec>,
}

/// The mathematical model of a `BaseType`.
pub enum BaseShape {
    String,
    Integer,
    Long,
    Float,
    Double,
    Boolean,
    Date,
    DateTime,
    Binary,
    Object(Seq<char>),
    Any,
    Void,
    Array(Box<TypeShape>),
    MapOf(Box<TypeShape>, Box<TypeShape>),
}

/// The mathematical model of a `TypeReference`.
pub struct TypeShape {
    pub base: BaseShape,
    pub nullable: bool,
    pub array: bool,
    pub generic_parameters: Seq<TypeShape>,
}

impl BaseType {
    /// The model of the shape.
    pub open spec fn shape(&self) -> BaseShape
        decreases self,
    {
        match self {
            BaseType::String => BaseShape::String,
            BaseType::Integer => BaseShape::Integer,
            BaseType::Long => BaseShape::Long,
            BaseType::Float => BaseShape::Float,
            BaseType::Double => BaseShape::Double,
            BaseType::Boolean => BaseShape::Boolean,
            BaseType::Date => BaseShape::Date,
            BaseType::DateTime => BaseShape::DateTime,
            BaseType::Binary => BaseShape::Binary,
            BaseType::Object(name) => BaseShape::Object(name@),
            BaseType::Any => BaseShape::Any,
            BaseType::Void => BaseShape::Void,
            BaseType::Array(inner) => BaseShape::Array(Box::new(inner.shape())),
            BaseType::MapOf(key, value) => BaseShape::MapOf(
                Box::new(key.shape()),
                Box::new(value.shape()),
            ),
        }
    }

    /// A copy of the shape.
    pub fn duplicate(&self) -> (r: BaseType)
        ensures
            r.shape() == self.shape(),
        decreases self,
    {
        match self {
            BaseType::String => BaseType::String,
            BaseType::Integer => BaseType::Integer,
            BaseType::Long => BaseType::Long,
            BaseType::Float => BaseType::Float,
            BaseType::Double => BaseType::Double,
            BaseType::Boolean => BaseType::Boolean,
            BaseType::Date => BaseType::Date,
            BaseType::DateTime => BaseType::DateTime,
            BaseType::Binary => BaseType::Binary,
            BaseType::Object(name) => BaseType::Object(name.clone()),
            BaseType::Any => BaseType::Any,
            BaseType::Void => BaseType::Void,
            BaseType::Array(inner) => {
                let item: &TypeReference = &**inner;
                BaseType::Array(Box::new(item.duplicate()))
            },
            BaseType::MapOf(key, value) => {
                let k: &TypeReference = &**key;
                let v: &TypeReference = &**value;
                BaseType::MapOf(Box::new(k.duplicate()), Box::new(v.duplicate()))
            },
        }
    }
}

impl TypeReference {
    /// The model of the reference.
    pub open spec fn shape(&self) -> TypeShape
        decreases self,
    {
        TypeShape {
            base: self.base_type.shape(),
            nullable: self.nullable,
            array: self.array,
            generic_parameters: Seq::new(
                self.generic_parameters@.len(),
                |i: int|
                    if 0 <= i < self.generic_parameters@.len() {
                        self.generic_parameters@[i].shape()
                    } else {
                        arbitrary()
                    },
            ),
        }
    }

    /// A copy of the reference.
    pub fn duplicate(&self) -> (r: TypeReference)
        ensures
            r.shape() == self.shape(),
        decreases self,
    {
        let mut generic_parameters: Vec<TypeReference> = Vec::new();
        let mut i: usize = 0;
        while i < self.generic_parameters.len()
            invariant
                i <= self.generic_parameters@.len(),
                generic_parameters@.len() == i,
                forall|j: int|
                    0 <= j < i ==> (#[trigger] generic_parameters@[j]).shape()
                        == self.generic_parameters@[j].shape(),
            decreases self.generic_parameters@.len() - i,
        {
            generic_parameters.push(self.generic_parameters[i].duplicate());
            i += 1;
        }
        let r = TypeReference {
            base_type: self.base_type.duplicate(),
            nullable: self.nullable,
            array: self.array,
            generic_parameters,
        };
        assert(r.shape().generic_parameters =~= self.shape().generic_parameters);
        r
    }
}

impl TypeReference {
    /// A reference of the given shape without modifiers.
    pub open spec fn plain(base: BaseShape) -> TypeShape {
        TypeShape { base, nullable: false, array: false, generic_parameters: Seq::empty() }
    }

    pub fn string() -> (r: TypeReference)
        ensures
            r@ == Self::plain(BaseShape::String),
    {
        let r = TypeReference {
            base_type: BaseType::String,
            nullable: false,
            array: false,
            generic_parameters: Vec::new(),
        };
        proof {
            reveal_with_fuel(TypeReference::shape, 2);
            assert(r.shape().generic_parameters =~= Seq::empty());
        }
        r
    }

    pub fn integer() -> (r: TypeReference)
        ensures
            r@ == Self::plain(BaseShape::Integer),
    {
        let r = TypeReference {
            base_type: BaseType::Integer,
            nullable: false,
            array: false,
            generic_parameters: Vec::new(),
        };
        proof {
            reveal_with_fuel(TypeReference::shape, 2);
            assert(r.shape().generic_parameters =~= Seq::empty());
        }
        r
    }

    pub fn boolean() -> (r: TypeReference)
        ensures
            r@ == Self::plain(BaseShape::Boolean),
    {
        let r = TypeReference {
            base_type: BaseType::Boolean,
            nullable: false,
            array: false,
            generic_parameters: Vec::new(),
        };
        proof {
            reveal_with_fuel(TypeReference::shape, 2);
            assert(r.shape().generic_parameters =~= Seq::empty());
        }
        r
    }

    /// A reference to the type definition called `name`.
    pub fn object(name: String) -> (r: TypeReference)
        ensures
            r@ == Self::plain(BaseShape::Object(name@)),
    {
        let r = TypeReference {
            base_type: BaseType::Object(name),
            nullable: false,
            array: false,
            generic_parameters: Vec::new(),
        };
        proof {
            reveal_with_fuel(TypeReference::shape, 2);
            assert(r.shape().generic_parameters =~= Seq::empty());
        }
        r
    }

    /// A list of `item_type`: the base is an array, and the array flag is
    /// set as well.
    pub fn array(item_type: TypeReference) -> (r: TypeReference)
        ensures
            r@ == (TypeShape {
                base: BaseShape::Array(Box::new(item_type@)),
                nullable: false,
                array: true,
                generic_parameters: Seq::empty(),
            }),
    {
        let r = TypeReference {
            base_type: BaseType::Array(Box::new(item_type)),
            nullable: false,
            array: true,
            generic_parameters: Vec::new(),
        };
        proof {
            reveal_with_fuel(TypeReference::shape, 2);
            assert(r.shape().generic_parameters =~= Seq::empty());
        }
        r
    }

    /// The same reference, marked nullable.
    pub fn nullable(self) -> (r: TypeReference)
        ensures
            r@ == (TypeShape { nullable: true, ..self@ }),
    {
        let mut r = self;
        r.nullable = true;
        assert(r.shape().generic_parameters =~= self.shape().generic_parameters);
        r
    }
}

impl HttpMethod {
    /// The method's name in upper case.
    pub open spec fn name(self) -> Seq<char> {
        match self {
            HttpMethod::Get => "GET"@,
            HttpMethod::Post => "POST"@,
            HttpMethod::Put => "PUT"@,
            HttpMethod::Delete => "DELETE"@,
            HttpMethod::Patch => "PATCH"@,
            HttpMethod::Head => "HEAD"@,
            HttpMethod::Options => "OPTIONS"@,
            HttpMethod::Trace => "TRACE"@,
        }
    }

    /// The method's name in upper case.
    pub fn to_string(&self) -> (s: String)
        ensures
            s@ == self.name(),
    {
        match self {
            HttpMethod::Get => String::from_str("GET"),
            HttpMethod::Post => String::from_str("POST"),
            HttpMethod::Put => String::from_str("PUT"),
            HttpMethod::Delete => String::from_str("DELETE"),
            HttpMethod::Patch => String::from_str("PATCH"),
            HttpMethod::Head => String::from_str("HEAD"),
            HttpMethod::Options => String::from_str("OPTIONS"),
            HttpMethod::Trace => String::from_str("TRACE"),
        }
    }
}

impl ApiSpec {
    /// An API with a name and a version, and nothing else yet.
    pub fn new(name: String, version: String) -> (r: ApiSpec)
        ensures
            r.name == name,
            r.version == version,
            r.description is None,
            r.base_url is None,
            r.operations@.len() == 0,
            r.types@.len() == 0,
            r.authentication is None,
    {
        ApiSpec {
            name,
            version,
            description: None,
            base_url: None,
            operations: Vec::new(),
            types: Vec::new(),
            authentication: None,
        }
    }

    /// Adds an operation after those already there.
    pub fn add_operation(&mut self, operation: Operation)
        ensures
            final(self).operations@ == old(self).operations@.push(operation),
            final(self).types == old(self).types,
            final(self).name == old(self).name,
            final(self).version == old(self).version,
            final(self).description == old(self).description,
            final(self).base_url == old(self).base_url,
            final(self).authentication == old(self).authentication,
    {
        self.operations.push(operation);
    }

    /// Adds a type definition after those already there.
    pub fn add_type(&mut self, type_def: TypeDefinition)
        ensures
            final(self).types@ == old(self).types@.push(type_def),
            final(self).operations == old(self).operations,
            final(self).name == old(self).name,
            final(self).version == old(self).version,
            final(self).description == old(self).description,
            final(self).base_url == old(self).base_url,
            final(self).authentication == old(self).authentication,
    {
        self.types.push(type_def);
    }

    /// The first operation whose id is `id`.
    pub fn get_operation_by_id(&self, id: &str) -> (r: Option<&Operation>)
        ensures
            match r {
                Some(found) => exists|i: int|
                    0 <= i < self.operations@.len() && *found == #[trigger] self.operations@[i]
                        && found.id@ == id@ && forall|j: int|
                        0 <= j < i ==> (#[trigger] self.operations@[j]).id@ != id@,
                None => forall|j: int|
                    0 <= j < self.operations@.len() ==> (#[trigger] self.operations@[j]).id@
                        != id@,
            },
    {
        let mut i: usize = 0;
        while i < self.operations.len()
            invariant
                i <= self.operations@.len(),
                forall|j: int| 0 <= j < i ==> (#[trigger] self.operations@[j]).id@ != id@,
            decreases self.operations@.len() - i,
        {
            if str_eq(self.operations[i].id.as_str(), id) {
                return Some(&self.operations[i]);
            }
            i += 1;
        }
        None
    }

    /// The first type definition whose name is `name`.
    pub fn get_type_by_name(&self, name: &str) -> (r: Option<&TypeDefinition>)
        ensures
            match r {
                Some(found) => exists|i: int|
                    0 <= i < self.types@.len() && *found == #[trigger] self.types@[i]
                        && found.name@ == name@ && forall|j: int|
                        0 <= j < i ==> (#[trigger] self.types@[j]).name@ != name@,
                None => forall|j: int|
                    0 <= j < self.types@.len() ==> (#[trigger] self.types@[j]).name@ != name@,
            },
    {
        let mut i: usize = 0;
        while i < self.types.len()
            invariant
                i <= self.types@.len(),
                forall|j: int| 0 <= j < i ==> (#[trigger] self.types@[j]).name@ != name@,
            decreases self.types@.len() - i,
        {
            if str_eq(self.types[i].name.as_str(), name) {
                return Some(&self.types[i]);
            }
            i += 1;
        }
        None
    }
}

impl View for BaseType {
    type V = BaseShape;

    open spec fn view(&self) -> BaseShape {
        self.shape()
    }
}

impl View for TypeReference {
    type V = TypeShape;

    open spec fn view(&self) -> TypeShape {
        self.shape()
    }
}

impl Clone for BaseType {
    fn clone(&self) -> (r: BaseType)
        ensures
            r@ == self@,
    {
        self.duplicate()
    }
}

impl Clone for TypeReference {
    fn clone(&self) -> (r: TypeReference)
        ensures
            r@ == self@,
    {
        self.duplicate()
    }
}

} // verus!
