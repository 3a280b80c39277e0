//! The sample types that stand in for the types of a description that is
//! not read yet.

use vstd::prelude::*;
use crate::text::texts;
use crate::types::{BaseShape, Property, TypeDefinition, TypeKind, TypeReference};

verus! {

/// Whether `t` is the object type called `name` with one property: a
/// string, or with `object_property` an object called `Object`.
pub open spec fn is_sample_type_of(
    t: TypeDefinition,
    name: Seq<char>,
    description: Seq<char>,
    property: Seq<char>,
    property_description: Seq<char>,
    base: BaseShape,
    required: bool,
    read_only: bool,
) -> bool {
    &&& t.name@ == name
    &&& t.description matches Some(d) && d@ == description
    &&& t.type_kind == TypeKind::Object
    &&& t.properties@.len() == 1
    &&& t.properties@[0].name@ == property
    &&& t.properties@[0].description matches Some(d) && d@ == property_description
    &&& t.properties@[0].data_type@ == TypeReference::plain(base)
    &&& t.properties@[0].required == required
    &&& t.properties@[0].read_only == read_only
    &&& !t.properties@[0].write_only
    &&& !t.properties@[0].deprecated
    &&& t.properties@[0].default_value is None
    &&& texts(t.required@) == (if required {
        seq![property]
    } else {
        Seq::empty()
    })
}

/// Whether `t` is the object type called `name` with one string property.
pub open spec fn is_sample_type(
    t: TypeDefinition,
    name: Seq<char>,
    description: Seq<char>,
    property: Seq<char>,
    property_description: Seq<char>,
    required: bool,
    read_only: bool,
) -> bool {
    is_sample_type_of(
        t,
        name,
        description,
        property,
        property_description,
        BaseShape::String,
        required,
        read_only,
    )
}

/// An object type with one property of the given type. The type allows no
/// further properties.
pub fn sample_type_of(
    name: &str,
    description: &str,
    property: &str,
    property_description: &str,
    data_type: TypeReference,
    required: bool,
    read_only: bool,
) -> (t: TypeDefinition)
    ensures
        t.name@ == name@,
        t.description matches Some(d) && d@ == description@,
        t.type_kind == TypeKind::Object,
        t.properties@.len() == 1,
        t.properties@[0].name@ == property@,
        t.properties@[0].description matches Some(d) && d@ == property_description@,
        t.properties@[0].data_type == data_type,
        t.properties@[0].required == required,
        t.properties@[0].read_only == read_only,
        !t.properties@[0].write_only,
        !t.properties@[0].deprecated,
        t.properties@[0].default_value is None,
        texts(t.required@) == (if required {
            seq![property@]
        } else {
            Seq::empty()
        }),
        !t.additional_properties,
{
    let mut properties: Vec<Property> = Vec::new();
    properties.push(
        Property {
            name: String::from_str(property),
            description: Some(String::from_str(property_description)),
            data_type,
            required,
            read_only,
            write_only: false,
            deprecated: false,
            default_value: None,
        },
    );
    let mut names: Vec<String> = Vec::new();
    if required {
        names.push(String::from_str(property));
        assert(texts(names@) =~= seq![property@]);
    } else {
        assert(texts(names@) =~= Seq::<Seq<char>>::empty());
    }
    TypeDefinition {
        name: String::from_str(name),
        description: Some(String::from_str(description)),
        type_kind: TypeKind::Object,
        properties,
        required: names,
        additional_properties: false,
    }
}

/// An object type with one string property.
pub fn sample_type(
    name: &str,
    description: &str,
    property: &str,
    property_description: &str,
    required: bool,
    read_only: bool,
) -> (t: TypeDefinition)
    ensures
        is_sample_type(
            t,
            name@,
            description@,
            property@,
            property_description@,
            required,
            read_only,
        ),
        !t.additional_properties,
{
    sample_type_of(
        name,
        description,
        property,
        property_description,
        TypeReference::string(),
        required,
        read_only,
    )
}

} // verus!
