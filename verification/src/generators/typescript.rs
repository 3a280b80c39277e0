//! The TypeScript client: its names, its types, the context of its
//! templates and the files it is made of.

use vstd::prelude::*;
use crate::artifacts::{
    artifact, is_plan_outcome, paired_plan, plan_items, render_all, Artifact, GeneratedFile,
    PlanItem,
};
use crate::casing::{
    underscore_camel, underscore_camel_of, underscore_pascal, underscore_pascal_of,
};
use crate::config::{AuthenticationConfig, AuthenticationType, GeneratorConfig, TargetLanguage};
use crate::error::GeneratorError;
use crate::generators::context::{
    any_parameter_in, find_success_type, has_parameter_in, set_authentication,
    set_feature_flags, success_type, with_authentication, with_feature_flags,
};
use crate::json::{
    json_array, json_bool, json_model, json_models, json_object, json_optional_text, json_text,
    members_of, optional_text, set_member, JsonModel,
};
use crate::projector::{project, projected};
use crate::serialize::{optional_view, parameter_type_json, parameter_type_to_json};
use crate::template::{
    is_loading_outcome, listing, loaded_until_rejected, standard_helpers, TemplateEngine,
    TemplateFile,
};
use crate::text::{replace_char, replaced};
use crate::types::{
    ApiSpec, HttpMethod, Operation, Parameter, ParameterType, Property, TypeDefinition,
    TypeReference,
};
use crate::unicode::{lowercase, lowered};

verus! {

/// A name in camel case: the first piece between underscores made small,
/// the others capitalised.
pub fn to_camel_case(name: &str) -> (r: String)
    ensures
        r@ == underscore_camel_of(name@),
{
    underscore_camel(name)
}

/// A name in Pascal case: the pieces between underscores, each
/// capitalised.
pub fn to_pascal_case(name: &str) -> (r: String)
    ensures
        r@ == underscore_pascal_of(name@),
{
    underscore_pascal(name)
}

/// The package of the client: the configured package name in lower case
/// with a hyphen for every underscore and space, or `api-client`.
pub open spec fn ts_package_name(package_name: Option<Seq<char>>) -> Seq<char> {
    match package_name {
        Some(name) => lowered(replaced(replaced(name, '_', "-"@), ' ', "-"@)),
        None => "api-client"@,
    }
}

/// The name of the client class.
pub open spec fn ts_class_name(api_name: Seq<char>) -> Seq<char> {
    underscore_pascal_of(api_name) + "Client"@
}

/// The name of a method in lower case.
pub open spec fn method_lower(method: HttpMethod) -> Seq<char> {
    match method {
        HttpMethod::Get => "get"@,
        HttpMethod::Post => "post"@,
        HttpMethod::Put => "put"@,
        HttpMethod::Delete => "delete"@,
        HttpMethod::Patch => "patch"@,
        HttpMethod::Head => "head"@,
        HttpMethod::Options => "options"@,
        HttpMethod::Trace => "trace"@,
    }
}

/// The name of a method in lower case.
pub fn method_lower_name(method: HttpMethod) -> (r: &'static str)
    ensures
        r@ == method_lower(method),
{
    match method {
        HttpMethod::Get => "get",
        HttpMethod::Post => "post",
        HttpMethod::Put => "put",
        HttpMethod::Delete => "delete",
        HttpMethod::Patch => "patch",
        HttpMethod::Head => "head",
        HttpMethod::Options => "options",
        HttpMethod::Trace => "trace",
    }
}

/// The TypeScript type of what an operation answers with: the type of its
/// first successful, typed response, or `any`.
pub open spec fn ts_response_type(operation: Operation) -> Seq<char> {
    match success_type(operation.responses@) {
        Some(t) => projected(t@, TargetLanguage::TypeScript),
        None => "any"@,
    }
}

/// What the TypeScript templates see of a parameter.
pub open spec fn ts_parameter_json(p: Parameter) -> JsonModel {
    JsonModel::Object(
        Map::empty().insert("name"@, JsonModel::Text(p.name@)).insert(
            "camel_name"@,
            JsonModel::Text(underscore_camel_of(p.name@)),
        ).insert(
            "ts_type"@,
            JsonModel::Text(projected(p.data_type@, TargetLanguage::TypeScript)),
        ).insert("location"@, parameter_type_json(p.parameter_type)).insert(
            "required"@,
            JsonModel::Bool(p.required),
        ).insert("description"@, optional_text(optional_view(p.description))),
    )
}

/// What the TypeScript templates see of a list of parameters.
pub open spec fn ts_parameters_json(list: Seq<Parameter>) -> Seq<JsonModel> {
    list.map_values(|p: Parameter| ts_parameter_json(p))
}

/// What the TypeScript templates see of an operation.
pub open spec fn ts_operation_json(op: Operation) -> JsonModel {
    JsonModel::Object(
        Map::empty().insert("name"@, JsonModel::Text(op.name@)).insert(
            "id"@,
            JsonModel::Text(op.id@),
        ).insert("method"@, JsonModel::Text(op.method.name())).insert(
            "method_lower"@,
            JsonModel::Text(method_lower(op.method)),
        ).insert("path"@, JsonModel::Text(op.path@)).insert(
            "description"@,
            optional_text(optional_view(op.description)),
        ).insert("parameters"@, JsonModel::Array(ts_parameters_json(op.parameters@))).insert(
            "response_type"@,
            JsonModel::Text(ts_response_type(op)),
        ).insert(
            "has_path_params"@,
            JsonModel::Bool(has_parameter_in(op.parameters@, ParameterType::Path)),
        ).insert(
            "has_query_params"@,
            JsonModel::Bool(has_parameter_in(op.parameters@, ParameterType::Query)),
        ).insert("has_body_params"@, JsonModel::Bool(op.request_body is Some)),
    )
}

/// What the TypeScript templates see of a list of operations.
pub open spec fn ts_operations_json(list: Seq<Operation>) -> Seq<JsonModel> {
    list.map_values(|op: Operation| ts_operation_json(op))
}

/// The mark after the name of a property that may be left out.
pub open spec fn optional_marker(required: bool) -> Seq<char> {
    if required {
        ""@
    } else {
        "?"@
    }
}

/// What the TypeScript templates see of a property.
pub open spec fn ts_property_json(p: Property) -> JsonModel {
    JsonModel::Object(
        Map::empty().insert("name"@, JsonModel::Text(p.name@)).insert(
            "camel_name"@,
            JsonModel::Text(underscore_camel_of(p.name@)),
        ).insert(
            "ts_type"@,
            JsonModel::Text(projected(p.data_type@, TargetLanguage::TypeScript)),
        ).insert("required"@, JsonModel::Bool(p.required)).insert(
            "description"@,
            optional_text(optional_view(p.description)),
        ).insert("optional_marker"@, JsonModel::Text(optional_marker(p.required))),
    )
}

/// What the TypeScript templates see of a list of properties.
pub open spec fn ts_properties_json(list: Seq<Property>) -> Seq<JsonModel> {
    list.map_values(|p: Property| ts_property_json(p))
}

/// What the TypeScript templates see of a type definition.
pub open spec fn ts_type_json(t: TypeDefinition) -> JsonModel {
    JsonModel::Object(
        Map::empty().insert("name"@, JsonModel::Text(t.name@)).insert(
            "description"@,
            optional_text(optional_view(t.description)),
        ).insert("properties"@, JsonModel::Array(ts_properties_json(t.properties@))),
    )
}

/// What the TypeScript templates see of a list of type definitions.
pub open spec fn ts_types_json(list: Seq<TypeDefinition>) -> Seq<JsonModel> {
    list.map_values(|t: TypeDefinition| ts_type_json(t))
}

/// The context members that tell which helper methods the authentication
/// asks for: bearer tokens for HTTP and OAuth2, an API key for API keys.
/// Without authentication none is set.
pub open spec fn with_auth_support(
    members: Map<Seq<char>, JsonModel>,
    authentication: Option<AuthenticationConfig>,
) -> Map<Seq<char>, JsonModel> {
    match authentication {
        Some(auth) => members.insert(
            "supports_bearer_auth"@,
            JsonModel::Bool(auth.auth_type is Http || auth.auth_type is OAuth2),
        ).insert("supports_api_key"@, JsonModel::Bool(auth.auth_type is ApiKey)),
        None => members,
    }
}

/// The context of the TypeScript templates.
pub open spec fn ts_context(config: GeneratorConfig, api_spec: ApiSpec) -> JsonModel {
    let package = optional_view(config.output_config.package_name);
    let named = Map::empty().insert("api_name"@, JsonModel::Text(api_spec.name@)).insert(
        "api_version"@,
        JsonModel::Text(api_spec.version@),
    ).insert("description"@, optional_text(optional_view(api_spec.description))).insert(
        "base_url"@,
        optional_text(optional_view(api_spec.base_url)),
    ).insert("package_name"@, JsonModel::Text(ts_package_name(package))).insert(
        "client_class_name"@,
        JsonModel::Text(ts_class_name(api_spec.name@)),
    );
    let flagged = with_feature_flags(
        with_auth_support(with_authentication(named, config.authentication), config.authentication),
        config.features,
    );
    JsonModel::Object(
        flagged.insert("operations"@, JsonModel::Array(ts_operations_json(api_spec.operations@))).insert(
            "types"@,
            JsonModel::Array(ts_types_json(api_spec.types@)),
        ),
    )
}

/// The templates of the TypeScript client, in the order in which they are
/// rendered.
pub open spec fn ts_templates(include_docs: bool) -> Seq<Seq<char>> {
    let always = seq!["client.ts"@, "types.ts"@, "index.ts"@, "package.json"@, "tsconfig.json"@];
    if include_docs {
        always.push("README.md"@)
    } else {
        always
    }
}

/// The files of the TypeScript client, in the order of their templates:
/// the sources go below `src`.
pub open spec fn ts_paths(include_docs: bool) -> Seq<Seq<char>> {
    let always = seq![
        "src/client.ts"@,
        "src/types.ts"@,
        "src/index.ts"@,
        "package.json"@,
        "tsconfig.json"@,
    ];
    if include_docs {
        always.push("README.md"@)
    } else {
        always
    }
}

/// The renderings that make up the client, with their context.
pub open spec fn ts_plan(include_docs: bool, data: JsonModel) -> Seq<PlanItem> {
    paired_plan(ts_templates(include_docs), ts_paths(include_docs), data)
}

/// Generates the TypeScript client of an API.
pub struct TypeScriptGenerator {
    config: GeneratorConfig,
    template_engine: TemplateEngine,
}

impl TypeScriptGenerator {
    pub closed spec fn config(&self) -> GeneratorConfig {
        self.config
    }

    /// The templates that the generator holds.
    pub closed spec fn templates(&self) -> Map<Seq<char>, Seq<char>> {
        self.template_engine.templates()
    }

    /// The generator renders with the library's helpers, and none of its
    /// templates includes another.
    pub closed spec fn well_formed(&self) -> bool {
        self.template_engine.well_formed() && self.template_engine.helpers()
            == standard_helpers()
    }

    /// A generator with the given configuration and no template yet.
    pub fn new(config: GeneratorConfig) -> (r: Result<TypeScriptGenerator, GeneratorError>)
        ensures
            r matches Ok(g) && g.config() == config && g.templates()
                == crate::template::no_templates() && g.well_formed(),
    {
        match TemplateEngine::new(config.target_language, config.input_type) {
            Ok(template_engine) => Ok(TypeScriptGenerator { config, template_engine }),
            Err(e) => Err(e),
        }
    }

    /// Loads the template files found in `directory`, as
    /// `TemplateEngine::load_templates` does.
    pub fn load_templates(&mut self, directory: &str, files: Option<Vec<TemplateFile>>) -> (r:
        Result<(), GeneratorError>)
        requires
            old(self).well_formed(),
        ensures
            final(self).well_formed(),
            final(self).config() == old(self).config(),
            files is None ==> final(self).templates() == old(self).templates(),
            files is None ==> (r matches Err(GeneratorError::Io { message }) && message@
                == "Template directory not found: "@ + directory@),
            files is Some ==> final(self).templates() == loaded_until_rejected(
                old(self).templates(),
                listing(files),
            ),
            files is Some ==> is_loading_outcome(r, listing(files)),
    {
        self.template_engine.load_templates(directory, files)
    }

    fn get_package_name(&self) -> (r: String)
        ensures
            r@ == ts_package_name(optional_view(self.config().output_config.package_name)),
    {
        match &self.config.output_config.package_name {
            Some(name) => {
                let a = replace_char(name.as_str(), '_', "-");
                let b = replace_char(a.as_str(), ' ', "-");
                lowercase(b.as_str())
            },
            None => String::from_str("api-client"),
        }
    }

    fn get_class_name(&self, api_name: &str) -> (r: String)
        ensures
            r@ == ts_class_name(api_name@),
    {
        let mut r = to_pascal_case(api_name);
        r.append("Client");
        r
    }

    /// The TypeScript type of a type reference.
    pub fn map_type_to_typescript(&self, type_ref: &TypeReference) -> (r: String)
        ensures
            r@ == projected(type_ref@, TargetLanguage::TypeScript),
    {
        project(type_ref, TargetLanguage::TypeScript)
    }

    fn infer_response_type_typescript(&self, operation: &Operation) -> (r: String)
        ensures
            r@ == ts_response_type(*operation),
    {
        match find_success_type(&operation.responses) {
            Some(t) => self.map_type_to_typescript(t),
            None => String::from_str("any"),
        }
    }

    fn parameter_context(&self, p: &Parameter) -> (v: serde_json::Value)
        ensures
            json_model(v) == ts_parameter_json(*p),
    {
        let mut object = json_object();
        set_member(&mut object, "name", json_text(p.name.as_str()));
        set_member(&mut object, "camel_name", json_text(to_camel_case(p.name.as_str()).as_str()));
        set_member(
            &mut object,
            "ts_type",
            json_text(self.map_type_to_typescript(&p.data_type).as_str()),
        );
        set_member(&mut object, "location", parameter_type_to_json(p.parameter_type));
        set_member(&mut object, "required", json_bool(p.required));
        set_member(&mut object, "description", json_optional_text(&p.description));
        object
    }

    fn operation_context(&self, op: &Operation) -> (v: serde_json::Value)
        ensures
            json_model(v) == ts_operation_json(*op),
    {
        let mut parameters: Vec<serde_json::Value> = Vec::new();
        let mut i: usize = 0;
        while i < op.parameters.len()
            invariant
                i <= op.parameters@.len(),
                parameters@.len() == i,
                forall|k: int|
                    0 <= k < i ==> json_model(#[trigger] parameters@[k]) == ts_parameter_json(
                        op.parameters@[k],
                    ),
            decreases op.parameters@.len() - i,
        {
            parameters.push(self.parameter_context(&op.parameters[i]));
            i += 1;
        }
        assert(json_models(parameters@) =~= ts_parameters_json(op.parameters@));
        let mut object = json_object();
        set_member(&mut object, "name", json_text(op.name.as_str()));
        set_member(&mut object, "id", json_text(op.id.as_str()));
        set_member(&mut object, "method", json_text(op.method.to_string().as_str()));
        set_member(&mut object, "method_lower", json_text(method_lower_name(op.method)));
        set_member(&mut object, "path", json_text(op.path.as_str()));
        set_member(&mut object, "description", json_optional_text(&op.description));
        set_member(&mut object, "parameters", json_array(parameters));
        set_member(
            &mut object,
            "response_type",
            json_text(self.infer_response_type_typescript(op).as_str()),
        );
        set_member(
            &mut object,
            "has_path_params",
            json_bool(any_parameter_in(&op.parameters, ParameterType::Path)),
        );
        set_member(
            &mut object,
            "has_query_params",
            json_bool(any_parameter_in(&op.parameters, ParameterType::Query)),
        );
        set_member(&mut object, "has_body_params", json_bool(op.request_body.is_some()));
        object
    }

    fn property_context(&self, p: &Property) -> (v: serde_json::Value)
        ensures
            json_model(v) == ts_property_json(*p),
    {
        let mut object = json_object();
        set_member(&mut object, "name", json_text(p.name.as_str()));
        set_member(&mut object, "camel_name", json_text(to_camel_case(p.name.as_str()).as_str()));
        set_member(
            &mut object,
            "ts_type",
            json_text(self.map_type_to_typescript(&p.data_type).as_str()),
        );
        set_member(&mut object, "required", json_bool(p.required));
        set_member(&mut object, "description", json_optional_text(&p.description));
        let marker = if p.required {
            ""
        } else {
            "?"
        };
        set_member(&mut object, "optional_marker", json_text(marker));
        object
    }

    fn type_context(&self, t: &TypeDefinition) -> (v: serde_json::Value)
        ensures
            json_model(v) == ts_type_json(*t),
    {
        let mut properties: Vec<serde_json::Value> = Vec::new();
        let mut i: usize = 0;
        while i < t.properties.len()
            invariant
                i <= t.properties@.len(),
                properties@.len() == i,
                forall|k: int|
                    0 <= k < i ==> json_model(#[trigger] properties@[k]) == ts_property_json(
                        t.properties@[k],
                    ),
            decreases t.properties@.len() - i,
        {
            properties.push(self.property_context(&t.properties[i]));
            i += 1;
        }
        assert(json_models(properties@) =~= ts_properties_json(t.properties@));
        let mut object = json_object();
        set_member(&mut object, "name", json_text(t.name.as_str()));
        set_member(&mut object, "description", json_optional_text(&t.description));
        set_member(&mut object, "properties", json_array(properties));
        object
    }

    fn set_auth_support(&self, object: &mut serde_json::Value)
        requires
            json_model(*old(object)) is Object,
        ensures
            json_model(*final(object)) == JsonModel::Object(
                with_auth_support(
                    members_of(json_model(*old(object))),
                    self.config().authentication,
                ),
            ),
    {
        match &self.config.authentication {
            Some(auth) => {
                let bearer = match &auth.auth_type {
                    AuthenticationType::Http => true,
                    AuthenticationType::OAuth2 => true,
                    _ => false,
                };
                let key = match &auth.auth_type {
                    AuthenticationType::ApiKey => true,
                    _ => false,
                };
                set_member(object, "supports_bearer_auth", json_bool(bearer));
                set_member(object, "supports_api_key", json_bool(key));
            },
            None => {},
        }
    }

    /// The context that the TypeScript templates are rendered with.
    pub fn build_context(&self, api_spec: &ApiSpec) -> (v: serde_json::Value)
        ensures
            json_model(v) == ts_context(self.config(), *api_spec),
    {
        let mut operations: Vec<serde_json::Value> = Vec::new();
        let mut i: usize = 0;
        while i < api_spec.operations.len()
            invariant
                i <= api_spec.operations@.len(),
                operations@.len() == i,
                forall|k: int|
                    0 <= k < i ==> json_model(#[trigger] operations@[k]) == ts_operation_json(
                        api_spec.operations@[k],
                    ),
            decreases api_spec.operations@.len() - i,
        {
            operations.push(self.operation_context(&api_spec.operations[i]));
            i += 1;
        }
        assert(json_models(operations@) =~= ts_operations_json(api_spec.operations@));
        let mut types: Vec<serde_json::Value> = Vec::new();
        let mut j: usize = 0;
        while j < api_spec.types.len()
            invariant
                j <= api_spec.types@.len(),
                types@.len() == j,
                forall|k: int|
                    0 <= k < j ==> json_model(#[trigger] types@[k]) == ts_type_json(
                        api_spec.types@[k],
                    ),
            decreases api_spec.types@.len() - j,
        {
            types.push(self.type_context(&api_spec.types[j]));
            j += 1;
        }
        assert(json_models(types@) =~= ts_types_json(api_spec.types@));
        let mut object = json_object();
        set_member(&mut object, "api_name", json_text(api_spec.name.as_str()));
        set_member(&mut object, "api_version", json_text(api_spec.version.as_str()));
        set_member(&mut object, "description", json_optional_text(&api_spec.description));
        set_member(&mut object, "base_url", json_optional_text(&api_spec.base_url));
        set_member(&mut object, "package_name", json_text(self.get_package_name().as_str()));
        set_member(
            &mut object,
            "client_class_name",
            json_text(self.get_class_name(api_spec.name.as_str()).as_str()),
        );
        set_authentication(&mut object, &self.config.authentication);
        self.set_auth_support(&mut object);
        set_feature_flags(&mut object, &self.config.features);
        set_member(&mut object, "operations", json_array(operations));
        set_member(&mut object, "types", json_array(types));
        object
    }

    /// The files of the TypeScript client: the client, the types and the
    /// index below `src`, the package file and the compiler settings, and
    /// the readme where documentation is asked for. Each is rendered from
    /// the template of its file name with the TypeScript context.
    pub fn generate(&self, api_spec: &ApiSpec) -> (r: Result<Vec<GeneratedFile>, GeneratorError>)
        requires
            self.well_formed(),
        ensures
            is_plan_outcome(
                r,
                self.templates(),
                standard_helpers(),
                ts_plan(
                    self.config().output_config.include_docs,
                    ts_context(self.config(), *api_spec),
                ),
            ),
    {
        let context = self.build_context(api_spec);
        let mut plan: Vec<Artifact> = Vec::new();
        plan.push(artifact("client.ts", "src/client.ts"));
        plan.push(artifact("types.ts", "src/types.ts"));
        plan.push(artifact("index.ts", "src/index.ts"));
        plan.push(artifact("package.json", "package.json"));
        plan.push(artifact("tsconfig.json", "tsconfig.json"));
        if self.config.output_config.include_docs {
            plan.push(artifact("README.md", "README.md"));
        }
        assert(plan_items(plan@, json_model(context)) =~= ts_plan(
            self.config().output_config.include_docs,
            ts_context(self.config(), *api_spec),
        ));
        render_all(&self.template_engine, &context, &plan)
    }
}

} // verus!
