//! The Go client: its names, its types, the context of its templates and
//! the files it is made of.

use vstd::prelude::*;
use crate::artifacts::{
    artifact, is_plan_outcome, paired_plan, plan_items, render_all, Artifact, GeneratedFile,
    PlanItem,
};
use crate::casing::{underscore_pascal, underscore_pascal_of};
use crate::config::{GeneratorConfig, TargetLanguage};
use crate::error::GeneratorError;
use crate::generators::context::{
    any_parameter_in, find_success_type, has_parameter_in, set_authentication,
    set_feature_flags, success_type, with_authentication, with_feature_flags,
};
use crate::json::{
    json_array, json_bool, json_model, json_models, json_object, json_optional_text, json_text,
    optional_text, set_member, JsonModel,
};
use crate::projector::{project, projected};
use crate::serialize::{
    http_method_json, http_method_to_json, optional_view, parameter_type_json,
    parameter_type_to_json,
};
use crate::template::{
    is_loading_outcome, listing, loaded_until_rejected, standard_helpers, TemplateEngine,
    TemplateFile,
};
use crate::text::{replace_char, replaced};
use crate::types::{
    ApiSpec, Operation, Parameter, ParameterType, Property, TypeDefinition, TypeReference,
};
use crate::unicode::{lowercase, lowered};

verus! {

/// A name in Go's exported form: the pieces between underscores, each
/// capitalised.
pub fn to_go_name(name: &str) -> (r: String)
    ensures
        r@ == underscore_pascal_of(name@),
{
    underscore_pascal(name)
}

/// The Go package of the client: the configured package name in lower case
/// with an underscore for every hyphen and space, or `client`.
pub open spec fn go_package_name(package_name: Option<Seq<char>>) -> Seq<char> {
    match package_name {
        Some(name) => lowered(replaced(replaced(name, '-', "_"@), ' ', "_"@)),
        None => "client"@,
    }
}

/// The Go module of the client.
pub open spec fn go_module(package_name: Option<Seq<char>>) -> Seq<char> {
    "github.com/example/"@ + go_package_name(package_name)
}

/// The Go type of what an operation answers with: the type of its first
/// successful, typed response, or the empty interface.
pub open spec fn go_response_type(operation: Operation) -> Seq<char> {
    match success_type(operation.responses@) {
        Some(t) => projected(t@, TargetLanguage::Go),
        None => "interface{}"@,
    }
}

/// What the Go templates see of a parameter.
pub open spec fn go_parameter_json(p: Parameter) -> JsonModel {
    JsonModel::Object(
        Map::empty().insert("name"@, JsonModel::Text(p.name@)).insert(
            "go_name"@,
            JsonModel::Text(underscore_pascal_of(p.name@)),
        ).insert("go_type"@, JsonModel::Text(projected(p.data_type@, TargetLanguage::Go))).insert(
            "location"@,
            parameter_type_json(p.parameter_type),
        ).insert("required"@, JsonModel::Bool(p.required)).insert(
            "description"@,
            optional_text(optional_view(p.description)),
        ),
    )
}

/// What the Go templates see of a list of parameters.
pub open spec fn go_parameters_json(list: Seq<Parameter>) -> Seq<JsonModel> {
    list.map_values(|p: Parameter| go_parameter_json(p))
}

/// What the Go templates see of an operation.
pub open spec fn go_operation_json(op: Operation) -> JsonModel {
    JsonModel::Object(
        Map::empty().insert("name"@, JsonModel::Text(op.name@)).insert(
            "id"@,
            JsonModel::Text(op.id@),
        ).insert("method"@, http_method_json(op.method)).insert(
            "path"@,
            JsonModel::Text(op.path@),
        ).insert("description"@, optional_text(optional_view(op.description))).insert(
            "parameters"@,
            JsonModel::Array(go_parameters_json(op.parameters@)),
        ).insert("response_type"@, JsonModel::Text(go_response_type(op))).insert(
            "has_path_params"@,
            JsonModel::Bool(has_parameter_in(op.parameters@, ParameterType::Path)),
        ).insert(
            "has_query_params"@,
            JsonModel::Bool(has_parameter_in(op.parameters@, ParameterType::Query)),
        ),
    )
}

/// What the Go templates see of a list of operations.
pub open spec fn go_operations_json(list: Seq<Operation>) -> Seq<JsonModel> {
    list.map_values(|op: Operation| go_operation_json(op))
}

/// What the Go templates see of a property.
pub open spec fn go_property_json(p: Property) -> JsonModel {
    JsonModel::Object(
        Map::empty().insert("name"@, JsonModel::Text(p.name@)).insert(
            "go_name"@,
            JsonModel::Text(underscore_pascal_of(p.name@)),
        ).insert("go_type"@, JsonModel::Text(projected(p.data_type@, TargetLanguage::Go))).insert(
            "json_name"@,
            JsonModel::Text(p.name@),
        ).insert("required"@, JsonModel::Bool(p.required)).insert(
            "description"@,
            optional_text(optional_view(p.description)),
        ),
    )
}

/// What the Go templates see of a list of properties.
pub open spec fn go_properties_json(list: Seq<Property>) -> Seq<JsonModel> {
    list.map_values(|p: Property| go_property_json(p))
}

/// What the Go templates see of a type definition.
pub open spec fn go_type_json(t: TypeDefinition) -> JsonModel {
    JsonModel::Object(
        Map::empty().insert("name"@, JsonModel::Text(t.name@)).insert(
            "go_name"@,
            JsonModel::Text(underscore_pascal_of(t.name@)),
        ).insert("description"@, optional_text(optional_view(t.description))).insert(
            "properties"@,
            JsonModel::Array(go_properties_json(t.properties@)),
        ),
    )
}

/// What the Go templates see of a list of type definitions.
pub open spec fn go_types_json(list: Seq<TypeDefinition>) -> Seq<JsonModel> {
    list.map_values(|t: TypeDefinition| go_type_json(t))
}

/// The context of the Go templates.
pub open spec fn go_context(config: GeneratorConfig, api_spec: ApiSpec) -> JsonModel {
    let package = optional_view(config.output_config.package_name);
    let named = Map::empty().insert("api_name"@, JsonModel::Text(api_spec.name@)).insert(
        "api_version"@,
        JsonModel::Text(api_spec.version@),
    ).insert("description"@, optional_text(optional_view(api_spec.description))).insert(
        "base_url"@,
        optional_text(optional_view(api_spec.base_url)),
    ).insert("package_name"@, JsonModel::Text(go_package_name(package))).insert(
        "go_module"@,
        JsonModel::Text(go_module(package)),
    ).insert("class_name"@, JsonModel::Text(underscore_pascal_of(api_spec.name@ + "Client"@)));
    let flagged = with_feature_flags(
        with_authentication(named, config.authentication),
        config.features,
    );
    JsonModel::Object(
        flagged.insert("operations"@, JsonModel::Array(go_operations_json(api_spec.operations@))).insert(
            "types"@,
            JsonModel::Array(go_types_json(api_spec.types@)),
        ),
    )
}

/// The templates of the Go client, in the order in which they are
/// rendered. Each gives the file of its name.
pub open spec fn go_templates(include_docs: bool) -> Seq<Seq<char>> {
    if include_docs {
        seq!["client.go"@, "types.go"@, "go.mod"@, "README.md"@]
    } else {
        seq!["client.go"@, "types.go"@, "go.mod"@]
    }
}

/// The renderings that make up the client, with their context.
pub open spec fn go_plan(include_docs: bool, data: JsonModel) -> Seq<PlanItem> {
    paired_plan(go_templates(include_docs), go_templates(include_docs), data)
}

/// Generates the Go client of an API.
pub struct GoGenerator {
    config: GeneratorConfig,
    template_engine: TemplateEngine,
}

impl GoGenerator {
    pub closed spec fn config(&self) -> GeneratorConfig {
        self.config
    }

    /// The templates that the generator holds.
    pub closed spec fn templates(&self) -> Map<Seq<char>, Seq<char>> {
        self.template_engine.templates()
    }

    /// The generator renders with the library's helpers, and none of its
    /// templates includes another.
    pub closed spec fn well_formed(&self) -> bool {
        self.template_engine.well_formed() && self.template_engine.helpers()
            == standard_helpers()
    }

    /// A generator with the given configuration and no template yet.
    pub fn new(config: GeneratorConfig) -> (r: Result<GoGenerator, GeneratorError>)
        ensures
            r matches Ok(g) && g.config() == config && g.templates()
                == crate::template::no_templates() && g.well_formed(),
    {
        match TemplateEngine::new(config.target_language, config.input_type) {
            Ok(template_engine) => Ok(GoGenerator { config, template_engine }),
            Err(e) => Err(e),
        }
    }

    /// Loads the template files found in `directory`, as
    /// `TemplateEngine::load_templates` does.
    pub fn load_templates(&mut self, directory: &str, files: Option<Vec<TemplateFile>>) -> (r:
        Result<(), GeneratorError>)
        requires
            old(self).well_formed(),
        ensures
            final(self).well_formed(),
            final(self).config() == old(self).config(),
            files is None ==> final(self).templates() == old(self).templates(),
            files is None ==> (r matches Err(GeneratorError::Io { message }) && message@
                == "Template directory not found: "@ + directory@),
            files is Some ==> final(self).templates() == loaded_until_rejected(
                old(self).templates(),
                listing(files),
            ),
            files is Some ==> is_loading_outcome(r, listing(files)),
    {
        self.template_engine.load_templates(directory, files)
    }

    fn get_package_name(&self) -> (r: String)
        ensures
            r@ == go_package_name(optional_view(self.config().output_config.package_name)),
    {
        match &self.config.output_config.package_name {
            Some(name) => {
                let a = replace_char(name.as_str(), '-', "_");
                let b = replace_char(a.as_str(), ' ', "_");
                lowercase(b.as_str())
            },
            None => String::from_str("client"),
        }
    }

    fn get_go_module(&self) -> (r: String)
        ensures
            r@ == go_module(optional_view(self.config().output_config.package_name)),
    {
        let mut r = String::from_str("github.com/example/");
        r.append(self.get_package_name().as_str());
        r
    }

    /// The Go type of a type reference.
    pub fn map_type_to_go(&self, type_ref: &TypeReference) -> (r: String)
        ensures
            r@ == projected(type_ref@, TargetLanguage::Go),
    {
        project(type_ref, TargetLanguage::Go)
    }

    fn infer_response_type_go(&self, operation: &Operation) -> (r: String)
        ensures
            r@ == go_response_type(*operation),
    {
        match find_success_type(&operation.responses) {
            Some(t) => self.map_type_to_go(t),
            None => String::from_str("interface{}"),
        }
    }

    fn parameter_context(&self, p: &Parameter) -> (v: serde_json::Value)
        ensures
            json_model(v) == go_parameter_json(*p),
    {
        let mut object = json_object();
        set_member(&mut object, "name", json_text(p.name.as_str()));
        set_member(&mut object, "go_name", json_text(to_go_name(p.name.as_str()).as_str()));
        set_member(&mut object, "go_type", json_text(self.map_type_to_go(&p.data_type).as_str()));
        set_member(&mut object, "location", parameter_type_to_json(p.parameter_type));
        set_member(&mut object, "required", json_bool(p.required));
        set_member(&mut object, "description", json_optional_text(&p.description));
        object
    }

    fn operation_context(&self, op: &Operation) -> (v: serde_json::Value)
        ensures
            json_model(v) == go_operation_json(*op),
    {
        let mut parameters: Vec<serde_json::Value> = Vec::new();
        let mut i: usize = 0;
        while i < op.parameters.len()
            invariant
                i <= op.parameters@.len(),
                parameters@.len() == i,
                forall|k: int|
                    0 <= k < i ==> json_model(#[trigger] parameters@[k]) == go_parameter_json(
                        op.parameters@[k],
                    ),
            decreases op.parameters@.len() - i,
        {
            parameters.push(self.parameter_context(&op.parameters[i]));
            i += 1;
        }
        assert(json_models(parameters@) =~= go_parameters_json(op.parameters@));
        let mut object = json_object();
        set_member(&mut object, "name", json_text(op.name.as_str()));
        set_member(&mut object, "id", json_text(op.id.as_str()));
        set_member(&mut object, "method", http_method_to_json(op.method));
        set_member(&mut object, "path", json_text(op.path.as_str()));
        set_member(&mut object, "description", json_optional_text(&op.description));
        set_member(&mut object, "parameters", json_array(parameters));
        set_member(
            &mut object,
            "response_type",
            json_text(self.infer_response_type_go(op).as_str()),
        );
        set_member(
            &mut object,
            "has_path_params",
            json_bool(any_parameter_in(&op.parameters, ParameterType::Path)),
        );
        set_member(
            &mut object,
            "has_query_params",
            json_bool(any_parameter_in(&op.parameters, ParameterType::Query)),
        );
        object
    }

    fn property_context(&self, p: &Property) -> (v: serde_json::Value)
        ensures
            json_model(v) == go_property_json(*p),
    {
        let mut object = json_object();
        set_member(&mut object, "name", json_text(p.name.as_str()));
        set_member(&mut object, "go_name", json_text(to_go_name(p.name.as_str()).as_str()));
        set_member(&mut object, "go_type", json_text(self.map_type_to_go(&p.data_type).as_str()));
        set_member(&mut object, "json_name", json_text(p.name.as_str()));
        set_member(&mut object, "required", json_bool(p.required));
        set_member(&mut object, "description", json_optional_text(&p.description));
        object
    }

    fn type_context(&self, t: &TypeDefinition) -> (v: serde_json::Value)
        ensures
            json_model(v) == go_type_json(*t),
    {
        let mut properties: Vec<serde_json::Value> = Vec::new();
        let mut i: usize = 0;
        while i < t.properties.len()
            invariant
                i <= t.properties@.len(),
                properties@.len() == i,
                forall|k: int|
                    0 <= k < i ==> json_model(#[trigger] properties@[k]) == go_property_json(
                        t.properties@[k],
                    ),
            decreases t.properties@.len() - i,
        {
            properties.push(self.property_context(&t.properties[i]));
            i += 1;
        }
        assert(json_models(properties@) =~= go_properties_json(t.properties@));
        let mut object = json_object();
        set_member(&mut object, "name", json_text(t.name.as_str()));
        set_member(&mut object, "go_name", json_text(to_go_name(t.name.as_str()).as_str()));
        set_member(&mut object, "description", json_optional_text(&t.description));
        set_member(&mut object, "properties", json_array(properties));
        object
    }

    /// The context that the Go templates are rendered with.
    pub fn build_context(&self, api_spec: &ApiSpec) -> (v: serde_json::Value)
        ensures
            json_model(v) == go_context(self.config(), *api_spec),
    {
        let mut operations: Vec<serde_json::Value> = Vec::new();
        let mut i: usize = 0;
        while i < api_spec.operations.len()
            invariant
                i <= api_spec.operations@.len(),
                operations@.len() == i,
                forall|k: int|
                    0 <= k < i ==> json_model(#[trigger] operations@[k]) == go_operation_json(
                        api_spec.operations@[k],
                    ),
            decreases api_spec.operations@.len() - i,
        {
            operations.push(self.operation_context(&api_spec.operations[i]));
            i += 1;
        }
        assert(json_models(operations@) =~= go_operations_json(api_spec.operations@));
        let mut types: Vec<serde_json::Value> = Vec::new();
        let mut j: usize = 0;
        while j < api_spec.types.len()
            invariant
                j <= api_spec.types@.len(),
                types@.len() == j,
                forall|k: int|
                    0 <= k < j ==> json_model(#[trigger] types@[k]) == go_type_json(
                        api_spec.types@[k],
                    ),
            decreases api_spec.types@.len() - j,
        {
            types.push(self.type_context(&api_spec.types[j]));
            j += 1;
        }
        assert(json_models(types@) =~= go_types_json(api_spec.types@));
        let mut class_name = api_spec.name.clone();
        class_name.append("Client");
        let mut object = json_object();
        set_member(&mut object, "api_name", json_text(api_spec.name.as_str()));
        set_member(&mut object, "api_version", json_text(api_spec.version.as_str()));
        set_member(&mut object, "description", json_optional_text(&api_spec.description));
        set_member(&mut object, "base_url", json_optional_text(&api_spec.base_url));
        set_member(&mut object, "package_name", json_text(self.get_package_name().as_str()));
        set_member(&mut object, "go_module", json_text(self.get_go_module().as_str()));
        set_member(&mut object, "class_name", json_text(to_go_name(class_name.as_str()).as_str()));
        set_authentication(&mut object, &self.config.authentication);
        set_feature_flags(&mut object, &self.config.features);
        set_member(&mut object, "operations", json_array(operations));
        set_member(&mut object, "types", json_array(types));
        object
    }

    /// The files of the Go client: the client, the types and the module
    /// file, and the readme where documentation is asked for. Each is
    /// rendered from the template of its name with the Go context.
    pub fn generate(&self, api_spec: &ApiSpec) -> (r: Result<Vec<GeneratedFile>, GeneratorError>)
        requires
            self.well_formed(),
        ensures
            is_plan_outcome(
                r,
                self.templates(),
                standard_helpers(),
                go_plan(
                    self.config().output_config.include_docs,
                    go_context(self.config(), *api_spec),
                ),
            ),
    {
        let context = self.build_context(api_spec);
        let mut plan: Vec<Artifact> = Vec::new();
        plan.push(artifact("client.go", "client.go"));
        plan.push(artifact("types.go", "types.go"));
        plan.push(artifact("go.mod", "go.mod"));
        if self.config.output_config.include_docs {
            plan.push(artifact("README.md", "README.md"));
        }
        assert(plan_items(plan@, json_model(context)) =~= go_plan(
            self.config().output_config.include_docs,
            go_context(self.config(), *api_spec),
        ));
        render_all(&self.template_engine, &context, &plan)
    }
}

} // verus!
