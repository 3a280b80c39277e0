//! The orchestrator: from one API and one configuration to the files of a
//! client in one language.
//!
//! Nothing here touches the file system. A run ends in a plan, the files
//! with their text and the formatter to run over them, or in the first
//! failure. Writing the plan out is left to the caller.

use vstd::prelude::*;
use crate::artifacts::{
    all_render, are_files_of, artifact, is_file_of, is_plan_failure, is_plan_outcome,
    lemma_all_render_add, lemma_failure_in_first, lemma_failure_in_second, paired_plan,
    plan_items, render_all, render_artifact, Artifact, GeneratedFile, PlanItem,
};
use crate::casing::snake_case_of;
use crate::config::{GeneratorConfig, TargetLanguage};
use crate::error::GeneratorError;
use crate::features::{
    caching_feature, feature_views, retry_feature, telemetry_feature, the_merge, FeatureCode,
    FeatureCodeView, FeatureGenerator,
};
use crate::generators::go::go_module;
use crate::generators::test_generators::TestGeneratorFactory;
use crate::json::{
    json_bool, json_model, json_object, json_optional_text, json_text, json_text_array,
    optional_text, set_member, text_documents, JsonModel,
};
use crate::serialize::{
    api_spec_json, api_spec_to_json, generator_config_json, generator_config_to_json,
    operation_list_json, operation_list_to_json, optional_view, type_definition_json,
    type_definition_list_json, type_definition_list_to_json, type_definition_to_json,
};
use crate::template::{
    first_rejected, is_rejection_of, listing, loaded_until_rejected, standard_helpers,
    to_snake_case, TemplateEngine, TemplateFile,
};
use crate::test_generation::{TestGenerationConfig, TestGenerator, TestSuite};
use crate::text::{join, joined, replace_char, replaced, texts};
use crate::types::{ApiSpec, TypeDefinition};
use crate::unicode::lowercase;

verus! {

/// The program that formats the generated code of a language.
#[derive(Debug, Clone)]
pub struct FormatterCommand {
    pub program: String,
    pub arguments: Vec<String>,
    /// Whether the output directory is passed as the last argument.
    pub output_path_as_argument: bool,
    /// Whether the program runs inside the output directory.
    pub run_in_output_directory: bool,
}

/// The mathematical model of a `FormatterCommand`.
pub struct FormatterView {
    pub program: Seq<char>,
    pub arguments: Seq<Seq<char>>,
    pub output_path_as_argument: bool,
    pub run_in_output_directory: bool,
}

impl View for FormatterCommand {
    type V = FormatterView;

    open spec fn view(&self) -> FormatterView {
        FormatterView {
            program: self.program@,
            arguments: texts(self.arguments@),
            output_path_as_argument: self.output_path_as_argument,
            run_in_output_directory: self.run_in_output_directory,
        }
    }
}

/// The formatter of each language.
pub open spec fn formatter_of(language: TargetLanguage) -> FormatterView {
    match language {
        TargetLanguage::Java => FormatterView {
            program: "google-java-format"@,
            arguments: seq!["--replace"@, "--recursive"@],
            output_path_as_argument: true,
            run_in_output_directory: false,
        },
        TargetLanguage::Python => FormatterView {
            program: "black"@,
            arguments: Seq::empty(),
            output_path_as_argument: true,
            run_in_output_directory: false,
        },
        TargetLanguage::Rust => FormatterView {
            program: "cargo"@,
            arguments: seq!["fmt"@, "--all"@],
            output_path_as_argument: false,
            run_in_output_directory: true,
        },
        TargetLanguage::Go => FormatterView {
            program: "gofmt"@,
            arguments: seq!["-w"@, "."@],
            output_path_as_argument: false,
            run_in_output_directory: true,
        },
        TargetLanguage::TypeScript => FormatterView {
            program: "prettier"@,
            arguments: seq!["--write"@, "**/*.ts"@],
            output_path_as_argument: false,
            run_in_output_directory: true,
        },
    }
}

/// The formatter of a language.
pub fn formatter_command(language: TargetLanguage) -> (r: FormatterCommand)
    ensures
        r@ == formatter_of(language),
{
    let mut arguments: Vec<String> = Vec::new();
    let (program, as_argument) = match language {
        TargetLanguage::Java => {
            arguments.push(String::from_str("--replace"));
            arguments.push(String::from_str("--recursive"));
            ("google-java-format", true)
        },
        TargetLanguage::Python => ("black", true),
        TargetLanguage::Rust => {
            arguments.push(String::from_str("fmt"));
            arguments.push(String::from_str("--all"));
            ("cargo", false)
        },
        TargetLanguage::Go => {
            arguments.push(String::from_str("-w"));
            arguments.push(String::from_str("."));
            ("gofmt", false)
        },
        TargetLanguage::TypeScript => {
            arguments.push(String::from_str("--write"));
            arguments.push(String::from_str("**/*.ts"));
            ("prettier", false)
        },
    };
    let r = FormatterCommand {
        program: String::from_str(program),
        arguments,
        output_path_as_argument: as_argument,
        run_in_output_directory: !as_argument,
    };
    assert(r@.arguments =~= formatter_of(language).arguments);
    r
}

/// The Java package of the client: the configured one, or
/// `com.example.client`.
pub open spec fn java_package(package_name: Option<Seq<char>>) -> Seq<char> {
    match package_name {
        Some(p) => p,
        None => "com.example.client"@,
    }
}

/// The directory of the client's sources, below the output directory.
pub open spec fn source_directory(language: TargetLanguage, package_name: Option<Seq<char>>) -> Seq<
    char,
> {
    match language {
        TargetLanguage::Java => "src/main/java/"@ + replaced(
            java_package(package_name),
            '.',
            "/"@,
        ),
        TargetLanguage::Rust => "src"@,
        _ => "client_sdk"@,
    }
}

/// The extension of a language's source files.
pub open spec fn extension(language: TargetLanguage) -> Seq<char> {
    match language {
        TargetLanguage::Java => "java"@,
        TargetLanguage::Python => "py"@,
        TargetLanguage::Rust => "rs"@,
        TargetLanguage::Go => "go"@,
        TargetLanguage::TypeScript => "ts"@,
    }
}

/// The name of the client's file, without extension.
pub open spec fn client_stem(language: TargetLanguage) -> Seq<char> {
    match language {
        TargetLanguage::Java => "Client"@,
        _ => "client"@,
    }
}

/// The name of the asynchronous client's file, without extension.
pub open spec fn async_client_stem(language: TargetLanguage) -> Seq<char> {
    match language {
        TargetLanguage::Java => "AsyncClient"@,
        _ => "async_client"@,
    }
}

/// The name of the configuration class's file, without extension.
pub open spec fn config_stem(language: TargetLanguage) -> Seq<char> {
    match language {
        TargetLanguage::Java => "ClientConfig"@,
        _ => "config"@,
    }
}

/// The path of a source file of the client.
pub open spec fn source_path(
    language: TargetLanguage,
    package_name: Option<Seq<char>>,
    stem: Seq<char>,
) -> Seq<char> {
    source_directory(language, package_name) + "/"@ + stem + "."@ + extension(language)
}

/// The directory of the model files.
pub open spec fn models_directory(language: TargetLanguage, package_name: Option<Seq<char>>) -> Seq<
    char,
> {
    source_directory(language, package_name) + "/models"@
}

/// The name of a model's file, without extension: the name of the type as
/// it is for Java, in snake case for the other languages.
pub open spec fn model_stem(language: TargetLanguage, model_name: Seq<char>) -> Seq<char> {
    match language {
        TargetLanguage::Java => model_name,
        _ => snake_case_of(model_name),
    }
}

/// The path of the file of the model called `model_name`.
pub open spec fn model_path(
    language: TargetLanguage,
    package_name: Option<Seq<char>>,
    model_name: Seq<char>,
) -> Seq<char> {
    models_directory(language, package_name) + "/"@ + model_stem(language, model_name) + "."@
        + extension(language)
}

/// The directory of the tests.
pub open spec fn tests_directory(language: TargetLanguage) -> Seq<char> {
    match language {
        TargetLanguage::Java => "src/test/java"@,
        _ => "tests"@,
    }
}

/// The path of the file of the client's tests.
pub open spec fn test_file_path(language: TargetLanguage) -> Seq<char> {
    tests_directory(language) + "/"@ + (match language {
        TargetLanguage::Java => "ClientTest.java"@,
        TargetLanguage::Python => "test_client.py"@,
        TargetLanguage::Rust => "integration_tests.rs"@,
        TargetLanguage::Go => "client_test.go"@,
        TargetLanguage::TypeScript => "client_test.ts"@,
    })
}

/// The build manifest of each language: the template and the file share
/// the name.
pub open spec fn manifest_name(language: TargetLanguage) -> Seq<char> {
    match language {
        TargetLanguage::Java => "pom.xml"@,
        TargetLanguage::Python => "setup.py"@,
        TargetLanguage::Rust => "Cargo.toml"@,
        TargetLanguage::Go => "go.mod"@,
        TargetLanguage::TypeScript => "package.json"@,
    }
}

/// The kinds of file that a client is made of.
#[derive(Debug, Clone, Copy, PartialEq, Eq, Structural)]
pub enum ArtifactKind {
    Client,
    AsyncClient,
    Config,
    /// The file of one model; the identifier is the name of its type.
    Model,
    Manifest,
    /// A file of the documentation; the identifier is its file name.
    Documentation,
    Test,
}

/// Where an artifact goes, below the output directory. The identifier
/// counts for models and documentation only.
pub open spec fn artifact_path_of(
    language: TargetLanguage,
    package_name: Option<Seq<char>>,
    kind: ArtifactKind,
    identifier: Seq<char>,
) -> Seq<char> {
    match kind {
        ArtifactKind::Client => source_path(language, package_name, client_stem(language)),
        ArtifactKind::AsyncClient => source_path(
            language,
            package_name,
            async_client_stem(language),
        ),
        ArtifactKind::Config => source_path(language, package_name, config_stem(language)),
        ArtifactKind::Model => model_path(language, package_name, identifier),
        ArtifactKind::Manifest => manifest_name(language),
        ArtifactKind::Documentation => "docs/"@ + identifier,
        ArtifactKind::Test => test_file_path(language),
    }
}

/// The fragments of the enabled features: retry, telemetry and caching, in
/// that order.
pub open spec fn enabled_features(config: GeneratorConfig) -> Seq<FeatureCodeView> {
    let language = config.target_language;
    let features = config.features;
    let retry = if features.retry.enabled {
        seq![retry_feature(language, features.retry.max_attempts, features.retry.backoff_strategy)]
    } else {
        Seq::empty()
    };
    let telemetry = if features.telemetry.enabled {
        seq![telemetry_feature(language, features.telemetry.provider)]
    } else {
        Seq::empty()
    };
    let caching = if features.caching.enabled {
        seq![
            caching_feature(
                language,
                features.caching.max_cache_size,
                features.caching.default_ttl_seconds,
            ),
        ]
    } else {
        Seq::empty()
    };
    retry + telemetry + caching
}

/// The text of an optional text, or a default.
pub open spec fn text_or(text: Option<Seq<char>>, default: Seq<char>) -> Seq<char> {
    match text {
        Some(t) => t,
        None => default,
    }
}

/// The context of the client templates and of the documentation: the API
/// and the configuration in full, the names derived from them, the feature
/// flags and the merged feature code.
pub open spec fn template_context(
    config: GeneratorConfig,
    api_spec: ApiSpec,
    merged: FeatureCodeView,
) -> JsonModel {
    let package = optional_view(config.output_config.package_name);
    JsonModel::Object(
        Map::empty().insert("spec"@, api_spec_json(api_spec)).insert(
            "config"@,
            generator_config_json(config),
        ).insert("language"@, JsonModel::Text(config.target_language.key())).insert(
            "package"@,
            JsonModel::Text(java_package(package)),
        ).insert("package_name"@, JsonModel::Text(text_or(package, "client"@))).insert(
            "version"@,
            JsonModel::Text(config.output_config.version@),
        ).insert("api_name"@, JsonModel::Text(api_spec.name@)).insert(
            "api_version"@,
            JsonModel::Text(api_spec.version@),
        ).insert("description"@, optional_text(optional_view(api_spec.description))).insert(
            "base_url"@,
            optional_text(optional_view(api_spec.base_url)),
        ).insert("class_name"@, JsonModel::Text(api_spec.name@ + "Client"@)).insert(
            "go_module"@,
            JsonModel::Text(go_module(Some(text_or(package, "client"@)))),
        ).insert("operations"@, JsonModel::Array(operation_list_json(api_spec.operations@))).insert(
            "types"@,
            JsonModel::Array(type_definition_list_json(api_spec.types@)),
        ).insert(
            "features"@,
            JsonModel::Object(
                Map::empty().insert("retry"@, JsonModel::Bool(config.features.retry.enabled)).insert(
                    "telemetry"@,
                    JsonModel::Bool(config.features.telemetry.enabled),
                ).insert("caching"@, JsonModel::Bool(config.features.caching.enabled)).insert(
                    "async"@,
                    JsonModel::Bool(config.features.async_support),
                ),
            ),
        ).insert(
            "feature_code"@,
            JsonModel::Object(
                Map::empty().insert(
                    "dependencies"@,
                    JsonModel::Array(text_documents(merged.dependencies)),
                ).insert("imports"@, JsonModel::Array(text_documents(merged.imports))).insert(
                    "code"@,
                    JsonModel::Text(merged.code),
                ),
            ),
        ),
    )
}

/// The context of a model template: the type definition, the
/// configuration, the language and the package.
pub open spec fn model_context(config: GeneratorConfig, type_def: TypeDefinition) -> JsonModel {
    JsonModel::Object(
        Map::empty().insert("type"@, type_definition_json(type_def)).insert(
            "config"@,
            generator_config_json(config),
        ).insert("language"@, JsonModel::Text(config.target_language.key())).insert(
            "package"@,
            JsonModel::Text(java_package(optional_view(config.output_config.package_name))),
        ),
    )
}

/// The context of a build manifest: the configuration, the dependencies of
/// the merged feature code, and the package with its version, author and
/// license.
pub open spec fn build_context(config: GeneratorConfig, merged: FeatureCodeView) -> JsonModel {
    JsonModel::Object(
        Map::empty().insert("config"@, generator_config_json(config)).insert(
            "dependencies"@,
            JsonModel::Array(text_documents(merged.dependencies)),
        ).insert(
            "package"@,
            JsonModel::Text(
                text_or(optional_view(config.output_config.package_name), "client-sdk"@),
            ),
        ).insert("version"@, JsonModel::Text(config.output_config.version@)).insert(
            "author"@,
            optional_text(optional_view(config.output_config.author)),
        ).insert("license"@, optional_text(optional_view(config.output_config.license))),
    )
}

/// Whether a client for the language gets an asynchronous client in a file
/// of its own: where asynchronous support is on, for every language but
/// Python, whose client template holds both.
pub open spec fn has_async_client(config: GeneratorConfig) -> bool {
    config.features.async_support && config.target_language != TargetLanguage::Python
}

/// The templates of the client files, in the order in which they are
/// rendered.
pub open spec fn client_templates(config: GeneratorConfig) -> Seq<Seq<char>> {
    if has_async_client(config) {
        seq!["client"@, "async_client"@, "config"@]
    } else {
        seq!["client"@, "config"@]
    }
}

/// The paths of the client files, in the order of their templates.
pub open spec fn client_paths(config: GeneratorConfig) -> Seq<Seq<char>> {
    let language = config.target_language;
    let package = optional_view(config.output_config.package_name);
    if has_async_client(config) {
        seq![
            source_path(language, package, client_stem(language)),
            source_path(language, package, async_client_stem(language)),
            source_path(language, package, config_stem(language)),
        ]
    } else {
        seq![
            source_path(language, package, client_stem(language)),
            source_path(language, package, config_stem(language)),
        ]
    }
}

/// The paths of the model files: one for each type definition, in order.
pub open spec fn model_paths(config: GeneratorConfig, types: Seq<TypeDefinition>) -> Seq<
    Seq<char>,
> {
    types.map_values(
        |t: TypeDefinition|
            model_path(
                config.target_language,
                optional_view(config.output_config.package_name),
                t.name@,
            ),
    )
}

/// The templates of the build files.
pub open spec fn build_templates(language: TargetLanguage) -> Seq<Seq<char>> {
    match language {
        TargetLanguage::TypeScript => seq!["package.json"@, "tsconfig.json"@],
        _ => seq![manifest_name(language)],
    }
}

/// The paths of the build files: the rendered ones under the names of
/// their templates, and for Python the list of requirements after them.
pub open spec fn build_paths(language: TargetLanguage) -> Seq<Seq<char>> {
    match language {
        TargetLanguage::Python => seq!["setup.py"@, "requirements.txt"@],
        _ => build_templates(language),
    }
}

/// The templates of the documentation.
pub open spec fn documentation_templates() -> Seq<Seq<char>> {
    seq!["README.md"@, "api_docs.md"@]
}

/// The paths of the documentation.
pub open spec fn documentation_paths() -> Seq<Seq<char>> {
    seq!["docs/README.md"@, "docs/api.md"@]
}

/// The renderings of the client files, with the context of the client
/// templates for the fragments `fs`.
pub open spec fn client_plan(
    config: GeneratorConfig,
    api_spec: ApiSpec,
    fs: Seq<FeatureCodeView>,
) -> Seq<PlanItem> {
    paired_plan(
        client_templates(config),
        client_paths(config),
        template_context(config, api_spec, the_merge(fs)),
    )
}

/// The renderings of the model files: the model template once for each
/// type definition, with the context of that type.
pub open spec fn model_plan(config: GeneratorConfig, types: Seq<TypeDefinition>) -> Seq<PlanItem> {
    types.map_values(
        |t: TypeDefinition|
            PlanItem {
                template: "model"@,
                path: model_path(
                    config.target_language,
                    optional_view(config.output_config.package_name),
                    t.name@,
                ),
                data: model_context(config, t),
            },
    )
}

/// The renderings of the build files, with the context of the build
/// templates for the fragments `fs`.
pub open spec fn build_plan(config: GeneratorConfig, fs: Seq<FeatureCodeView>) -> Seq<PlanItem> {
    paired_plan(
        build_templates(config.target_language),
        build_templates(config.target_language),
        build_context(config, the_merge(fs)),
    )
}

/// The renderings of the documentation. Their context holds no feature
/// code.
pub open spec fn documentation_plan(config: GeneratorConfig, api_spec: ApiSpec) -> Seq<PlanItem> {
    paired_plan(
        documentation_templates(),
        documentation_paths(),
        template_context(config, api_spec, the_merge(Seq::empty())),
    )
}

/// Whether `files` are the build files: the files of the build plan, and
/// for Python the list of requirements after them, one dependency of the
/// merged fragments to a line.
pub open spec fn are_build_files(
    files: Seq<GeneratedFile>,
    templates: Map<Seq<char>, Seq<char>>,
    config: GeneratorConfig,
    fs: Seq<FeatureCodeView>,
) -> bool {
    if config.target_language == TargetLanguage::Python {
        &&& files.len() == 2
        &&& is_file_of(files[0], templates, standard_helpers(), build_plan(config, fs)[0])
        &&& files[1].path@ == "requirements.txt"@
        &&& files[1].content@ == joined(the_merge(fs).dependencies, "\n"@)
    } else {
        are_files_of(files, templates, standard_helpers(), build_plan(config, fs))
    }
}

/// Whether `r` is the outcome of generating the build files: the files
/// where every build template renders, the failure of the first that does
/// not otherwise.
pub open spec fn is_build_outcome(
    r: Result<Vec<GeneratedFile>, GeneratorError>,
    templates: Map<Seq<char>, Seq<char>>,
    config: GeneratorConfig,
    fs: Seq<FeatureCodeView>,
) -> bool {
    match r {
        Ok(files) => all_render(templates, standard_helpers(), build_plan(config, fs))
            && are_build_files(files@, templates, config, fs),
        Err(e) => is_plan_failure(e, templates, standard_helpers(), build_plan(config, fs)),
    }
}

/// The renderings that a run makes before it turns to tests and
/// documentation: the client files, the model files, the build files.
pub open spec fn main_plan(config: GeneratorConfig, api_spec: ApiSpec) -> Seq<PlanItem> {
    client_plan(config, api_spec, enabled_features(config)) + model_plan(
        config,
        api_spec.types@,
    ) + build_plan(config, enabled_features(config))
}

/// Whether `r` is the outcome of a run whose templates are loaded.
///
/// A run succeeds with the files of every rendering. It fails with the
/// failure of the first rendering that fails: first among client, models
/// and build, then in the documentation. Where a test generator is asked
/// between the two, it may fail the run as well.
pub open spec fn is_run_outcome(
    r: Result<GenerationPlan, GeneratorError>,
    templates: Map<Seq<char>, Seq<char>>,
    config: GeneratorConfig,
    api_spec: ApiSpec,
    asks_test_generator: bool,
) -> bool {
    let helpers = standard_helpers();
    let features = enabled_features(config);
    let main = main_plan(config, api_spec);
    let docs = documentation_plan(config, api_spec);
    match r {
        Ok(plan) => {
            &&& all_render(templates, helpers, main)
            &&& are_files_of(
                plan.client_files@,
                templates,
                helpers,
                client_plan(config, api_spec, features),
            )
            &&& are_files_of(
                plan.model_files@,
                templates,
                helpers,
                model_plan(config, api_spec.types@),
            )
            &&& are_build_files(plan.build_files@, templates, config, features)
            &&& (!asks_test_generator ==> plan.test_files@.len() == 0)
            &&& (if config.output_config.include_docs {
                all_render(templates, helpers, docs) && are_files_of(
                    plan.documentation_files@,
                    templates,
                    helpers,
                    docs,
                )
            } else {
                plan.documentation_files@.len() == 0
            })
            &&& (match plan.formatter {
                Some(command) => config.output_config.format_code && command@ == formatter_of(
                    config.target_language,
                ),
                None => !config.output_config.format_code,
            })
        },
        Err(e) => {
            ||| is_plan_failure(e, templates, helpers, main)
            ||| (all_render(templates, helpers, main) && asks_test_generator)
            ||| (all_render(templates, helpers, main) && config.output_config.include_docs
                && is_plan_failure(e, templates, helpers, docs))
        },
    }
}

/// What a run produces.
pub struct GenerationPlan {
    pub client_files: Vec<GeneratedFile>,
    pub model_files: Vec<GeneratedFile>,
    pub build_files: Vec<GeneratedFile>,
    pub test_files: Vec<GeneratedFile>,
    pub documentation_files: Vec<GeneratedFile>,
    /// The formatter to run once the files are written, where formatting
    /// is asked for.
    pub formatter: Option<FormatterCommand>,
}

/// Generates the client of an API for one language.
pub struct SdkGenerator {
    config: GeneratorConfig,
    template_engine: TemplateEngine,
    feature_generator: FeatureGenerator,
    test_generator: Option<Box<dyn TestGenerator>>,
}

impl SdkGenerator {
    pub closed spec fn config(&self) -> GeneratorConfig {
        self.config
    }

    /// The templates that the generator holds.
    pub closed spec fn templates(&self) -> Map<Seq<char>, Seq<char>> {
        self.template_engine.templates()
    }

    /// Whether the generator has a test generator.
    pub closed spec fn generates_tests(&self) -> bool {
        self.test_generator is Some
    }

    /// The parts of the generator work for the language of its
    /// configuration, it renders with the library's helpers, and none of
    /// its templates includes another.
    pub closed spec fn well_formed(&self) -> bool {
        &&& self.feature_generator.language() == self.config.target_language
        &&& self.template_engine.well_formed()
        &&& self.template_engine.helpers() == standard_helpers()
    }

    /// A generator for `config`, with no template yet, and with a test
    /// generator where tests are asked for.
    pub fn new(config: GeneratorConfig) -> (r: Result<SdkGenerator, GeneratorError>)
        ensures
            r matches Ok(g) && g.config() == config && g.templates()
                == crate::template::no_templates() && g.generates_tests()
                == config.output_config.include_tests && g.well_formed(),
    {
        let template_engine = match TemplateEngine::new(config.target_language, config.input_type) {
            Ok(engine) => engine,
            Err(e) => {
                return Err(e);
            },
        };
        let feature_generator = FeatureGenerator::new(config.target_language);
        let test_generator = if config.output_config.include_tests {
            match TestGeneratorFactory::create_generator(config.target_language) {
                Ok(generator) => Some(generator),
                Err(e) => {
                    return Err(e);
                },
            }
        } else {
            None
        };
        Ok(SdkGenerator { config, template_engine, feature_generator, test_generator })
    }

    /// The directory of templates to use: the configured override, or
    /// `fallback`.
    pub fn get_template_directory(&self, fallback: &str) -> (r: String)
        ensures
            r@ == text_or(optional_view(self.config().template_overrides), fallback@),
    {
        match &self.config.template_overrides {
            Some(path) => path.clone(),
            None => String::from_str(fallback),
        }
    }

    /// The directory below `base` that holds the templates of the
    /// configured language and protocol.
    pub fn language_template_directory(&self, base: &str) -> (r: String)
        ensures
            r@ == crate::template::template_directory(
                base@,
                self.config().target_language,
                self.config().input_type,
            ),
    {
        let mut r = String::from_str(base);
        r.append("/");
        r.append(self.config.target_language.key_name());
        r.append("/");
        r.append(self.config.input_type.directory_name());
        r
    }

    /// The fragments of the enabled features.
    pub fn generate_features(&self) -> (r: Vec<FeatureCode>)
        requires
            self.well_formed(),
        ensures
            feature_views(r@) == enabled_features(self.config()),
    {
        let mut feature_codes: Vec<FeatureCode> = Vec::new();
        assert(feature_views(feature_codes@) =~= Seq::empty());
        if self.config.features.retry.enabled {
            let code = self.feature_generator.generate_retry_code(&self.config.features.retry);
            feature_codes.push(code);
            assert(feature_views(feature_codes@) =~= seq![code@]);
        }
        let ghost after_retry = feature_views(feature_codes@);
        if self.config.features.telemetry.enabled {
            let code = self.feature_generator.generate_telemetry_code(
                &self.config.features.telemetry,
            );
            feature_codes.push(code);
            assert(feature_views(feature_codes@) =~= after_retry + seq![code@]);
        }
        let ghost after_telemetry = feature_views(feature_codes@);
        if self.config.features.caching.enabled {
            let code = self.feature_generator.generate_caching_code(&self.config.features.caching);
            feature_codes.push(code);
            assert(feature_views(feature_codes@) =~= after_telemetry + seq![code@]);
        }
        assert(feature_views(feature_codes@) =~= enabled_features(self.config()));
        feature_codes
    }

    fn package_or(&self, default: &str) -> (r: String)
        ensures
            r@ == text_or(optional_view(self.config().output_config.package_name), default@),
    {
        match &self.config.output_config.package_name {
            Some(p) => p.clone(),
            None => String::from_str(default),
        }
    }

    fn go_module_name(&self) -> (r: String)
        ensures
            r@ == go_module(
                Some(text_or(optional_view(self.config().output_config.package_name), "client"@)),
            ),
    {
        let package = self.package_or("client");
        let a = replace_char(package.as_str(), '-', "_");
        let b = replace_char(a.as_str(), ' ', "_");
        let mut r = String::from_str("github.com/example/");
        r.append(lowercase(b.as_str()).as_str());
        r
    }

    /// The context of the client templates and of the documentation, with
    /// the given fragments merged.
    pub fn create_template_context(&self, api_spec: &ApiSpec, feature_codes: &Vec<FeatureCode>) -> (r:
        Result<serde_json::Value, GeneratorError>)
        ensures
            r matches Ok(v) && json_model(v) == template_context(
                self.config(),
                *api_spec,
                the_merge(feature_views(feature_codes@)),
            ),
    {
        let merged = FeatureCode::merge_all(feature_codes);
        let mut class_name = api_spec.name.clone();
        class_name.append("Client");
        let mut features = json_object();
        set_member(&mut features, "retry", json_bool(self.config.features.retry.enabled));
        set_member(&mut features, "telemetry", json_bool(self.config.features.telemetry.enabled));
        set_member(&mut features, "caching", json_bool(self.config.features.caching.enabled));
        set_member(&mut features, "async", json_bool(self.config.features.async_support));
        let mut feature_code = json_object();
        set_member(&mut feature_code, "dependencies", json_text_array(&merged.dependencies));
        set_member(&mut feature_code, "imports", json_text_array(&merged.imports));
        set_member(&mut feature_code, "code", json_text(merged.code.as_str()));
        let mut object = json_object();
        set_member(&mut object, "spec", api_spec_to_json(api_spec));
        set_member(&mut object, "config", generator_config_to_json(&self.config));
        set_member(&mut object, "language", json_text(self.config.target_language.key_name()));
        set_member(&mut object, "package", json_text(self.package_or("com.example.client").as_str()));
        set_member(&mut object, "package_name", json_text(self.package_or("client").as_str()));
        set_member(&mut object, "version", json_text(self.config.output_config.version.as_str()));
        set_member(&mut object, "api_name", json_text(api_spec.name.as_str()));
        set_member(&mut object, "api_version", json_text(api_spec.version.as_str()));
        set_member(&mut object, "description", json_optional_text(&api_spec.description));
        set_member(&mut object, "base_url", json_optional_text(&api_spec.base_url));
        set_member(&mut object, "class_name", json_text(class_name.as_str()));
        set_member(&mut object, "go_module", json_text(self.go_module_name().as_str()));
        set_member(&mut object, "operations", operation_list_to_json(&api_spec.operations));
        set_member(&mut object, "types", type_definition_list_to_json(&api_spec.types));
        set_member(&mut object, "features", features);
        set_member(&mut object, "feature_code", feature_code);
        assert(json_model(object) == template_context(self.config(), *api_spec, merged@));
        Ok(object)
    }

    /// The context of the model template for one type definition.
    pub fn create_model_context(&self, type_def: &TypeDefinition) -> (r: Result<
        serde_json::Value,
        GeneratorError,
    >)
        ensures
            r matches Ok(v) && json_model(v) == model_context(self.config(), *type_def),
    {
        let mut object = json_object();
        set_member(&mut object, "type", type_definition_to_json(type_def));
        set_member(&mut object, "config", generator_config_to_json(&self.config));
        set_member(&mut object, "language", json_text(self.config.target_language.key_name()));
        set_member(&mut object, "package", json_text(self.package_or("com.example.client").as_str()));
        Ok(object)
    }

    /// The context of the build manifest for merged feature code.
    pub fn create_build_context(&self, features: &FeatureCode) -> (r: Result<
        serde_json::Value,
        GeneratorError,
    >)
        ensures
            r matches Ok(v) && json_model(v) == build_context(self.config(), features@),
    {
        let mut object = json_object();
        set_member(&mut object, "config", generator_config_to_json(&self.config));
        set_member(&mut object, "dependencies", json_text_array(&features.dependencies));
        set_member(&mut object, "package", json_text(self.package_or("client-sdk").as_str()));
        set_member(&mut object, "version", json_text(self.config.output_config.version.as_str()));
        set_member(&mut object, "author", json_optional_text(&self.config.output_config.author));
        set_member(&mut object, "license", json_optional_text(&self.config.output_config.license));
        Ok(object)
    }

    fn source_directory_text(&self) -> (r: String)
        ensures
            r@ == source_directory(
                self.config().target_language,
                optional_view(self.config().output_config.package_name),
            ),
    {
        match self.config.target_language {
            TargetLanguage::Java => {
                let package = self.package_or("com.example.client");
                let mut r = String::from_str("src/main/java/");
                r.append(replace_char(package.as_str(), '.', "/").as_str());
                r
            },
            TargetLanguage::Rust => String::from_str("src"),
            _ => String::from_str("client_sdk"),
        }
    }

    fn extension_text(&self) -> (r: &'static str)
        ensures
            r@ == extension(self.config().target_language),
    {
        match self.config.target_language {
            TargetLanguage::Java => "java",
            TargetLanguage::Python => "py",
            TargetLanguage::Rust => "rs",
            TargetLanguage::Go => "go",
            TargetLanguage::TypeScript => "ts",
        }
    }

    fn source_path_text(&self, stem: &str) -> (r: String)
        ensures
            r@ == source_path(
                self.config().target_language,
                optional_view(self.config().output_config.package_name),
                stem@,
            ),
    {
        let mut r = self.source_directory_text();
        r.append("/");
        r.append(stem);
        r.append(".");
        r.append(self.extension_text());
        r
    }

    /// Where an artifact of the given kind goes, below the output
    /// directory.
    pub fn artifact_path(&self, kind: ArtifactKind, identifier: &str) -> (r: String)
        ensures
            r@ == artifact_path_of(
                self.config().target_language,
                optional_view(self.config().output_config.package_name),
                kind,
                identifier@,
            ),
    {
        match kind {
            ArtifactKind::Client => self.get_client_file_path(),
            ArtifactKind::AsyncClient => self.get_async_client_file_path(),
            ArtifactKind::Config => self.get_config_file_path(),
            ArtifactKind::Model => self.get_model_file_path(identifier),
            ArtifactKind::Manifest => match self.config.target_language {
                TargetLanguage::Java => String::from_str("pom.xml"),
                TargetLanguage::Python => String::from_str("setup.py"),
                TargetLanguage::Rust => String::from_str("Cargo.toml"),
                TargetLanguage::Go => String::from_str("go.mod"),
                TargetLanguage::TypeScript => String::from_str("package.json"),
            },
            ArtifactKind::Documentation => crate::text::concat2("docs/", identifier),
            ArtifactKind::Test => self.get_test_file_path(),
        }
    }

    /// Where the client goes.
    pub fn get_client_file_path(&self) -> (r: String)
        ensures
            r@ == source_path(
                self.config().target_language,
                optional_view(self.config().output_config.package_name),
                client_stem(self.config().target_language),
            ),
    {
        match self.config.target_language {
            TargetLanguage::Java => self.source_path_text("Client"),
            _ => self.source_path_text("client"),
        }
    }

    /// Where the asynchronous client goes.
    pub fn get_async_client_file_path(&self) -> (r: String)
        ensures
            r@ == source_path(
                self.config().target_language,
                optional_view(self.config().output_config.package_name),
                async_client_stem(self.config().target_language),
            ),
    {
        match self.config.target_language {
            TargetLanguage::Java => self.source_path_text("AsyncClient"),
            _ => self.source_path_text("async_client"),
        }
    }

    /// Where the configuration class goes.
    pub fn get_config_file_path(&self) -> (r: String)
        ensures
            r@ == source_path(
                self.config().target_language,
                optional_view(self.config().output_config.package_name),
                config_stem(self.config().target_language),
            ),
    {
        match self.config.target_language {
            TargetLanguage::Java => self.source_path_text("ClientConfig"),
            _ => self.source_path_text("config"),
        }
    }

    /// Where the model files go.
    pub fn get_models_directory(&self) -> (r: String)
        ensures
            r@ == models_directory(
                self.config().target_language,
                optional_view(self.config().output_config.package_name),
            ),
    {
        let mut r = self.source_directory_text();
        r.append("/models");
        r
    }

    /// Where the file of the model called `model_name` goes.
    pub fn get_model_file_path(&self, model_name: &str) -> (r: String)
        ensures
            r@ == model_path(
                self.config().target_language,
                optional_view(self.config().output_config.package_name),
                model_name@,
            ),
    {
        let mut r = self.get_models_directory();
        r.append("/");
        match self.config.target_language {
            TargetLanguage::Java => r.append(model_name),
            _ => r.append(to_snake_case(model_name).as_str()),
        }
        r.append(".");
        r.append(self.extension_text());
        r
    }

    /// Where the tests go.
    pub fn get_tests_directory(&self) -> (r: String)
        ensures
            r@ == tests_directory(self.config().target_language),
    {
        match self.config.target_language {
            TargetLanguage::Java => String::from_str("src/test/java"),
            _ => String::from_str("tests"),
        }
    }

    /// Where the file of the client's tests goes.
    pub fn get_test_file_path(&self) -> (r: String)
        ensures
            r@ == test_file_path(self.config().target_language),
    {
        let mut r = self.get_tests_directory();
        r.append("/");
        match self.config.target_language {
            TargetLanguage::Java => r.append("ClientTest.java"),
            TargetLanguage::Python => r.append("test_client.py"),
            TargetLanguage::Rust => r.append("integration_tests.rs"),
            TargetLanguage::Go => r.append("client_test.go"),
            TargetLanguage::TypeScript => r.append("client_test.ts"),
        }
        r
    }

    /// The client files: the client, the asynchronous client where the
    /// language gets one, and the configuration class, each rendered from
    /// its template with the context of the client templates.
    pub fn generate_client_files(&self, api_spec: &ApiSpec, feature_codes: &Vec<FeatureCode>) -> (r:
        Result<Vec<GeneratedFile>, GeneratorError>)
        requires
            self.well_formed(),
        ensures
            is_plan_outcome(
                r,
                self.templates(),
                standard_helpers(),
                client_plan(self.config(), *api_spec, feature_views(feature_codes@)),
            ),
    {
        let context = match self.create_template_context(api_spec, feature_codes) {
            Ok(context) => context,
            Err(e) => {
                return Err(e);
            },
        };
        let mut plan: Vec<Artifact> = Vec::new();
        plan.push(artifact("client", self.get_client_file_path().as_str()));
        if self.config.features.async_support && self.config.target_language
            != TargetLanguage::Python {
            plan.push(artifact("async_client", self.get_async_client_file_path().as_str()));
        }
        plan.push(artifact("config", self.get_config_file_path().as_str()));
        assert(plan_items(plan@, json_model(context)) =~= client_plan(
            self.config(),
            *api_spec,
            feature_views(feature_codes@),
        ));
        render_all(&self.template_engine, &context, &plan)
    }

    /// The model files: one for each type definition, rendered from the
    /// model template with the context of that type.
    pub fn generate_model_files(&self, api_spec: &ApiSpec) -> (r: Result<
        Vec<GeneratedFile>,
        GeneratorError,
    >)
        requires
            self.well_formed(),
        ensures
            is_plan_outcome(
                r,
                self.templates(),
                standard_helpers(),
                model_plan(self.config(), api_spec.types@),
            ),
    {
        let ghost items = model_plan(self.config(), api_spec.types@);
        let mut files: Vec<GeneratedFile> = Vec::new();
        let mut i: usize = 0;
        while i < api_spec.types.len()
            invariant
                i <= api_spec.types@.len(),
                self.well_formed(),
                items == model_plan(self.config(), api_spec.types@),
                files@.len() == i,
                forall|k: int|
                    0 <= k < i ==> crate::artifacts::item_renders(
                        self.templates(),
                        standard_helpers(),
                        #[trigger] items[k],
                    ),
                forall|k: int|
                    0 <= k < i ==> is_file_of(
                        #[trigger] files@[k],
                        self.templates(),
                        standard_helpers(),
                        items[k],
                    ),
            decreases api_spec.types@.len() - i,
        {
            let type_def = &api_spec.types[i];
            let path = self.get_model_file_path(type_def.name.as_str());
            let context = match self.create_model_context(type_def) {
                Ok(context) => context,
                Err(e) => {
                    return Err(e);
                },
            };
            assert(items[i as int] == (PlanItem {
                template: "model"@,
                path: path@,
                data: json_model(context),
            }));
            match render_artifact(&self.template_engine, &context, "model", path.as_str()) {
                Ok(file) => {
                    files.push(file);
                },
                Err(e) => {
                    proof {
                        assert forall|k: int|
                            0 <= k < items.take(i as int).len() implies crate::artifacts::item_renders(
                            self.templates(),
                            standard_helpers(),
                            #[trigger] items.take(i as int)[k],
                        ) by {
                            assert(items.take(i as int)[k] == items[k]);
                        }
                        assert(all_render(self.templates(), standard_helpers(), items.take(i as int)));
                        assert(is_plan_failure(e, self.templates(), standard_helpers(), items));
                    }
                    return Err(e);
                },
            }
            i += 1;
        }
        Ok(files)
    }

    /// The build files: the manifest of the language, rendered with the
    /// merged feature code; for TypeScript the compiler settings as well;
    /// for Python the list of requirements, one dependency to a line.
    pub fn generate_build_files(&self, feature_codes: &Vec<FeatureCode>) -> (r: Result<
        Vec<GeneratedFile>,
        GeneratorError,
    >)
        requires
            self.well_formed(),
        ensures
            is_build_outcome(
                r,
                self.templates(),
                self.config(),
                feature_views(feature_codes@),
            ),
    {
        let merged = FeatureCode::merge_all(feature_codes);
        let context = match self.create_build_context(&merged) {
            Ok(context) => context,
            Err(e) => {
                return Err(e);
            },
        };
        let mut plan: Vec<Artifact> = Vec::new();
        match self.config.target_language {
            TargetLanguage::Java => plan.push(artifact("pom.xml", "pom.xml")),
            TargetLanguage::Python => plan.push(artifact("setup.py", "setup.py")),
            TargetLanguage::Rust => plan.push(artifact("Cargo.toml", "Cargo.toml")),
            TargetLanguage::Go => plan.push(artifact("go.mod", "go.mod")),
            TargetLanguage::TypeScript => {
                plan.push(artifact("package.json", "package.json"));
                plan.push(artifact("tsconfig.json", "tsconfig.json"));
            },
        }
        assert(plan_items(plan@, json_model(context)) =~= build_plan(
            self.config(),
            feature_views(feature_codes@),
        ));
        let mut files = match render_all(&self.template_engine, &context, &plan) {
            Ok(files) => files,
            Err(e) => {
                return Err(e);
            },
        };
        if self.config.target_language == TargetLanguage::Python {
            let content = join(&merged.dependencies, "\n");
            files.push(GeneratedFile { path: String::from_str("requirements.txt"), content });
        }
        Ok(files)
    }

    /// The files of a test suite, in the order of the suite: the tests,
    /// the mock data, the configuration.
    pub fn suite_files(suite: &TestSuite) -> (r: Vec<GeneratedFile>)
        ensures
            r@.len() == suite.files@.len() + suite.mock_data_files@.len()
                + suite.config_files@.len(),
            forall|k: int|
                0 <= k < suite.files@.len() ==> (#[trigger] r@[k]).path@ == suite.files@[k].path@
                    && r@[k].content@ == suite.files@[k].content@,
            forall|k: int|
                0 <= k < suite.mock_data_files@.len() ==> (#[trigger] r@[suite.files@.len()
                    + k]).path@ == suite.mock_data_files@[k].path@ && r@[suite.files@.len()
                    + k].content@ == suite.mock_data_files@[k].content@,
            forall|k: int|
                0 <= k < suite.config_files@.len() ==> (#[trigger] r@[suite.files@.len()
                    + suite.mock_data_files@.len() + k]).path@ == suite.config_files@[k].path@
                    && r@[suite.files@.len() + suite.mock_data_files@.len() + k].content@
                    == suite.config_files@[k].content@,
    {
        let mut r: Vec<GeneratedFile> = Vec::new();
        let mut i: usize = 0;
        while i < suite.files.len()
            invariant
                i <= suite.files@.len(),
                r@.len() == i,
                forall|k: int|
                    0 <= k < i ==> (#[trigger] r@[k]).path@ == suite.files@[k].path@
                        && r@[k].content@ == suite.files@[k].content@,
            decreases suite.files@.len() - i,
        {
            r.push(
                GeneratedFile {
                    path: suite.files[i].path.clone(),
                    content: suite.files[i].content.clone(),
                },
            );
            i += 1;
        }
        let mut j: usize = 0;
        while j < suite.mock_data_files.len()
            invariant
                j <= suite.mock_data_files@.len(),
                r@.len() == suite.files@.len() + j,
                forall|k: int|
                    0 <= k < suite.files@.len() ==> (#[trigger] r@[k]).path@
                        == suite.files@[k].path@ && r@[k].content@ == suite.files@[k].content@,
                forall|k: int|
                    0 <= k < j ==> (#[trigger] r@[suite.files@.len() + k]).path@
                        == suite.mock_data_files@[k].path@ && r@[suite.files@.len() + k].content@
                        == suite.mock_data_files@[k].content@,
            decreases suite.mock_data_files@.len() - j,
        {
            r.push(
                GeneratedFile {
                    path: suite.mock_data_files[j].path.clone(),
                    content: suite.mock_data_files[j].content.clone(),
                },
            );
            j += 1;
        }
        let mut m: usize = 0;
        while m < suite.config_files.len()
            invariant
                m <= suite.config_files@.len(),
                r@.len() == suite.files@.len() + suite.mock_data_files@.len() + m,
                forall|k: int|
                    0 <= k < suite.files@.len() ==> (#[trigger] r@[k]).path@
                        == suite.files@[k].path@ && r@[k].content@ == suite.files@[k].content@,
                forall|k: int|
                    0 <= k < suite.mock_data_files@.len() ==> (#[trigger] r@[suite.files@.len()
                        + k]).path@ == suite.mock_data_files@[k].path@ && r@[suite.files@.len()
                        + k].content@ == suite.mock_data_files@[k].content@,
                forall|k: int|
                    0 <= k < m ==> (#[trigger] r@[suite.files@.len()
                        + suite.mock_data_files@.len() + k]).path@
                        == suite.config_files@[k].path@ && r@[suite.files@.len()
                        + suite.mock_data_files@.len() + k].content@
                        == suite.config_files@[k].content@,
            decreases suite.config_files@.len() - m,
        {
            r.push(
                GeneratedFile {
                    path: suite.config_files[m].path.clone(),
                    content: suite.config_files[m].content.clone(),
                },
            );
            m += 1;
        }
        r
    }

    /// What the test files are, given what the test generator answered: the
    /// files of its suite, or its failure.
    pub fn test_files_from(outcome: Result<TestSuite, GeneratorError>) -> (r: Result<
        Vec<GeneratedFile>,
        GeneratorError,
    >)
        ensures
            match outcome {
                Ok(suite) => r matches Ok(files) && files@.len() == suite.files@.len()
                    + suite.mock_data_files@.len() + suite.config_files@.len() && (forall|k: int|
                    0 <= k < suite.files@.len() ==> (#[trigger] files@[k]).path@
                        == suite.files@[k].path@ && files@[k].content@
                        == suite.files@[k].content@) && (forall|k: int|
                    0 <= k < suite.mock_data_files@.len() ==> (#[trigger] files@[suite.files@.len()
                        + k]).path@ == suite.mock_data_files@[k].path@
                        && files@[suite.files@.len() + k].content@
                        == suite.mock_data_files@[k].content@) && (forall|k: int|
                    0 <= k < suite.config_files@.len() ==> (#[trigger] files@[suite.files@.len()
                        + suite.mock_data_files@.len() + k]).path@
                        == suite.config_files@[k].path@ && files@[suite.files@.len()
                        + suite.mock_data_files@.len() + k].content@
                        == suite.config_files@[k].content@),
                Err(e) => r == Err::<Vec<GeneratedFile>, GeneratorError>(e),
            },
    {
        match outcome {
            Ok(suite) => Ok(SdkGenerator::suite_files(&suite)),
            Err(e) => Err(e),
        }
    }

    /// The test files: what the test generator produces for the API with
    /// the default test settings, as `test_files_from` lays it out. Without
    /// a test generator there are none.
    pub fn generate_test_files(&self, api_spec: &ApiSpec, output_path: &str) -> (r: Result<
        Vec<GeneratedFile>,
        GeneratorError,
    >)
        ensures
            !self.generates_tests() ==> (r matches Ok(files) && files@.len() == 0),
    {
        match &self.test_generator {
            Some(generator) => {
                let test_config = TestGenerationConfig::default();
                SdkGenerator::test_files_from(
                    generator.generate_test_suite(api_spec, &test_config, output_path),
                )
            },
            None => Ok(Vec::new()),
        }
    }

    /// The documentation: the readme and the API reference, below `docs`.
    /// Their context holds no feature code.
    pub fn generate_documentation(&self, api_spec: &ApiSpec) -> (r: Result<
        Vec<GeneratedFile>,
        GeneratorError,
    >)
        requires
            self.well_formed(),
        ensures
            is_plan_outcome(
                r,
                self.templates(),
                standard_helpers(),
                documentation_plan(self.config(), *api_spec),
            ),
    {
        let no_features: Vec<FeatureCode> = Vec::new();
        assert(feature_views(no_features@) =~= Seq::empty());
        let context = match self.create_template_context(api_spec, &no_features) {
            Ok(context) => context,
            Err(e) => {
                return Err(e);
            },
        };
        let mut plan: Vec<Artifact> = Vec::new();
        plan.push(artifact("README.md", "docs/README.md"));
        plan.push(artifact("api_docs.md", "docs/api.md"));
        assert(plan_items(plan@, json_model(context)) =~= documentation_plan(
            self.config(),
            *api_spec,
        ));
        render_all(&self.template_engine, &context, &plan)
    }

    /// Generates the client of `api_spec`.
    ///
    /// The templates are loaded from the files found in
    /// `template_directory`; `template_files` is none where that directory
    /// does not exist, and the run fails. Loading stops at the first
    /// template that is not accepted, and the run fails. Then the client
    /// files, the model files and the build files are rendered, the tests
    /// and the documentation where the configuration asks for them. The
    /// first failure ends the run, and nothing is produced.
    pub fn generate_sdk(
        &mut self,
        api_spec: &ApiSpec,
        template_directory: &str,
        template_files: Option<Vec<TemplateFile>>,
        output_path: &str,
    ) -> (r: Result<GenerationPlan, GeneratorError>)
        requires
            old(self).well_formed(),
        ensures
            final(self).config() == old(self).config(),
            final(self).well_formed(),
            final(self).generates_tests() == old(self).generates_tests(),
            template_files is None ==> final(self).templates() == old(self).templates(),
            template_files is None ==> (r matches Err(GeneratorError::Io { message }) && message@
                == "Template directory not found: "@ + template_directory@),
            template_files is Some ==> final(self).templates() == loaded_until_rejected(
                old(self).templates(),
                listing(template_files),
            ),
            template_files is Some && first_rejected(listing(template_files)) is Some ==> (
            r matches Err(e) && is_rejection_of(
                e,
                listing(template_files)[first_rejected(listing(template_files))->0],
            )),
            template_files is Some && first_rejected(listing(template_files)) is None
                ==> is_run_outcome(
                r,
                final(self).templates(),
                old(self).config(),
                *api_spec,
                old(self).config().output_config.include_tests && old(self).generates_tests(),
            ),
    {
        match self.template_engine.load_templates(template_directory, template_files) {
            Ok(_) => {},
            Err(e) => {
                return Err(e);
            },
        }
        let ghost templates = self.templates();
        let ghost helpers = standard_helpers();
        let ghost config = self.config();
        let ghost features = enabled_features(config);
        let ghost client = client_plan(config, *api_spec, features);
        let ghost models = model_plan(config, api_spec.types@);
        let ghost build = build_plan(config, features);
        let feature_codes = self.generate_features();
        let client_files = match self.generate_client_files(api_spec, &feature_codes) {
            Ok(files) => files,
            Err(e) => {
                proof {
                    lemma_failure_in_first(e, templates, helpers, client, models);
                    lemma_failure_in_first(e, templates, helpers, client + models, build);
                }
                return Err(e);
            },
        };
        let model_files = match self.generate_model_files(api_spec) {
            Ok(files) => files,
            Err(e) => {
                proof {
                    lemma_failure_in_second(e, templates, helpers, client, models);
                    lemma_failure_in_first(e, templates, helpers, client + models, build);
                }
                return Err(e);
            },
        };
        proof {
            lemma_all_render_add(templates, helpers, client, models);
        }
        let build_files = match self.generate_build_files(&feature_codes) {
            Ok(files) => files,
            Err(e) => {
                proof {
                    lemma_failure_in_second(e, templates, helpers, client + models, build);
                }
                return Err(e);
            },
        };
        proof {
            lemma_all_render_add(templates, helpers, client + models, build);
        }
        let test_files = if self.config.output_config.include_tests {
            match self.generate_test_files(api_spec, output_path) {
                Ok(files) => files,
                Err(e) => {
                    return Err(e);
                },
            }
        } else {
            Vec::new()
        };
        let documentation_files = if self.config.output_config.include_docs {
            match self.generate_documentation(api_spec) {
                Ok(files) => files,
                Err(e) => {
                    return Err(e);
                },
            }
        } else {
            Vec::new()
        };
        let formatter = if self.config.output_config.format_code {
            Some(formatter_command(self.config.target_language))
        } else {
            None
        };
        Ok(
            GenerationPlan {
                client_files,
                model_files,
                build_files,
                test_files,
                documentation_files,
                formatter,
            },
        )
    }
}

} // verus!
