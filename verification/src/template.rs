//! Template rendering: the case conversion helpers that templates call,
//! the logic of every registered helper, and the engine that renders
//! registered templates.

use vstd::prelude::*;
use crate::config::{InputType, TargetLanguage};
use crate::error::GeneratorError;
use crate::helpers::{run_helper, HelperKind};
use crate::json::{json_model, JsonModel};
use crate::casing::{
    camel_case_of, capitalize_all, kebab_case_of, parts, pascal_case_of, small_letters,
    snake_case_from, snake_case_of, uppercase_marks,
};
use crate::text::{chars_of, replace_char};
use crate::unicode::lowercase;

verus! {

/// Camel case: `hello world`, `api_key` and `user-profile` give
/// `helloWorld`, `apiKey` and `userProfile`.
pub fn to_camel_case(s: &str) -> (r: String)
    ensures
        r@ == camel_case_of(s@),
{
    let all = parts(s);
    if all.len() == 0 {
        return String::new();
    }
    let mut r = lowercase(all[0].as_str());
    let rest = capitalize_all(&all, 1);
    r.append(rest.as_str());
    r
}

/// Snake case: `HelloWorld`, `apiKey` and `user-profile` give
/// `hello_world`, `api_key` and `user_profile`.
pub fn to_snake_case(s: &str) -> (r: String)
    ensures
        r@ == snake_case_of(s@),
{
    let chars = chars_of(s);
    let capitals = uppercase_marks(&chars);
    let small = small_letters(&chars);
    snake_case_from(&chars, &capitals, &small)
}

/// Pascal case: `hello world`, `api_key` and `user-profile` give
/// `HelloWorld`, `ApiKey` and `UserProfile`.
pub fn to_pascal_case(s: &str) -> (r: String)
    ensures
        r@ == pascal_case_of(s@),
{
    let all = parts(s);
    let r = capitalize_all(&all, 0);
    assert(crate::text::texts(all@).skip(0) =~= crate::text::texts(all@));
    r
}

/// Kebab case: `HelloWorld`, `apiKey` and `user_profile` give
/// `hello-world`, `api-key` and `user-profile`.
pub fn to_kebab_case(s: &str) -> (r: String)
    ensures
        r@ == kebab_case_of(s@),
{
    let snake = to_snake_case(s);
    replace_char(snake.as_str(), '_', "-")
}

/// The template registry of `handlebars`.
#[verifier::external_type_specification]
#[verifier::external_body]
pub struct ExHandlebars<'reg>(handlebars::Handlebars<'reg>);

/// The failure that `handlebars` reports for a template it cannot parse.
#[verifier::external_type_specification]
#[verifier::external_body]
pub struct ExTemplateError(handlebars::TemplateError);

/// The failure that `handlebars` reports for a rendering.
#[verifier::external_type_specification]
#[verifier::external_body]
pub struct ExRenderError(handlebars::RenderError);

/// The templates that a registry holds: the source text under each name.
pub uninterp spec fn template_sources(registry: handlebars::Handlebars<'static>) -> Map<
    Seq<char>,
    Seq<char>,
>;

/// The helpers of this library that a registry holds, under the names that
/// templates call them by.
pub uninterp spec fn installed_helpers(registry: handlebars::Handlebars<'static>) -> Map<
    Seq<char>,
    HelperKind,
>;

/// Whether a registry is in strict mode, where a value that a template
/// names and the context lacks is a failure.
pub uninterp spec fn is_strict(registry: handlebars::Handlebars<'static>) -> bool;

/// Whether `handlebars` takes the text as a template.
pub uninterp spec fn template_parses(source: Seq<char>) -> bool;

/// What `handlebars` renders the template `name` to: the text, or the
/// message of the failure. It is a function of the templates, the helpers,
/// the name and the context, for a registry that is not strict and whose
/// templates include no other.
pub uninterp spec fn rendering(
    sources: Map<Seq<char>, Seq<char>>,
    helpers: Map<Seq<char>, HelperKind>,
    name: Seq<char>,
    data: JsonModel,
) -> Result<Seq<char>, Seq<char>>;

/// The message of a rendering failure.
pub uninterp spec fn render_error_text(error: handlebars::RenderError) -> Seq<char>;

/// The message of a template failure.
pub uninterp spec fn template_error_text(error: handlebars::TemplateError) -> Seq<char>;

/// The message that `handlebars` turns a text down with, offered as the
/// template `name`.
pub uninterp spec fn parse_failure(name: Seq<char>, source: Seq<char>) -> Seq<char>;

/// No template.
pub open spec fn no_templates() -> Map<Seq<char>, Seq<char>> {
    Map::empty()
}

/// No helper.
pub open spec fn no_helpers() -> Map<Seq<char>, HelperKind> {
    Map::empty()
}

/// A character that may stand between the braces that open a tag and the
/// sign that tells what kind of tag it is.
pub open spec fn is_tag_filler(c: char) -> bool {
    c == ' ' || c == '\t' || c == '\n' || c == '\r' || c == '~' || c == '#'
}

/// Whether a tag that includes another template opens at `i` and shows its
/// sign at `j`: two opening braces, nothing but filler, and `>`.
pub open spec fn partial_tag_at(source: Seq<char>, i: int, j: int) -> bool {
    &&& 0 <= i
    &&& i + 2 <= j < source.len()
    &&& source[i] == '{'
    &&& source[i + 1] == '{'
    &&& source[j] == '>'
    &&& forall|k: int| i + 2 <= k < j ==> is_tag_filler(#[trigger] source[k])
}

/// Whether the text holds a tag that includes another template.
pub open spec fn has_partial_tag(source: Seq<char>) -> bool {
    exists|i: int, j: int| partial_tag_at(source, i, j)
}

/// Whether no template includes another. Such templates always render to
/// an end: inclusion is the only way for a rendering to go on without one.
pub open spec fn partial_free(sources: Map<Seq<char>, Seq<char>>) -> bool {
    forall|name: Seq<char>| sources.contains_key(name) ==> !has_partial_tag(#[trigger] sources[name])
}

/// Whether a text is taken as a template: it includes no other template
/// and it parses.
pub open spec fn accepted(source: Seq<char>) -> bool {
    !has_partial_tag(source) && template_parses(source)
}

/// The text or the message of an outcome.
pub open spec fn outcome_text(outcome: Result<Seq<char>, Seq<char>>) -> Seq<char> {
    match outcome {
        Ok(text) => text,
        Err(message) => message,
    }
}

/// `Handlebars::new`: a registry without templates and without helpers of
/// this library, not in strict mode.
#[verifier::external_body]
fn new_registry() -> (registry: handlebars::Handlebars<'static>)
    ensures
        template_sources(registry) == no_templates(),
        installed_helpers(registry) == no_helpers(),
        !is_strict(registry),
{
    handlebars::Handlebars::new()
}

/// `Handlebars::set_strict_mode` with `false`: leaves strict mode.
/// Templates and helpers stay as they are.
#[verifier::external_body]
fn set_lenient(registry: &mut handlebars::Handlebars<'static>)
    ensures
        template_sources(*final(registry)) == template_sources(*old(registry)),
        installed_helpers(*final(registry)) == installed_helpers(*old(registry)),
        !is_strict(*final(registry)),
{
    registry.set_strict_mode(false);
}

/// `Handlebars::register_helper`: puts the helper `kind` under `name`,
/// in place of any helper of that name. The registered function hands the
/// first two parameters and the context data to `run_helper`, writes the
/// text it gives and fails with the message it gives.
#[verifier::external_body]
fn install_helper(registry: &mut handlebars::Handlebars<'static>, name: &str, kind: HelperKind)
    ensures
        template_sources(*final(registry)) == template_sources(*old(registry)),
        installed_helpers(*final(registry)) == installed_helpers(*old(registry)).insert(
            name@,
            kind,
        ),
        is_strict(*final(registry)) == is_strict(*old(registry)),
{
    registry.register_helper(
        name,
        Box::new(
            move |h: &handlebars::Helper, _: &handlebars::Handlebars, c: &handlebars::Context, _: &mut handlebars::RenderContext, out: &mut dyn handlebars::Output| -> handlebars::HelperResult {
                let first = h.param(0).map(|p| p.value());
                let second = h.param(1).map(|p| p.value());
                match run_helper(kind, first, second, c.data()) {
                    Ok(text) => out.write(&text).map_err(handlebars::RenderError::from),
                    Err(message) => Err(handlebars::RenderError::new(message)),
                }
            },
        ),
    );
}

/// `Handlebars::register_template_string`: parses `source` and, where it
/// parses, puts it under `name` in place of any template of that name.
/// Where it does not parse the registry stays as it is.
#[verifier::external_body]
fn register_source(registry: &mut handlebars::Handlebars<'static>, name: &str, source: &str) -> (r:
    Result<(), handlebars::TemplateError>)
    ensures
        r is Ok <==> template_parses(source@),
        r is Ok ==> template_sources(*final(registry)) == template_sources(*old(registry)).insert(
            name@,
            source@,
        ),
        r is Err ==> template_sources(*final(registry)) == template_sources(*old(registry)),
        r matches Err(e) ==> template_error_text(e) == parse_failure(name@, source@),
        installed_helpers(*final(registry)) == installed_helpers(*old(registry)),
        is_strict(*final(registry)) == is_strict(*old(registry)),
{
    registry.register_template_string(name, source)
}

/// `Handlebars::has_template`: whether a template stands under `name`.
#[verifier::external_body]
fn has_source(registry: &handlebars::Handlebars<'static>, name: &str) -> (r: bool)
    ensures
        r == template_sources(*registry).contains_key(name@),
{
    registry.has_template(name)
}

/// `Handlebars::render`: renders the template under `name` with `data` as
/// its context. Without a template of that name it fails. The registry is
/// not strict and none of its templates includes another: where two
/// templates include each other the call would not return.
#[verifier::external_body]
fn render_registered(
    registry: &handlebars::Handlebars<'static>,
    name: &str,
    data: &serde_json::Value,
) -> (r: Result<String, handlebars::RenderError>)
    requires
        !is_strict(*registry),
        partial_free(template_sources(*registry)),
    ensures
        !template_sources(*registry).contains_key(name@) ==> r is Err,
        (r is Ok) == (rendering(
            template_sources(*registry),
            installed_helpers(*registry),
            name@,
            json_model(*data),
        ) is Ok),
        r matches Ok(text) ==> text@ == outcome_text(
            rendering(
                template_sources(*registry),
                installed_helpers(*registry),
                name@,
                json_model(*data),
            ),
        ),
        r matches Err(e) ==> render_error_text(e) == outcome_text(
            rendering(
                template_sources(*registry),
                installed_helpers(*registry),
                name@,
                json_model(*data),
            ),
        ),
{
    registry.render(name, data)
}

/// `Handlebars::get_templates`: the names of the templates, each once, in
/// no particular order.
#[verifier::external_body]
fn source_names(registry: &handlebars::Handlebars<'static>) -> (names: Vec<String>)
    ensures
        crate::text::texts(names@).to_set() == template_sources(*registry).dom(),
        crate::text::texts(names@).no_duplicates(),
{
    registry.get_templates().keys().cloned().collect()
}

/// The message of a template failure, `TemplateError` as `Display` shows
/// it.
#[verifier::external_body]
fn template_error_message(e: &handlebars::TemplateError) -> (message: String)
    ensures
        message@ == template_error_text(*e),
{
    e.to_string()
}

/// The message of a rendering failure, `RenderError` as `Display` shows
/// it.
#[verifier::external_body]
fn render_error_message(e: &handlebars::RenderError) -> (message: String)
    ensures
        message@ == render_error_text(*e),
{
    e.to_string()
}

/// What a template that includes another is turned away with.
pub const INCLUSION_MESSAGE: &'static str =
    "Templates that include other templates are not supported";

/// A template file as found under the template directory.
#[derive(Debug, Clone)]
pub struct TemplateFile {
    /// The file's path below the directory of its language and protocol,
    /// with `/` between its segments.
    pub relative_path: String,
    pub content: String,
}

/// The name that the template file at `path` is registered under: the path
/// without its extension, for a file whose extension is `hbs`. Other files
/// are no templates. A file called just `.hbs` has no extension.
pub open spec fn template_name(path: Seq<char>) -> Option<Seq<char>> {
    let n = path.len() as int;
    if n > 4 && path[n - 4] == '.' && path[n - 3] == 'h' && path[n - 2] == 'b' && path[n - 1]
        == 's' && path[n - 5] != '/' {
        Some(path.take(n - 4))
    } else {
        None
    }
}

/// What a text that is not accepted as the template `name` is turned away
/// with.
pub open spec fn rejection_message(name: Seq<char>, source: Seq<char>) -> Seq<char> {
    if has_partial_tag(source) {
        INCLUSION_MESSAGE@
    } else {
        parse_failure(name, source)
    }
}

/// Whether `e` is the failure that turns the template file away.
pub open spec fn is_rejection_of(e: GeneratorError, file: TemplateFile) -> bool {
    e matches GeneratorError::TemplateSyntax { name, message } && template_name(
        file.relative_path@,
    ) == Some(name@) && message@ == rejection_message(name@, file.content@)
}

/// Whether `r` is what loading the files ends in: success where every
/// template file is accepted, and otherwise the failure that turns the
/// first one away that is not.
pub open spec fn is_loading_outcome(r: Result<(), GeneratorError>, files: Seq<TemplateFile>) -> bool {
    match first_rejected(files) {
        None => r is Ok,
        Some(k) => r matches Err(e) && is_rejection_of(e, files[k]),
    }
}

/// Whether a file is a template that is not taken: a template by its
/// name, with a content that is not accepted.
pub open spec fn is_rejected(file: TemplateFile) -> bool {
    template_name(file.relative_path@) is Some && !accepted(file.content@)
}

/// The first file that is a template and is not taken.
pub open spec fn first_rejected(files: Seq<TemplateFile>) -> Option<int>
    decreases files.len(),
{
    if files.len() == 0 {
        None
    } else {
        match first_rejected(files.drop_last()) {
            Some(k) => Some(k),
            None => if is_rejected(files.last()) {
                Some(files.len() - 1)
            } else {
                None
            },
        }
    }
}

/// The first rejected file is one of the files, it is rejected, and no
/// file before it is.
pub proof fn lemma_first_rejected(files: Seq<TemplateFile>)
    ensures
        match first_rejected(files) {
            Some(k) => 0 <= k < files.len() && is_rejected(files[k]) && first_rejected(
                files.take(k),
            ) is None,
            None => forall|i: int| 0 <= i < files.len() ==> !is_rejected(#[trigger] files[i]),
        },
    decreases files.len(),
{
    if files.len() > 0 {
        let front = files.drop_last();
        lemma_first_rejected(front);
        match first_rejected(front) {
            Some(k) => {
                assert(front[k] == files[k]);
                assert(front.take(k) =~= files.take(k));
            },
            None => {
                if is_rejected(files.last()) {
                    assert(files.take(files.len() - 1) =~= front);
                } else {
                    assert forall|i: int| 0 <= i < files.len() implies !is_rejected(
                        #[trigger] files[i],
                    ) by {
                        if i < front.len() {
                            assert(front[i] == files[i]);
                        }
                    }
                }
            },
        }
    }
}

/// A file that is rejected among the first `n` files is the first rejected
/// file of all.
pub proof fn lemma_first_rejected_stays(files: Seq<TemplateFile>, n: int)
    requires
        0 <= n <= files.len(),
        first_rejected(files.take(n)) is Some,
    ensures
        first_rejected(files) == first_rejected(files.take(n)),
    decreases files.len() - n,
{
    if n == files.len() {
        assert(files.take(n) =~= files);
    } else {
        let front = files.drop_last();
        assert(front.take(n) =~= files.take(n));
        lemma_first_rejected_stays(front, n);
    }
}

/// The templates held after the files were loaded in order: each template
/// file goes under its name and replaces what stood there.
pub open spec fn loaded(before: Map<Seq<char>, Seq<char>>, files: Seq<TemplateFile>) -> Map<
    Seq<char>,
    Seq<char>,
>
    decreases files.len(),
{
    if files.len() == 0 {
        before
    } else {
        let earlier = loaded(before, files.drop_last());
        match template_name(files.last().relative_path@) {
            Some(name) => earlier.insert(name, files.last().content@),
            None => earlier,
        }
    }
}

/// The templates held after loading was tried: all the files, or the files
/// before the first that is rejected.
pub open spec fn loaded_until_rejected(
    before: Map<Seq<char>, Seq<char>>,
    files: Seq<TemplateFile>,
) -> Map<Seq<char>, Seq<char>> {
    match first_rejected(files) {
        Some(k) => loaded(before, files.take(k)),
        None => loaded(before, files),
    }
}

/// The files of a directory listing; none for a directory that does not
/// exist.
pub open spec fn listing(files: Option<Vec<TemplateFile>>) -> Seq<TemplateFile> {
    match files {
        Some(found) => found@,
        None => Seq::empty(),
    }
}

/// The directory of a language's templates for a protocol, below `base`.
pub open spec fn template_directory(
    base: Seq<char>,
    language: TargetLanguage,
    protocol: InputType,
) -> Seq<char> {
    base + "/"@ + language.key() + "/"@ + protocol.directory()
}

/// The helper behind each name that templates can call. Several names
/// share a helper.
pub open spec fn standard_helpers() -> Map<Seq<char>, HelperKind> {
    Map::<Seq<char>, HelperKind>::empty().insert("camel_case"@, HelperKind::CamelCase).insert(
        "camelCase"@,
        HelperKind::CamelCase,
    ).insert("snake_case"@, HelperKind::SnakeCase).insert(
        "pascal_case"@,
        HelperKind::PascalCase,
    ).insert("kebab_case"@, HelperKind::KebabCase).insert(
        "upper_case"@,
        HelperKind::UpperCase,
    ).insert("lower_case"@, HelperKind::LowerCase).insert(
        "type_mapping"@,
        HelperKind::TypeMapping,
    ).insert("method_name"@, HelperKind::MethodName).insert(
        "class_name_transform"@,
        HelperKind::ClassName,
    ).insert("class_name"@, HelperKind::ClassName).insert("else"@, HelperKind::Otherwise).insert(
        "go_name"@,
        HelperKind::PascalCase,
    ).insert("package_path"@, HelperKind::PackagePath).insert(
        "import_path"@,
        HelperKind::ImportPath,
    ).insert("contains_date_type"@, HelperKind::ContainsDateType).insert(
        "contains_datetime_type"@,
        HelperKind::ContainsDatetimeType,
    ).insert("eq"@, HelperKind::Equal).insert("ne"@, HelperKind::NotEqual).insert(
        "or"@,
        HelperKind::Either,
    ).insert("PascalCase"@, HelperKind::PascalCase).insert(
        "json_schema"@,
        HelperKind::JsonSchema,
    ).insert("grpc_type_mapping"@, HelperKind::GrpcTypeMapping).insert(
        "go_type"@,
        HelperKind::GoType,
    ).insert("ts_type"@, HelperKind::TsType).insert("default_value"@, HelperKind::DefaultValue)
}

/// The name of a template file, if it is one.
pub fn template_name_of(path: &str) -> (r: Option<String>)
    ensures
        match r {
            Some(name) => template_name(path@) == Some(name@),
            None => template_name(path@) is None,
        },
{
    let chars = chars_of(path);
    let n = chars.len();
    if n > 4 && chars[n - 4] == '.' && chars[n - 3] == 'h' && chars[n - 2] == 'b' && chars[n
        - 1] == 's' && chars[n - 5] != '/' {
        let name = crate::text::string_of_range(&chars, 0, n - 4);
        assert(path@.subrange(0, n - 4) =~= path@.take(n - 4));
        Some(name)
    } else {
        None
    }
}

/// Whether the template `name` is registered and renders with `data`.
pub open spec fn renders(
    templates: Map<Seq<char>, Seq<char>>,
    helpers: Map<Seq<char>, HelperKind>,
    name: Seq<char>,
    data: JsonModel,
) -> bool {
    templates.contains_key(name) && rendering(templates, helpers, name, data) is Ok
}

/// The text that the template `name` renders to with `data`.
pub open spec fn rendered_text(
    templates: Map<Seq<char>, Seq<char>>,
    helpers: Map<Seq<char>, HelperKind>,
    name: Seq<char>,
    data: JsonModel,
) -> Seq<char> {
    outcome_text(rendering(templates, helpers, name, data))
}

/// Whether `e` is the failure of rendering the template `name` with
/// `data`: the template is not found, or it is and the rendering fails with
/// the message that `e` carries.
pub open spec fn is_render_error(
    e: GeneratorError,
    templates: Map<Seq<char>, Seq<char>>,
    helpers: Map<Seq<char>, HelperKind>,
    name: Seq<char>,
    data: JsonModel,
) -> bool {
    if !templates.contains_key(name) {
        e matches GeneratorError::TemplateNotFound { name: missing } && missing@ == name
    } else {
        &&& rendering(templates, helpers, name, data) is Err
        &&& e matches GeneratorError::TemplateRender { name: failed, message }
        &&& failed@ == name
        &&& message@ == outcome_text(rendering(templates, helpers, name, data))
    }
}

/// Whether `r` is what rendering the template `name` with `data` ends in:
/// the rendered text, where the template is registered and renders, and
/// the failure otherwise.
pub open spec fn is_rendering_of(
    r: Result<String, GeneratorError>,
    templates: Map<Seq<char>, Seq<char>>,
    helpers: Map<Seq<char>, HelperKind>,
    name: Seq<char>,
    data: JsonModel,
) -> bool {
    match r {
        Ok(text) => renders(templates, helpers, name, data) && text@ == rendered_text(
            templates,
            helpers,
            name,
            data,
        ),
        Err(e) => !renders(templates, helpers, name, data) && is_render_error(
            e,
            templates,
            helpers,
            name,
            data,
        ),
    }
}

/// Whether the text holds a tag that includes another template.
pub fn includes_template(source: &str) -> (r: bool)
    ensures
        r == has_partial_tag(source@),
{
    let chars = chars_of(source);
    let n = chars.len();
    let mut i: usize = 0;
    while i < n
        invariant
            chars@ == source@,
            n == chars@.len(),
            i <= n,
            forall|a: int, b: int| 0 <= a < i ==> !partial_tag_at(source@, a, b),
        decreases n - i,
    {
        if i + 1 < n && chars[i] == '{' && chars[i + 1] == '{' {
            let mut j: usize = i + 2;
            while j < n && (chars[j] == ' ' || chars[j] == '\t' || chars[j] == '\n' || chars[j]
                == '\r' || chars[j] == '~' || chars[j] == '#')
                invariant
                    chars@ == source@,
                    n == chars@.len(),
                    i + 2 <= j <= n,
                    forall|k: int| i + 2 <= k < j ==> is_tag_filler(#[trigger] source@[k]),
                decreases n - j,
            {
                j += 1;
            }
            if j < n && chars[j] == '>' {
                assert(partial_tag_at(source@, i as int, j as int));
                return true;
            }
            assert forall|b: int| !partial_tag_at(source@, i as int, b) by {
                if partial_tag_at(source@, i as int, b) {
                    if b < j {
                        assert(is_tag_filler(source@[b]));
                    } else if b > j {
                        assert(is_tag_filler(source@[j as int]));
                    }
                }
            }
        } else {
            assert forall|b: int| !partial_tag_at(source@, i as int, b) by {}
        }
        i += 1;
    }
    assert forall|a: int, b: int| !partial_tag_at(source@, a, b) by {
        if partial_tag_at(source@, a, b) {
            assert(a + 2 <= b < n);
            assert(a < i);
        }
    }
    false
}

/// What a rendering ends in, given what the registry reported: the text,
/// or a rendering failure that names the template and carries the
/// registry's message.
pub fn render_outcome(template_name: &str, outcome: Result<String, String>) -> (r: Result<
    String,
    GeneratorError,
>)
    ensures
        match outcome {
            Ok(text) => r == Ok::<String, GeneratorError>(text),
            Err(reported) => r matches Err(GeneratorError::TemplateRender { name, message })
                && name@ == template_name@ && message == reported,
        },
{
    match outcome {
        Ok(text) => Ok(text),
        Err(message) => Err(
            GeneratorError::TemplateRender { name: String::from_str(template_name), message },
        ),
    }
}

/// Renders registered templates with the library's helpers.
pub struct TemplateEngine {
    handlebars: handlebars::Handlebars<'static>,
    language: TargetLanguage,
    protocol: InputType,
}

impl TemplateEngine {
    /// The templates that the engine holds: the source text under each
    /// name.
    pub closed spec fn templates(&self) -> Map<Seq<char>, Seq<char>> {
        template_sources(self.handlebars)
    }

    /// The helpers that the engine holds.
    pub closed spec fn helpers(&self) -> Map<Seq<char>, HelperKind> {
        installed_helpers(self.handlebars)
    }

    pub closed spec fn language(&self) -> TargetLanguage {
        self.language
    }

    pub closed spec fn protocol(&self) -> InputType {
        self.protocol
    }

    /// The engine renders missing context values as empty text, and none
    /// of its templates includes another.
    pub closed spec fn well_formed(&self) -> bool {
        !is_strict(self.handlebars) && partial_free(template_sources(self.handlebars))
    }

    /// An engine for one language and one protocol, with every helper and
    /// no template. It renders missing context values as empty text.
    pub fn new(language: TargetLanguage, protocol: InputType) -> (r: Result<
        TemplateEngine,
        GeneratorError,
    >)
        ensures
            r matches Ok(engine) && engine.templates() == no_templates() && engine.helpers()
                == standard_helpers() && engine.language() == language && engine.protocol()
                == protocol && engine.well_formed(),
    {
        let mut handlebars = new_registry();
        set_lenient(&mut handlebars);
        install_helper(&mut handlebars, "camel_case", HelperKind::CamelCase);
        install_helper(&mut handlebars, "camelCase", HelperKind::CamelCase);
        install_helper(&mut handlebars, "snake_case", HelperKind::SnakeCase);
        install_helper(&mut handlebars, "pascal_case", HelperKind::PascalCase);
        install_helper(&mut handlebars, "kebab_case", HelperKind::KebabCase);
        install_helper(&mut handlebars, "upper_case", HelperKind::UpperCase);
        install_helper(&mut handlebars, "lower_case", HelperKind::LowerCase);
        install_helper(&mut handlebars, "type_mapping", HelperKind::TypeMapping);
        install_helper(&mut handlebars, "method_name", HelperKind::MethodName);
        install_helper(&mut handlebars, "class_name_transform", HelperKind::ClassName);
        install_helper(&mut handlebars, "class_name", HelperKind::ClassName);
        install_helper(&mut handlebars, "else", HelperKind::Otherwise);
        install_helper(&mut handlebars, "go_name", HelperKind::PascalCase);
        install_helper(&mut handlebars, "package_path", HelperKind::PackagePath);
        install_helper(&mut handlebars, "import_path", HelperKind::ImportPath);
        install_helper(&mut handlebars, "contains_date_type", HelperKind::ContainsDateType);
        install_helper(&mut handlebars, "contains_datetime_type", HelperKind::ContainsDatetimeType);
        install_helper(&mut handlebars, "eq", HelperKind::Equal);
        install_helper(&mut handlebars, "ne", HelperKind::NotEqual);
        install_helper(&mut handlebars, "or", HelperKind::Either);
        install_helper(&mut handlebars, "PascalCase", HelperKind::PascalCase);
        install_helper(&mut handlebars, "json_schema", HelperKind::JsonSchema);
        install_helper(&mut handlebars, "grpc_type_mapping", HelperKind::GrpcTypeMapping);
        install_helper(&mut handlebars, "go_type", HelperKind::GoType);
        install_helper(&mut handlebars, "ts_type", HelperKind::TsType);
        install_helper(&mut handlebars, "default_value", HelperKind::DefaultValue);
        Ok(TemplateEngine { handlebars, language, protocol })
    }

    /// The directory below `base` that holds the engine's templates.
    pub fn directory(&self, base: &str) -> (r: String)
        ensures
            r@ == template_directory(base@, self.language(), self.protocol()),
    {
        let mut r = String::from_str(base);
        r.append("/");
        r.append(self.language.key_name());
        r.append("/");
        r.append(self.protocol.directory_name());
        r
    }

    /// Registers `source` under `name`, in place of any template of that
    /// name. A source that includes another template, or that does not
    /// parse, is a syntax failure and leaves the engine as it is.
    pub fn register_template(&mut self, name: &str, source: &str) -> (r: Result<
        (),
        GeneratorError,
    >)
        requires
            old(self).well_formed(),
        ensures
            final(self).well_formed(),
            final(self).helpers() == old(self).helpers(),
            final(self).language() == old(self).language(),
            final(self).protocol() == old(self).protocol(),
            r is Ok <==> accepted(source@),
            r is Ok ==> final(self).templates() == old(self).templates().insert(name@, source@),
            r is Err ==> final(self).templates() == old(self).templates(),
            r matches Err(e) ==> (e matches GeneratorError::TemplateSyntax { name: failed, message }
                && failed@ == name@ && message@ == rejection_message(name@, source@)),
    {
        if includes_template(source) {
            return Err(
                GeneratorError::TemplateSyntax {
                    name: String::from_str(name),
                    message: String::from_str(INCLUSION_MESSAGE),
                },
            );
        }
        match register_source(&mut self.handlebars, name, source) {
            Ok(_) => Ok(()),
            Err(e) => Err(
                GeneratorError::TemplateSyntax {
                    name: String::from_str(name),
                    message: template_error_message(&e),
                },
            ),
        }
    }

    /// Loads the template files found in `directory`, in order. `files` is
    /// none where the directory does not exist, which is a failure: a
    /// language and protocol without templates is never passed over.
    /// Loading stops at the first template that is not accepted, with the
    /// templates before it loaded.
    pub fn load_templates(&mut self, directory: &str, files: Option<Vec<TemplateFile>>) -> (r:
        Result<(), GeneratorError>)
        requires
            old(self).well_formed(),
        ensures
            final(self).well_formed(),
            final(self).helpers() == old(self).helpers(),
            final(self).language() == old(self).language(),
            final(self).protocol() == old(self).protocol(),
            files is None ==> final(self).templates() == old(self).templates(),
            files is None ==> (r matches Err(GeneratorError::Io { message }) && message@
                == "Template directory not found: "@ + directory@),
            files is Some ==> final(self).templates() == loaded_until_rejected(
                old(self).templates(),
                listing(files),
            ),
            files is Some ==> is_loading_outcome(r, listing(files)),
    {
        match files {
            None => {
                let mut message = String::from_str("Template directory not found: ");
                message.append(directory);
                Err(GeneratorError::Io { message })
            },
            Some(found) => {
                let mut i: usize = 0;
                assert(found@.take(0) =~= Seq::empty());
                while i < found.len()
                    invariant
                        i <= found@.len(),
                        listing(files) == found@,
                        files is Some,
                        self.well_formed(),
                        self.helpers() == old(self).helpers(),
                        self.language() == old(self).language(),
                        self.protocol() == old(self).protocol(),
                        first_rejected(found@.take(i as int)) is None,
                        self.templates() == loaded(old(self).templates(), found@.take(i as int)),
                    decreases found@.len() - i,
                {
                    let file = &found[i];
                    proof {
                        assert(found@.take(i + 1).drop_last() =~= found@.take(i as int));
                        assert(found@.take(i + 1).last() == *file);
                    }
                    match template_name_of(file.relative_path.as_str()) {
                        Some(name) => {
                            match self.register_template(name.as_str(), file.content.as_str()) {
                                Ok(_) => {},
                                Err(e) => {
                                    proof {
                                        assert(first_rejected(found@.take(i + 1)) == Some(
                                            i as int,
                                        ));
                                        lemma_first_rejected_stays(found@, i + 1);
                                    }
                                    return Err(e);
                                },
                            }
                        },
                        None => {},
                    }
                    i += 1;
                }
                assert(found@.take(found@.len() as int) =~= found@);
                Ok(())
            },
        }
    }

    /// Whether a template is registered under `name`.
    pub fn has_template(&self, name: &str) -> (r: bool)
        ensures
            r == self.templates().contains_key(name@),
    {
        has_source(&self.handlebars, name)
    }

    /// Renders the template registered under `template_name` with
    /// `context`. A name that was never registered is a failure of its own
    /// kind. A registered template gives the text it renders to, or a
    /// rendering failure that names it and carries the message.
    pub fn render_template(&self, template_name: &str, context: &serde_json::Value) -> (r:
        Result<String, GeneratorError>)
        requires
            self.well_formed(),
        ensures
            is_rendering_of(
                r,
                self.templates(),
                self.helpers(),
                template_name@,
                json_model(*context),
            ),
    {
        if !has_source(&self.handlebars, template_name) {
            return Err(GeneratorError::TemplateNotFound { name: String::from_str(template_name) });
        }
        match render_registered(&self.handlebars, template_name, context) {
            Ok(text) => render_outcome(template_name, Ok(text)),
            Err(e) => render_outcome(template_name, Err(render_error_message(&e))),
        }
    }

    /// The names of the registered templates, each once, in no particular
    /// order.
    pub fn list_templates(&self) -> (names: Vec<String>)
        ensures
            crate::text::texts(names@).to_set() == self.templates().dom(),
            crate::text::texts(names@).no_duplicates(),
    {
        source_names(&self.handlebars)
    }
}

} // verus!
