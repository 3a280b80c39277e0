//! Generated files, and the rendering of templates into them.
//!
//! What a rendering gives is a function of the templates, the helpers, the
//! name of the template and the context. A plan is a list of renderings to
//! make; its outcome is the files of all of them, or the failure of the
//! first that fails.

use vstd::prelude::*;
use crate::error::GeneratorError;
use crate::helpers::HelperKind;
use crate::json::{json_model, JsonModel};
use crate::template::{is_render_error, rendered_text, renders, TemplateEngine};

verus! {

/// A file of the generated client.
#[derive(Debug, Clone)]
pub struct GeneratedFile {
    /// Where the file goes, below the output directory, with `/` between
    /// the segments.
    pub path: String,
    pub content: String,
}

/// A file to produce: the template to render and where its text goes.
#[derive(Debug, Clone)]
pub struct Artifact {
    pub template: String,
    pub path: String,
}

/// A rendering to make: the template, where its text goes, and the context
/// it is rendered with.
pub struct PlanItem {
    pub template: Seq<char>,
    pub path: Seq<char>,
    pub data: JsonModel,
}

/// The paths of a list of files.
pub open spec fn file_paths(files: Seq<GeneratedFile>) -> Seq<Seq<char>> {
    files.map_values(|f: GeneratedFile| f.path@)
}

/// The renderings that a list of artifacts asks for, all with one context.
pub open spec fn plan_items(plan: Seq<Artifact>, data: JsonModel) -> Seq<PlanItem> {
    plan.map_values(|a: Artifact| PlanItem { template: a.template@, path: a.path@, data })
}

/// The plan that renders each template to the path at the same place of
/// the list of paths, all with one context.
pub open spec fn paired_plan(
    templates: Seq<Seq<char>>,
    paths: Seq<Seq<char>>,
    data: JsonModel,
) -> Seq<PlanItem> {
    Seq::new(
        templates.len(),
        |i: int| PlanItem { template: templates[i], path: paths[i], data },
    )
}

/// Whether the template of the item is registered and renders.
pub open spec fn item_renders(
    templates: Map<Seq<char>, Seq<char>>,
    helpers: Map<Seq<char>, HelperKind>,
    item: PlanItem,
) -> bool {
    renders(templates, helpers, item.template, item.data)
}

/// Whether `file` is the file of the item: at the item's path, with the
/// text that the item's template renders to.
pub open spec fn is_file_of(
    file: GeneratedFile,
    templates: Map<Seq<char>, Seq<char>>,
    helpers: Map<Seq<char>, HelperKind>,
    item: PlanItem,
) -> bool {
    file.path@ == item.path && file.content@ == rendered_text(
        templates,
        helpers,
        item.template,
        item.data,
    )
}

/// Whether `e` is the failure of the item: the failure of its rendering,
/// with the item's path as the artifact.
pub open spec fn is_item_failure(
    e: GeneratorError,
    templates: Map<Seq<char>, Seq<char>>,
    helpers: Map<Seq<char>, HelperKind>,
    item: PlanItem,
) -> bool {
    e matches GeneratorError::Artifact { artifact, cause } && artifact@ == item.path
        && is_render_error(*cause, templates, helpers, item.template, item.data)
}

/// Whether every item of the plan renders.
pub open spec fn all_render(
    templates: Map<Seq<char>, Seq<char>>,
    helpers: Map<Seq<char>, HelperKind>,
    plan: Seq<PlanItem>,
) -> bool {
    forall|i: int| 0 <= i < plan.len() ==> item_renders(templates, helpers, #[trigger] plan[i])
}

/// Whether `files` are the files of the plan, in order.
pub open spec fn are_files_of(
    files: Seq<GeneratedFile>,
    templates: Map<Seq<char>, Seq<char>>,
    helpers: Map<Seq<char>, HelperKind>,
    plan: Seq<PlanItem>,
) -> bool {
    &&& files.len() == plan.len()
    &&& forall|i: int|
        0 <= i < plan.len() ==> is_file_of(#[trigger] files[i], templates, helpers, plan[i])
}

/// Whether `e` is the failure of the plan: the failure of the first item
/// that does not render.
pub open spec fn is_plan_failure(
    e: GeneratorError,
    templates: Map<Seq<char>, Seq<char>>,
    helpers: Map<Seq<char>, HelperKind>,
    plan: Seq<PlanItem>,
) -> bool {
    exists|i: int|
        0 <= i < plan.len() && all_render(templates, helpers, #[trigger] plan.take(i))
            && !item_renders(templates, helpers, plan[i]) && is_item_failure(
            e,
            templates,
            helpers,
            plan[i],
        )
}

/// Whether `r` is the outcome of the plan: its files where every item
/// renders, the failure of the first item that does not otherwise.
pub open spec fn is_plan_outcome(
    r: Result<Vec<GeneratedFile>, GeneratorError>,
    templates: Map<Seq<char>, Seq<char>>,
    helpers: Map<Seq<char>, HelperKind>,
    plan: Seq<PlanItem>,
) -> bool {
    match r {
        Ok(files) => all_render(templates, helpers, plan) && are_files_of(
            files@,
            templates,
            helpers,
            plan,
        ),
        Err(e) => is_plan_failure(e, templates, helpers, plan),
    }
}

/// The failure of a plan is the failure of every plan that goes on after
/// it.
pub proof fn lemma_failure_in_first(
    e: GeneratorError,
    templates: Map<Seq<char>, Seq<char>>,
    helpers: Map<Seq<char>, HelperKind>,
    first: Seq<PlanItem>,
    second: Seq<PlanItem>,
)
    requires
        is_plan_failure(e, templates, helpers, first),
    ensures
        is_plan_failure(e, templates, helpers, first + second),
{
    let i = choose|i: int|
        0 <= i < first.len() && all_render(templates, helpers, #[trigger] first.take(i))
            && !item_renders(templates, helpers, first[i]) && is_item_failure(
            e,
            templates,
            helpers,
            first[i],
        );
    let both = first + second;
    assert(both.take(i) =~= first.take(i));
    assert(both[i] == first[i]);
}

/// After a plan that renders in full, the failure of the plan that follows
/// is the failure of both together.
pub proof fn lemma_failure_in_second(
    e: GeneratorError,
    templates: Map<Seq<char>, Seq<char>>,
    helpers: Map<Seq<char>, HelperKind>,
    first: Seq<PlanItem>,
    second: Seq<PlanItem>,
)
    requires
        all_render(templates, helpers, first),
        is_plan_failure(e, templates, helpers, second),
    ensures
        is_plan_failure(e, templates, helpers, first + second),
{
    let i = choose|i: int|
        0 <= i < second.len() && all_render(templates, helpers, #[trigger] second.take(i))
            && !item_renders(templates, helpers, second[i]) && is_item_failure(
            e,
            templates,
            helpers,
            second[i],
        );
    let both = first + second;
    let k = first.len() + i;
    assert(both[k] == second[i]);
    assert(all_render(templates, helpers, both.take(k))) by {
        assert forall|j: int| 0 <= j < both.take(k).len() implies item_renders(
            templates,
            helpers,
            #[trigger] both.take(k)[j],
        ) by {
            if j < first.len() {
                assert(both.take(k)[j] == first[j]);
            } else {
                assert(both.take(k)[j] == second.take(i)[j - first.len()]);
            }
        }
    }
}

/// Two plans render in full exactly where both together do.
pub proof fn lemma_all_render_add(
    templates: Map<Seq<char>, Seq<char>>,
    helpers: Map<Seq<char>, HelperKind>,
    first: Seq<PlanItem>,
    second: Seq<PlanItem>,
)
    ensures
        all_render(templates, helpers, first + second) <==> all_render(templates, helpers, first)
            && all_render(templates, helpers, second),
{
    let both = first + second;
    if all_render(templates, helpers, both) {
        assert forall|i: int| 0 <= i < first.len() implies item_renders(
            templates,
            helpers,
            #[trigger] first[i],
        ) by {
            assert(both[i] == first[i]);
        }
        assert forall|i: int| 0 <= i < second.len() implies item_renders(
            templates,
            helpers,
            #[trigger] second[i],
        ) by {
            assert(both[first.len() + i] == second[i]);
        }
    }
    if all_render(templates, helpers, first) && all_render(templates, helpers, second) {
        assert forall|i: int| 0 <= i < both.len() implies item_renders(
            templates,
            helpers,
            #[trigger] both[i],
        ) by {
            if i < first.len() {
                assert(both[i] == first[i]);
            } else {
                assert(both[i] == second[i - first.len()]);
            }
        }
    }
}

/// An artifact with the given template and path.
pub fn artifact(template: &str, path: &str) -> (r: Artifact)
    ensures
        r.template@ == template@,
        r.path@ == path@,
{
    Artifact { template: String::from_str(template), path: String::from_str(path) }
}

/// Renders one artifact: the file at `path` with the text of the template,
/// or the failure of the rendering with `path` as its artifact.
pub fn render_artifact(
    engine: &TemplateEngine,
    context: &serde_json::Value,
    template: &str,
    path: &str,
) -> (r: Result<GeneratedFile, GeneratorError>)
    requires
        engine.well_formed(),
    ensures
        match r {
            Ok(file) => item_renders(
                engine.templates(),
                engine.helpers(),
                PlanItem { template: template@, path: path@, data: json_model(*context) },
            ) && is_file_of(
                file,
                engine.templates(),
                engine.helpers(),
                PlanItem { template: template@, path: path@, data: json_model(*context) },
            ),
            Err(e) => !item_renders(
                engine.templates(),
                engine.helpers(),
                PlanItem { template: template@, path: path@, data: json_model(*context) },
            ) && is_item_failure(
                e,
                engine.templates(),
                engine.helpers(),
                PlanItem { template: template@, path: path@, data: json_model(*context) },
            ),
        },
{
    match engine.render_template(template, context) {
        Ok(content) => Ok(GeneratedFile { path: String::from_str(path), content }),
        Err(e) => Err(e.for_artifact(path)),
    }
}

/// Renders every artifact of `plan`, in order, with one context. The first
/// failure ends the rendering.
pub fn render_all(engine: &TemplateEngine, context: &serde_json::Value, plan: &Vec<Artifact>) -> (r:
    Result<Vec<GeneratedFile>, GeneratorError>)
    requires
        engine.well_formed(),
    ensures
        is_plan_outcome(
            r,
            engine.templates(),
            engine.helpers(),
            plan_items(plan@, json_model(*context)),
        ),
{
    let ghost items = plan_items(plan@, json_model(*context));
    let mut files: Vec<GeneratedFile> = Vec::new();
    let mut i: usize = 0;
    while i < plan.len()
        invariant
            i <= plan@.len(),
            engine.well_formed(),
            items == plan_items(plan@, json_model(*context)),
            files@.len() == i,
            forall|k: int|
                0 <= k < i ==> item_renders(engine.templates(), engine.helpers(), #[trigger] items[k]),
            forall|k: int|
                0 <= k < i ==> is_file_of(
                    #[trigger] files@[k],
                    engine.templates(),
                    engine.helpers(),
                    items[k],
                ),
        decreases plan@.len() - i,
    {
        let item = &plan[i];
        assert(items[i as int] == (PlanItem {
            template: item.template@,
            path: item.path@,
            data: json_model(*context),
        }));
        match render_artifact(engine, context, item.template.as_str(), item.path.as_str()) {
            Ok(file) => {
                files.push(file);
            },
            Err(e) => {
                proof {
                    assert forall|k: int| 0 <= k < items.take(i as int).len() implies item_renders(
                        engine.templates(),
                        engine.helpers(),
                        #[trigger] items.take(i as int)[k],
                    ) by {
                        assert(items.take(i as int)[k] == items[k]);
                    }
                    assert(all_render(engine.templates(), engine.helpers(), items.take(i as int)));
                    assert(is_plan_failure(e, engine.templates(), engine.helpers(), items));
                }
                return Err(e);
            },
        }
        i += 1;
    }
    Ok(files)
}

} // verus!
