//! The failures that generation can end in.

use vstd::prelude::*;

verus! {

/// Why a generation run, or a step of it, failed.
#[derive(Debug)]
pub enum GeneratorError {
    /// A malformed configuration document, base URL or language name.
    Configuration { message: String },
    /// A template was asked for under a name that was never registered.
    TemplateNotFound { name: String },
    /// A registered template failed while it was rendered.
    TemplateRender { name: String, message: String },
    /// A template's source could not be registered.
    TemplateSyntax { name: String, message: String },
    /// Reading or writing a file failed.
    Io { message: String },
    /// A type has no rendering in the target language.
    Mapping { message: String },
    /// A failure, with the artifact that was being produced.
    Artifact { artifact: String, cause: Box<GeneratorError> },
}

impl GeneratorError {
    /// What the failure says: its message, after the kind of a template
    /// failure and the artifact it happened for.
    pub open spec fn description(self) -> Seq<char>
        decreases self,
    {
        match self {
            GeneratorError::Configuration { message } => message@,
            GeneratorError::TemplateNotFound { name } => "Template not found: "@ + name@,
            GeneratorError::TemplateRender { name, message } => "Failed to render template: "@
                + name@ + ": "@ + message@,
            GeneratorError::TemplateSyntax { name, message } => "Failed to register template: "@
                + name@ + ": "@ + message@,
            GeneratorError::Io { message } => message@,
            GeneratorError::Mapping { message } => message@,
            GeneratorError::Artifact { artifact, cause } => "Failed to generate "@ + artifact@
                + ": "@ + cause.description(),
        }
    }

    /// What the failure says.
    pub fn to_string(&self) -> (r: String)
        ensures
            r@ == self.description(),
        decreases self,
    {
        match self {
            GeneratorError::Configuration { message } => message.clone(),
            GeneratorError::TemplateNotFound { name } => {
                let mut r = String::from_str("Template not found: ");
                r.append(name.as_str());
                r
            },
            GeneratorError::TemplateRender { name, message } => {
                let mut r = String::from_str("Failed to render template: ");
                r.append(name.as_str());
                r.append(": ");
                r.append(message.as_str());
                r
            },
            GeneratorError::TemplateSyntax { name, message } => {
                let mut r = String::from_str("Failed to register template: ");
                r.append(name.as_str());
                r.append(": ");
                r.append(message.as_str());
                r
            },
            GeneratorError::Io { message } => message.clone(),
            GeneratorError::Mapping { message } => message.clone(),
            GeneratorError::Artifact { artifact, cause } => {
                let mut r = String::from_str("Failed to generate ");
                r.append(artifact.as_str());
                r.append(": ");
                r.append(cause.to_string().as_str());
                r
            },
        }
    }

    /// The failure underneath every artifact wrapping.
    pub open spec fn root(self) -> GeneratorError
        decreases self,
    {
        match self {
            GeneratorError::Artifact { artifact, cause } => cause.root(),
            _ => self,
        }
    }

    /// Wraps the failure with the name of the artifact that was being
    /// produced.
    pub fn for_artifact(self, artifact: &str) -> (r: GeneratorError)
        ensures
            r matches GeneratorError::Artifact { artifact: a, cause } && a@ == artifact@ && *cause
                == self,
            r.root() == self.root(),
    {
        GeneratorError::Artifact { artifact: String::from_str(artifact), cause: Box::new(self) }
    }

    /// Whether the failure, under any artifact wrapping, is a missing
    /// template.
    pub fn is_template_not_found(&self) -> (r: bool)
        ensures
            r == (self.root() is TemplateNotFound),
        decreases self,
    {
        match self {
            GeneratorError::Artifact { artifact: _, cause } => cause.is_template_not_found(),
            GeneratorError::TemplateNotFound { .. } => true,
            _ => false,
        }
    }
}

} // verus!
