//! Python type names.

use vstd::prelude::*;
use crate::config::TargetLanguage;
use crate::projector::{base_form, project_base};
use crate::types::BaseType;

verus! {

/// Names types in Python.
#[derive(Debug, Clone, Copy, PartialEq, Eq, Structural)]
pub struct PythonGenerator;

impl PythonGenerator {
    pub fn new() -> (r: PythonGenerator) {
        PythonGenerator
    }

    /// The Python type for a base shape. A list or a map holds the full
    /// projections of its inner references.
    pub fn map_type_to_python(base_type: &BaseType) -> (r: String)
        ensures
            r@ == base_form(base_type@, TargetLanguage::Python),
    {
        project_base(base_type, TargetLanguage::Python)
    }
}

impl Default for PythonGenerator {
    fn default() -> (r: PythonGenerator) {
        PythonGenerator
    }
}

} // verus!
