//! Java type names.

use vstd::prelude::*;
use crate::config::TargetLanguage;
use crate::projector::{base_form, project_base};
use crate::types::BaseType;

verus! {

/// Names types in Java.
#[derive(Debug, Clone, Copy, PartialEq, Eq, Structural)]
pub struct JavaGenerator;

impl JavaGenerator {
    pub fn new() -> (r: JavaGenerator) {
        JavaGenerator
    }

    /// The Java type for a base shape. A list or a map holds the full
    /// projections of its inner references.
    pub fn map_type_to_java(base_type: &BaseType) -> (r: String)
        ensures
            r@ == base_form(base_type@, TargetLanguage::Java),
    {
        project_base(base_type, TargetLanguage::Java)
    }
}

impl Default for JavaGenerator {
    fn default() -> (r: JavaGenerator) {
        JavaGenerator
    }
}

} // verus!
