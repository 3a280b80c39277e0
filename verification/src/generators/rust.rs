//! Rust type names.

use vstd::prelude::*;
use crate::config::TargetLanguage;
use crate::projector::{base_form, project_base};
use crate::types::BaseType;

verus! {

/// Names types in Rust.
#[derive(Debug, Clone, Copy, PartialEq, Eq, Structural)]
pub struct RustGenerator;

impl RustGenerator {
    pub fn new() -> (r: RustGenerator) {
        RustGenerator
    }

    /// The Rust type for a base shape. A list or a map holds the full
    /// projections of its inner references.
    pub fn map_type_to_rust(base_type: &BaseType) -> (r: String)
        ensures
            r@ == base_form(base_type@, TargetLanguage::Rust),
    {
        project_base(base_type, TargetLanguage::Rust)
    }
}

impl Default for RustGenerator {
    fn default() -> (r: RustGenerator) {
        RustGenerator
    }
}

} // verus!
