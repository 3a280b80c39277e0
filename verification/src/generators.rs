//! What is particular to each target language.

pub mod context;
pub mod go;
pub mod java;
pub mod python;
pub mod rust;
pub mod test_generators;
pub mod typescript;

pub use go::GoGenerator;
pub use java::JavaGenerator;
pub use python::PythonGenerator;
pub use rust::RustGenerator;
pub use test_generators::TestGeneratorFactory;
pub use typescript::TypeScriptGenerator;
