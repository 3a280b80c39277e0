//! Turns a language-neutral description of an API into client SDK source
//! text for several target languages.

pub mod artifacts;
pub mod backoff;
pub mod casing;
pub mod config;
pub mod error;
pub mod features;
pub mod generator;
pub mod generators;
pub mod helpers;
pub mod json;
pub mod parsers;
pub mod projector;
pub mod serialize;
pub mod snippets;
pub mod sorted;
pub mod string_map;
pub mod template;
pub mod test_generation;
pub mod text;
pub mod types;
pub mod words;
pub mod unicode;
