//! The test generators of the languages.

use vstd::prelude::*;
use crate::config::TargetLanguage;
use crate::error::GeneratorError;
use crate::test_generation::{
    ConfigFile, MockDataFile, TestFile, TestGenerationConfig, TestGenerator, TestSuite,
};
use crate::types::{ApiSpec, TypeDefinition};

verus! {

/// Chooses the test generator of a language.
#[derive(Debug, Clone, Copy, PartialEq, Eq, Structural)]
pub struct TestGeneratorFactory;

/// A test generator that produces an empty suite. It stands in for a
/// language that has no test generator of its own.
#[derive(Debug, Clone, Copy, PartialEq, Eq, Structural)]
pub struct StubTestGenerator {
    target: TargetLanguage,
}

impl StubTestGenerator {
    /// The language that the generator stands in for.
    pub closed spec fn target(&self) -> TargetLanguage {
        self.target
    }

    pub fn new(target: TargetLanguage) -> (r: StubTestGenerator)
        ensures
            r.target() == target,
            r.language() == target,
    {
        StubTestGenerator { target }
    }

    /// The empty suite.
    pub fn empty_suite() -> (r: TestSuite)
        ensures
            r.name@ == "stub_test_suite"@,
            r.files@.len() == 0,
            r.mock_data_files@.len() == 0,
            r.config_files@.len() == 0,
    {
        TestSuite {
            name: String::from_str("stub_test_suite"),
            files: Vec::new(),
            mock_data_files: Vec::new(),
            config_files: Vec::new(),
        }
    }
}

impl TestGenerator for StubTestGenerator {
    closed spec fn language(&self) -> TargetLanguage {
        self.target
    }

    fn generate_test_suite(
        &self,
        _api_spec: &ApiSpec,
        _config: &TestGenerationConfig,
        _output_path: &str,
    ) -> (r: Result<TestSuite, GeneratorError>)
        ensures
            r matches Ok(suite) && suite.name@ == "stub_test_suite"@ && suite.files@.len() == 0
                && suite.mock_data_files@.len() == 0 && suite.config_files@.len() == 0,
    {
        Ok(StubTestGenerator::empty_suite())
    }

    fn generate_client_tests(&self, _api_spec: &ApiSpec, _config: &TestGenerationConfig) -> (r:
        Result<Vec<TestFile>, GeneratorError>)
        ensures
            r matches Ok(files) && files@.len() == 0,
    {
        Ok(Vec::new())
    }

    fn generate_model_tests(
        &self,
        _types: &Vec<TypeDefinition>,
        _config: &TestGenerationConfig,
    ) -> (r: Result<Vec<TestFile>, GeneratorError>)
        ensures
            r matches Ok(files) && files@.len() == 0,
    {
        Ok(Vec::new())
    }

    fn generate_integration_tests(
        &self,
        _api_spec: &ApiSpec,
        _config: &TestGenerationConfig,
    ) -> (r: Result<Vec<TestFile>, GeneratorError>)
        ensures
            r matches Ok(files) && files@.len() == 0,
    {
        Ok(Vec::new())
    }

    fn generate_mock_data(&self, _api_spec: &ApiSpec, _config: &TestGenerationConfig) -> (r:
        Result<Vec<MockDataFile>, GeneratorError>)
        ensures
            r matches Ok(files) && files@.len() == 0,
    {
        Ok(Vec::new())
    }

    fn generate_test_configs(&self, _config: &TestGenerationConfig) -> (r: Result<
        Vec<ConfigFile>,
        GeneratorError,
    >)
        ensures
            r matches Ok(files) && files@.len() == 0,
    {
        Ok(Vec::new())
    }

    fn target_language(&self) -> (r: TargetLanguage) {
        self.target
    }
}

impl TestGeneratorFactory {
    /// The test generator of a language. Every language gets the stand-in
    /// for now.
    pub fn create_generator(language: TargetLanguage) -> (r: Result<
        Box<dyn TestGenerator>,
        GeneratorError,
    >)
        ensures
            r matches Ok(generator) && generator.language() == language,
    {
        let generator = StubTestGenerator::new(language);
        assert(generator.language() == language);
        Ok(Box::new(generator))
    }
}

} // verus!
