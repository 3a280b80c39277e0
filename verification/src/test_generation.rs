//! What the tests of a generated client consist of: the suite with its
//! files, and the test cases that an operation calls for.

use vstd::prelude::*;
use crate::config::{TargetLanguage, Thousandths};
use crate::error::GeneratorError;
use crate::json::JsonModel;
use crate::serialize::{copy_operation, operation_json};
use crate::text::{concat2, concat3, texts};
use crate::types::{ApiSpec, Operation, Parameter, TypeDefinition};

verus! {

#[derive(Debug, Clone, Copy, PartialEq, Eq, Structural)]
pub enum JavaTestFramework {
    JUnit5,
    TestNG,
}

#[derive(Debug, Clone, Copy, PartialEq, Eq, Structural)]
pub enum TypeScriptTestFramework {
    Jest,
    Vitest,
    Mocha,
}

#[derive(Debug, Clone, Copy, PartialEq, Eq, Structural)]
pub enum PythonTestFramework {
    Pytest,
    Unittest,
}

#[derive(Debug, Clone, Copy, PartialEq, Eq, Structural)]
pub enum GoTestFramework {
    StandardTesting,
    Testify,
}

#[derive(Debug, Clone, Copy, PartialEq, Eq, Structural)]
pub enum RustTestFramework {
    StandardTesting,
    Tokio,
}

/// The test framework to generate for, language by language.
#[derive(Debug, Clone, Copy, PartialEq, Eq, Structural)]
pub struct TestFrameworkPreferences {
    pub java_framework: JavaTestFramework,
    pub typescript_framework: TypeScriptTestFramework,
    pub python_framework: PythonTestFramework,
    pub go_framework: GoTestFramework,
    pub rust_framework: RustTestFramework,
}

#[derive(Debug, Clone, Copy, PartialEq, Eq, Structural)]
pub struct TestGenerationConfig {
    pub enabled: bool,
    pub generate_unit_tests: bool,
    pub generate_integration_tests: bool,
    pub generate_mock_data: bool,
    /// The share of the code that tests should cover, in percent.
    pub test_coverage_target: Option<Thousandths>,
    pub framework_preferences: TestFrameworkPreferences,
}

#[derive(Debug, Clone, Copy, PartialEq, Eq, Structural)]
pub enum TestType {
    Unit,
    Integration,
    End2End,
    Performance,
}

#[derive(Debug, Clone)]
pub struct TestFile {
    pub name: String,
    /// Where the file goes, below the output directory.
    pub path: String,
    pub content: String,
    pub test_type: TestType,
}

#[derive(Debug, Clone)]
pub struct MockDataFile {
    pub name: String,
    pub path: String,
    pub content: String,
}

#[derive(Debug, Clone)]
pub struct ConfigFile {
    pub name: String,
    pub path: String,
    pub content: String,
}

/// The files that make up the tests of a generated client.
#[derive(Debug, Clone)]
pub struct TestSuite {
    pub name: String,
    pub files: Vec<TestFile>,
    pub mock_data_files: Vec<MockDataFile>,
    pub config_files: Vec<ConfigFile>,
}

#[derive(Debug, Clone, Copy, PartialEq, Eq, Structural)]
pub enum TestScenarioType {
    Success,
    ValidationError,
    NetworkError,
    AuthenticationError,
    AuthorizationError,
    RateLimitError,
    ServerError,
    TimeoutError,
}

/// One situation that a test case puts an operation in.
#[derive(Debug, Clone)]
pub struct TestScenario {
    pub name: String,
    pub description: String,
    pub scenario_type: TestScenarioType,
    pub setup: Vec<String>,
    pub execution: Vec<String>,
    pub assertions: Vec<String>,
    pub cleanup: Vec<String>,
}

/// The scenarios that test one operation in one respect.
#[derive(Debug, Clone)]
pub struct TestCase {
    pub name: String,
    pub description: String,
    pub operation: Operation,
    pub test_scenarios: Vec<TestScenario>,
}

/// The mathematical model of a `TestScenario`.
pub struct ScenarioView {
    pub name: Seq<char>,
    pub description: Seq<char>,
    pub scenario_type: TestScenarioType,
    pub setup: Seq<Seq<char>>,
    pub execution: Seq<Seq<char>>,
    pub assertions: Seq<Seq<char>>,
    pub cleanup: Seq<Seq<char>>,
}

/// The mathematical model of a `TestCase`. The operation is held as its
/// document.
pub struct TestCaseView {
    pub name: Seq<char>,
    pub description: Seq<char>,
    pub operation: JsonModel,
    pub test_scenarios: Seq<ScenarioView>,
}

impl View for TestScenario {
    type V = ScenarioView;

    open spec fn view(&self) -> ScenarioView {
        ScenarioView {
            name: self.name@,
            description: self.description@,
            scenario_type: self.scenario_type,
            setup: texts(self.setup@),
            execution: texts(self.execution@),
            assertions: texts(self.assertions@),
            cleanup: texts(self.cleanup@),
        }
    }
}

/// The models of a list of scenarios.
pub open spec fn scenario_views(list: Seq<TestScenario>) -> Seq<ScenarioView> {
    list.map_values(|s: TestScenario| s@)
}

impl View for TestCase {
    type V = TestCaseView;

    open spec fn view(&self) -> TestCaseView {
        TestCaseView {
            name: self.name@,
            description: self.description@,
            operation: operation_json(self.operation),
            test_scenarios: scenario_views(self.test_scenarios@),
        }
    }
}

/// The models of a list of test cases.
pub open spec fn test_case_views(list: Seq<TestCase>) -> Seq<TestCaseView> {
    list.map_values(|c: TestCase| c@)
}

/// What a language-specific test generator offers. The generator decides
/// what the files hold.
pub trait TestGenerator {
    /// The language that the generator writes tests in.
    spec fn language(&self) -> TargetLanguage;

    /// Produces every test file for the API.
    fn generate_test_suite(
        &self,
        api_spec: &ApiSpec,
        config: &TestGenerationConfig,
        output_path: &str,
    ) -> Result<TestSuite, GeneratorError>;

    /// Produces unit tests for the client classes.
    fn generate_client_tests(&self, api_spec: &ApiSpec, config: &TestGenerationConfig) -> Result<
        Vec<TestFile>,
        GeneratorError,
    >;

    /// Produces unit tests for the model classes.
    fn generate_model_tests(
        &self,
        types: &Vec<TypeDefinition>,
        config: &TestGenerationConfig,
    ) -> Result<Vec<TestFile>, GeneratorError>;

    /// Produces integration tests for the operations.
    fn generate_integration_tests(
        &self,
        api_spec: &ApiSpec,
        config: &TestGenerationConfig,
    ) -> Result<Vec<TestFile>, GeneratorError>;

    /// Produces mock data for the tests.
    fn generate_mock_data(&self, api_spec: &ApiSpec, config: &TestGenerationConfig) -> Result<
        Vec<MockDataFile>,
        GeneratorError,
    >;

    /// Produces the configuration files of the test runner.
    fn generate_test_configs(&self, config: &TestGenerationConfig) -> Result<
        Vec<ConfigFile>,
        GeneratorError,
    >;

    /// The language that the generator writes tests in.
    fn target_language(&self) -> (r: TargetLanguage)
        ensures
            r == self.language(),
    ;
}

impl Default for TestFrameworkPreferences {
    fn default() -> (r: TestFrameworkPreferences)
        ensures
            r == (TestFrameworkPreferences {
                java_framework: JavaTestFramework::JUnit5,
                typescript_framework: TypeScriptTestFramework::Jest,
                python_framework: PythonTestFramework::Pytest,
                go_framework: GoTestFramework::StandardTesting,
                rust_framework: RustTestFramework::StandardTesting,
            }),
    {
        TestFrameworkPreferences {
            java_framework: JavaTestFramework::JUnit5,
            typescript_framework: TypeScriptTestFramework::Jest,
            python_framework: PythonTestFramework::Pytest,
            go_framework: GoTestFramework::StandardTesting,
            rust_framework: RustTestFramework::StandardTesting,
        }
    }
}

impl Default for TestGenerationConfig {
    fn default() -> (r: TestGenerationConfig)
        ensures
            r.enabled,
            r.generate_unit_tests,
            r.generate_integration_tests,
            r.generate_mock_data,
            r.test_coverage_target == Some(Thousandths { count: 80000 }),
            r.framework_preferences == (TestFrameworkPreferences {
                java_framework: JavaTestFramework::JUnit5,
                typescript_framework: TypeScriptTestFramework::Jest,
                python_framework: PythonTestFramework::Pytest,
                go_framework: GoTestFramework::StandardTesting,
                rust_framework: RustTestFramework::StandardTesting,
            }),
    {
        TestGenerationConfig {
            enabled: true,
            generate_unit_tests: true,
            generate_integration_tests: true,
            generate_mock_data: true,
            test_coverage_target: Some(Thousandths { count: 80000 }),
            framework_preferences: TestFrameworkPreferences::default(),
        }
    }
}

/// The scenario in which the operation called `operation` succeeds.
pub open spec fn success_scenario(operation: Seq<char>) -> ScenarioView {
    ScenarioView {
        name: "should_succeed_with_valid_parameters"@,
        description: "Test successful execution of "@ + operation + " operation"@,
        scenario_type: TestScenarioType::Success,
        setup: seq!["// Setup valid test data"@],
        execution: seq!["// Call "@ + operation],
        assertions: seq!["// Assert successful response"@],
        cleanup: seq!["// Cleanup if needed"@],
    }
}

/// The scenario in which the required parameter `parameter` is left out.
pub open spec fn missing_parameter_scenario(operation: Seq<char>, parameter: Seq<char>) -> ScenarioView {
    ScenarioView {
        name: "should_fail_when_"@ + parameter + "_is_missing"@,
        description: "Test validation error when required parameter "@ + parameter
            + " is missing"@,
        scenario_type: TestScenarioType::ValidationError,
        setup: seq!["// Setup test data with missing parameter"@],
        execution: seq!["// Call "@ + operation + " with missing "@ + parameter],
        assertions: seq!["// Assert validation error"@],
        cleanup: Seq::empty(),
    }
}

/// The scenario in which the network times out.
pub open spec fn timeout_scenario(operation: Seq<char>) -> ScenarioView {
    ScenarioView {
        name: "should_handle_network_timeout"@,
        description: "Test network timeout handling for "@ + operation + " operation"@,
        scenario_type: TestScenarioType::TimeoutError,
        setup: seq!["// Setup timeout scenario"@],
        execution: seq!["// Call "@ + operation + " with timeout"@],
        assertions: seq!["// Assert timeout exception"@],
        cleanup: Seq::empty(),
    }
}

/// The scenario in which the server fails.
pub open spec fn server_error_scenario(operation: Seq<char>) -> ScenarioView {
    ScenarioView {
        name: "should_handle_server_error"@,
        description: "Test server error handling for "@ + operation + " operation"@,
        scenario_type: TestScenarioType::ServerError,
        setup: seq!["// Setup server error scenario"@],
        execution: seq!["// Call "@ + operation + " with server error"@],
        assertions: seq!["// Assert server error handling"@],
        cleanup: Seq::empty(),
    }
}

/// One scenario for each required parameter, in the order of the
/// parameters.
pub open spec fn validation_scenarios(operation: Seq<char>, parameters: Seq<Parameter>) -> Seq<
    ScenarioView,
>
    decreases parameters.len(),
{
    if parameters.len() == 0 {
        Seq::empty()
    } else {
        let earlier = validation_scenarios(operation, parameters.drop_last());
        if parameters.last().required {
            earlier.push(missing_parameter_scenario(operation, parameters.last().name@))
        } else {
            earlier
        }
    }
}

/// The test cases that an operation calls for: one for success; one for
/// validation, where the operation has a required parameter; and one for
/// the handling of timeouts and server errors.
pub open spec fn test_cases_for(operation: Operation) -> Seq<TestCaseView> {
    let name = operation.name@;
    let document = operation_json(operation);
    let success = TestCaseView {
        name: name + "Test"@,
        description: "Test cases for "@ + name + " operation"@,
        operation: document,
        test_scenarios: seq![success_scenario(name)],
    };
    let validation = TestCaseView {
        name: name + "ValidationTest"@,
        description: "Validation test cases for "@ + name + " operation"@,
        operation: document,
        test_scenarios: validation_scenarios(name, operation.parameters@),
    };
    let failures = TestCaseView {
        name: name + "ErrorHandlingTest"@,
        description: "Error handling test cases for "@ + name + " operation"@,
        operation: document,
        test_scenarios: seq![timeout_scenario(name), server_error_scenario(name)],
    };
    if validation.test_scenarios.len() > 0 {
        seq![success, validation, failures]
    } else {
        seq![success, failures]
    }
}

/// A list that holds one text.
fn one_text(a: String) -> (r: Vec<String>)
    ensures
        texts(r@) == seq![a@],
{
    let mut r: Vec<String> = Vec::new();
    r.push(a);
    assert(texts(r@) =~= seq![a@]);
    r
}

/// No text.
fn no_text() -> (r: Vec<String>)
    ensures
        texts(r@) == Seq::<Seq<char>>::empty(),
{
    let r: Vec<String> = Vec::new();
    assert(texts(r@) =~= Seq::<Seq<char>>::empty());
    r
}

fn missing_parameter(operation: &str, parameter: &str) -> (r: TestScenario)
    ensures
        r@ == missing_parameter_scenario(operation@, parameter@),
{
    let mut execution = String::from_str("// Call ");
    execution.append(operation);
    execution.append(" with missing ");
    execution.append(parameter);
    TestScenario {
        name: concat3("should_fail_when_", parameter, "_is_missing"),
        description: concat3(
            "Test validation error when required parameter ",
            parameter,
            " is missing",
        ),
        scenario_type: TestScenarioType::ValidationError,
        setup: one_text(String::from_str("// Setup test data with missing parameter")),
        execution: one_text(execution),
        assertions: one_text(String::from_str("// Assert validation error")),
        cleanup: no_text(),
    }
}

/// The test cases that `operation` calls for.
pub fn generate_test_cases_for_operation(operation: &Operation) -> (r: Vec<TestCase>)
    ensures
        test_case_views(r@) == test_cases_for(*operation),
{
    let name = operation.name.as_str();
    let mut test_cases: Vec<TestCase> = Vec::new();

    let mut success_scenarios: Vec<TestScenario> = Vec::new();
    success_scenarios.push(
        TestScenario {
            name: String::from_str("should_succeed_with_valid_parameters"),
            description: concat3("Test successful execution of ", name, " operation"),
            scenario_type: TestScenarioType::Success,
            setup: one_text(String::from_str("// Setup valid test data")),
            execution: one_text(concat2("// Call ", name)),
            assertions: one_text(String::from_str("// Assert successful response")),
            cleanup: one_text(String::from_str("// Cleanup if needed")),
        },
    );
    assert(scenario_views(success_scenarios@) =~= seq![success_scenario(name@)]);
    test_cases.push(
        TestCase {
            name: concat2(name, "Test"),
            description: concat3("Test cases for ", name, " operation"),
            operation: copy_operation(operation),
            test_scenarios: success_scenarios,
        },
    );

    let mut error_scenarios: Vec<TestScenario> = Vec::new();
    let mut i: usize = 0;
    assert(operation.parameters@.take(0) =~= Seq::empty());
    assert(scenario_views(error_scenarios@) =~= Seq::empty());
    while i < operation.parameters.len()
        invariant
            i <= operation.parameters@.len(),
            name@ == operation.name@,
            scenario_views(error_scenarios@) == validation_scenarios(
                name@,
                operation.parameters@.take(i as int),
            ),
        decreases operation.parameters@.len() - i,
    {
        let parameter = &operation.parameters[i];
        let ghost before = scenario_views(error_scenarios@);
        proof {
            assert(operation.parameters@.take(i + 1).drop_last() =~= operation.parameters@.take(
                i as int,
            ));
        }
        if parameter.required {
            let scenario = missing_parameter(name, parameter.name.as_str());
            error_scenarios.push(scenario);
            assert(scenario_views(error_scenarios@) =~= before.push(scenario@));
        }
        i += 1;
    }
    assert(operation.parameters@.take(operation.parameters@.len() as int)
        =~= operation.parameters@);
    if error_scenarios.len() > 0 {
        test_cases.push(
            TestCase {
                name: concat2(name, "ValidationTest"),
                description: concat3("Validation test cases for ", name, " operation"),
                operation: copy_operation(operation),
                test_scenarios: error_scenarios,
            },
        );
    }
    let mut failure_scenarios: Vec<TestScenario> = Vec::new();
    failure_scenarios.push(
        TestScenario {
            name: String::from_str("should_handle_network_timeout"),
            description: concat3("Test network timeout handling for ", name, " operation"),
            scenario_type: TestScenarioType::TimeoutError,
            setup: one_text(String::from_str("// Setup timeout scenario")),
            execution: one_text(concat3("// Call ", name, " with timeout")),
            assertions: one_text(String::from_str("// Assert timeout exception")),
            cleanup: no_text(),
        },
    );
    failure_scenarios.push(
        TestScenario {
            name: String::from_str("should_handle_server_error"),
            description: concat3("Test server error handling for ", name, " operation"),
            scenario_type: TestScenarioType::ServerError,
            setup: one_text(String::from_str("// Setup server error scenario")),
            execution: one_text(concat3("// Call ", name, " with server error")),
            assertions: one_text(String::from_str("// Assert server error handling")),
            cleanup: no_text(),
        },
    );
    assert(scenario_views(failure_scenarios@) =~= seq![
        timeout_scenario(name@),
        server_error_scenario(name@),
    ]);
    test_cases.push(
        TestCase {
            name: concat2(name, "ErrorHandlingTest"),
            description: concat3("Error handling test cases for ", name, " operation"),
            operation: copy_operation(operation),
            test_scenarios: failure_scenarios,
        },
    );
    assert(test_case_views(test_cases@) =~= test_cases_for(*operation));
    test_cases
}

} // verus!
