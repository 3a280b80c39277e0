//! Generator configuration: input protocol, target language, features,
//! output options and authentication.

use vstd::prelude::*;
use crate::error::GeneratorError;
use crate::string_map::StringMap;
use crate::text::{str_eq, texts};
use crate::unicode::{lowercase, lowered};

verus! {

/// The protocol family of the API description that is read.
#[derive(Debug, Clone, Copy, PartialEq, Eq, Structural)]
pub enum InputType {
    OpenApi,
    GraphQL,
    Grpc,
}

/// The language that source text is generated for.
#[derive(Debug, Clone, Copy, PartialEq, Eq, Structural)]
pub enum TargetLanguage {
    Java,
    Python,
    Rust,
    Go,
    TypeScript,
}

/// A non-negative decimal number with three fractional digits, held as its
/// count of thousandths: `2000` is 2, `1500` is 1.5.
#[derive(Debug, Clone, Copy, PartialEq, Eq, Structural)]
pub struct Thousandths {
    pub count: u64,
}

/// How long to wait before a retry.
#[derive(Debug, Clone, Copy, PartialEq, Eq, Structural)]
pub enum BackoffStrategy {
    Fixed { delay_ms: u64 },
    Exponential { initial_delay_ms: u64, multiplier: Thousandths, max_delay_ms: u64 },
    Linear { initial_delay_ms: u64, increment_ms: u64 },
}

#[derive(Debug, Clone)]
pub struct RetryConfig {
    pub enabled: bool,
    pub max_attempts: u32,
    pub backoff_strategy: BackoffStrategy,
    /// HTTP status codes or error kinds that trigger a retry.
    pub retry_on: Vec<String>,
}

#[derive(Debug, Clone)]
pub enum TelemetryProvider {
    Prometheus,
    OpenTelemetry,
    Custom { implementation: String },
}

#[derive(Debug, Clone)]
pub struct MetricsConfig {
    pub enabled: bool,
    pub include_request_duration: bool,
    pub include_request_count: bool,
    pub include_error_count: bool,
    pub custom_labels: StringMap,
}

#[derive(Debug, Clone, Copy, PartialEq, Eq, Structural)]
pub struct TracingConfig {
    pub enabled: bool,
    pub include_request_body: bool,
    pub include_response_body: bool,
    /// The share of requests that are traced, between 0 and 1.
    pub sample_rate: Thousandths,
}

#[derive(Debug, Clone)]
pub struct TelemetryConfig {
    pub enabled: bool,
    pub provider: TelemetryProvider,
    pub metrics: MetricsConfig,
    pub tracing: TracingConfig,
}

#[derive(Debug, Clone, Copy, PartialEq, Eq, Structural)]
pub enum CacheKeyStrategy {
    MethodAndParams,
    CustomHash,
    UserDefined,
}

#[derive(Debug, Clone, Copy, PartialEq, Eq, Structural)]
pub struct CachingConfig {
    pub enabled: bool,
    pub default_ttl_seconds: u64,
    pub max_cache_size: usize,
    pub cache_key_strategy: CacheKeyStrategy,
}

#[derive(Debug, Clone)]
pub struct FeatureConfig {
    pub retry: RetryConfig,
    pub telemetry: TelemetryConfig,
    pub caching: CachingConfig,
    pub async_support: bool,
}

#[derive(Debug, Clone)]
pub struct OutputConfig {
    pub package_name: Option<String>,
    pub version: String,
    pub author: Option<String>,
    pub license: Option<String>,
    pub include_tests: bool,
    pub include_docs: bool,
    pub format_code: bool,
}

#[derive(Debug, Clone)]
pub enum AuthenticationType {
    NoAuth,
    ApiKey,
    Http,
    OAuth2,
    OpenIdConnect,
    Custom { name: String, description: Option<String> },
}

#[derive(Debug, Clone, Copy, PartialEq, Eq, Structural)]
pub enum AuthLocation {
    Query,
    Header,
    Cookie,
}

#[derive(Debug, Clone, Copy, PartialEq, Eq, Structural)]
pub enum OAuthFlowType {
    AuthorizationCode,
    Implicit,
    ResourceOwnerPassword,
    ClientCredentials,
}

#[derive(Debug, Clone)]
pub struct OAuthFlow {
    pub flow_type: OAuthFlowType,
    pub authorization_url: Option<String>,
    pub token_url: Option<String>,
    pub refresh_url: Option<String>,
    pub scopes: StringMap,
}

#[derive(Debug, Clone)]
pub struct AuthenticationConfig {
    pub auth_type: AuthenticationType,
    pub location: AuthLocation,
    pub parameter_name: Option<String>,
    pub scheme: Option<String>,
    pub bearer_format: Option<String>,
    pub flows: Option<Vec<OAuthFlow>>,
    pub openid_connect_url: Option<String>,
}

#[derive(Debug, Clone)]
pub struct GeneratorConfig {
    pub input_type: InputType,
    pub target_language: TargetLanguage,
    pub features: FeatureConfig,
    pub output_config: OutputConfig,
    pub authentication: Option<AuthenticationConfig>,
    /// A directory of templates to use in place of the built-in ones.
    pub template_overrides: Option<String>,
}

/// The document format of a configuration file.
#[derive(Debug, Clone, Copy, PartialEq, Eq, Structural)]
pub enum ConfigFormat {
    Yaml,
    Json,
}

impl Thousandths {
    /// The whole number `n`.
    pub fn whole(n: u32) -> (r: Thousandths)
        ensures
            r.count == 1000 * n,
    {
        Thousandths { count: 1000 * (n as u64) }
    }
}

impl InputType {
    /// The protocol's name as shown to users.
    pub open spec fn name(self) -> Seq<char> {
        match self {
            InputType::OpenApi => "OpenAPI"@,
            InputType::GraphQL => "GraphQL"@,
            InputType::Grpc => "gRPC"@,
        }
    }

    /// The directory that holds the protocol's templates.
    pub open spec fn directory(self) -> Seq<char> {
        match self {
            InputType::OpenApi => "rest"@,
            InputType::GraphQL => "graphql"@,
            InputType::Grpc => "grpc"@,
        }
    }

    /// The protocol's name as shown to users.
    pub fn to_string(&self) -> (s: String)
        ensures
            s@ == self.name(),
    {
        match self {
            InputType::OpenApi => String::from_str("OpenAPI"),
            InputType::GraphQL => String::from_str("GraphQL"),
            InputType::Grpc => String::from_str("gRPC"),
        }
    }

    /// The name of the directory that holds the protocol's templates.
    pub fn directory_name(&self) -> (s: &'static str)
        ensures
            s@ == self.directory(),
    {
        match self {
            InputType::OpenApi => "rest",
            InputType::GraphQL => "graphql",
            InputType::Grpc => "grpc",
        }
    }
}

/// The language that a lowercase name or alias stands for.
pub open spec fn language_named(name: Seq<char>) -> Option<TargetLanguage> {
    if name == "java"@ {
        Some(TargetLanguage::Java)
    } else if name == "python"@ || name == "py"@ {
        Some(TargetLanguage::Python)
    } else if name == "rust"@ || name == "rs"@ {
        Some(TargetLanguage::Rust)
    } else if name == "go"@ || name == "golang"@ {
        Some(TargetLanguage::Go)
    } else if name == "typescript"@ || name == "ts"@ {
        Some(TargetLanguage::TypeScript)
    } else {
        None
    }
}

impl TargetLanguage {
    /// The language's name as shown to users.
    pub open spec fn name(self) -> Seq<char> {
        match self {
            TargetLanguage::Java => "Java"@,
            TargetLanguage::Python => "Python"@,
            TargetLanguage::Rust => "Rust"@,
            TargetLanguage::Go => "Go"@,
            TargetLanguage::TypeScript => "TypeScript"@,
        }
    }

    /// The language's lowercase key, used in template contexts and as the
    /// name of its template directory.
    pub open spec fn key(self) -> Seq<char> {
        match self {
            TargetLanguage::Java => "java"@,
            TargetLanguage::Python => "python"@,
            TargetLanguage::Rust => "rust"@,
            TargetLanguage::Go => "go"@,
            TargetLanguage::TypeScript => "typescript"@,
        }
    }

    /// The language's name as shown to users.
    pub fn to_string(&self) -> (s: String)
        ensures
            s@ == self.name(),
    {
        match self {
            TargetLanguage::Java => String::from_str("Java"),
            TargetLanguage::Python => String::from_str("Python"),
            TargetLanguage::Rust => String::from_str("Rust"),
            TargetLanguage::Go => String::from_str("Go"),
            TargetLanguage::TypeScript => String::from_str("TypeScript"),
        }
    }

    /// The language's lowercase key.
    pub fn key_name(&self) -> (s: &'static str)
        ensures
            s@ == self.key(),
    {
        match self {
            TargetLanguage::Java => "java",
            TargetLanguage::Python => "python",
            TargetLanguage::Rust => "rust",
            TargetLanguage::Go => "go",
            TargetLanguage::TypeScript => "typescript",
        }
    }

    /// The language that the lowercase name or alias `name` stands for.
    pub fn from_lowercase_name(name: &str) -> (r: Option<TargetLanguage>)
        ensures
            r == language_named(name@),
    {
        if str_eq(name, "java") {
            Some(TargetLanguage::Java)
        } else if str_eq(name, "python") || str_eq(name, "py") {
            Some(TargetLanguage::Python)
        } else if str_eq(name, "rust") || str_eq(name, "rs") {
            Some(TargetLanguage::Rust)
        } else if str_eq(name, "go") || str_eq(name, "golang") {
            Some(TargetLanguage::Go)
        } else if str_eq(name, "typescript") || str_eq(name, "ts") {
            Some(TargetLanguage::TypeScript)
        } else {
            None
        }
    }

    /// Reads a language from its name or alias, whatever the case of its
    /// letters. Any other text is a configuration error that quotes it.
    pub fn parse(s: &str) -> (r: Result<TargetLanguage, GeneratorError>)
        ensures
            match language_named(lowered(s@)) {
                Some(language) => r == Ok::<TargetLanguage, GeneratorError>(language),
                None => r matches Err(GeneratorError::Configuration { message }) && message@
                    == "Unsupported target language: "@ + s@,
            },
    {
        let lower = lowercase(s);
        match TargetLanguage::from_lowercase_name(lower.as_str()) {
            Some(language) => Ok(language),
            None => {
                let mut message = String::from_str("Unsupported target language: ");
                message.append(s);
                Err(GeneratorError::Configuration { message })
            },
        }
    }
}

impl std::str::FromStr for TargetLanguage {
    type Err = GeneratorError;

    fn from_str(s: &str) -> (r: Result<TargetLanguage, GeneratorError>)
        ensures
            match language_named(lowered(s@)) {
                Some(language) => r == Ok::<TargetLanguage, GeneratorError>(language),
                None => r matches Err(GeneratorError::Configuration { message }) && message@
                    == "Unsupported target language: "@ + s@,
            },
    {
        TargetLanguage::parse(s)
    }
}

impl ConfigFormat {
    /// The format that a configuration file is read in, chosen by the
    /// extension of its name: YAML for `yaml` and `yml`, JSON for any other
    /// and for none.
    pub fn for_extension(extension: Option<&str>) -> (r: ConfigFormat)
        ensures
            r == (match extension {
                Some(e) if e@ == "yaml"@ || e@ == "yml"@ => ConfigFormat::Yaml,
                _ => ConfigFormat::Json,
            }),
    {
        match extension {
            Some(e) => {
                if str_eq(e, "yaml") || str_eq(e, "yml") {
                    ConfigFormat::Yaml
                } else {
                    ConfigFormat::Json
                }
            },
            None => ConfigFormat::Json,
        }
    }
}

impl RetryConfig {
    /// Retrying enabled: three attempts, doubling from 100 ms up to 5 s, on
    /// server errors, timeouts and rate limits.
    pub open spec fn is_default(self) -> bool {
        &&& self.enabled
        &&& self.max_attempts == 3
        &&& self.backoff_strategy == (BackoffStrategy::Exponential {
            initial_delay_ms: 100,
            multiplier: Thousandths { count: 2000 },
            max_delay_ms: 5000,
        })
        &&& texts(self.retry_on@) == seq!["5xx"@, "408"@, "429"@]
    }
}

impl Default for RetryConfig {
    fn default() -> (r: RetryConfig)
        ensures
            r.is_default(),
    {
        let mut retry_on: Vec<String> = Vec::new();
        retry_on.push(String::from_str("5xx"));
        retry_on.push(String::from_str("408"));
        retry_on.push(String::from_str("429"));
        assert(texts(retry_on@) =~= seq!["5xx"@, "408"@, "429"@]);
        RetryConfig {
            enabled: true,
            max_attempts: 3,
            backoff_strategy: BackoffStrategy::Exponential {
                initial_delay_ms: 100,
                multiplier: Thousandths { count: 2000 },
                max_delay_ms: 5000,
            },
            retry_on,
        }
    }
}

impl MetricsConfig {
    /// Every metric enabled, no custom labels.
    pub open spec fn is_default(self) -> bool {
        &&& self.enabled
        &&& self.include_request_duration
        &&& self.include_request_count
        &&& self.include_error_count
        &&& self.custom_labels@ == Map::<Seq<char>, Seq<char>>::empty()
    }
}

impl Default for MetricsConfig {
    fn default() -> (r: MetricsConfig)
        ensures
            r.is_default(),
    {
        MetricsConfig {
            enabled: true,
            include_request_duration: true,
            include_request_count: true,
            include_error_count: true,
            custom_labels: StringMap::new(),
        }
    }
}

impl Default for TracingConfig {
    fn default() -> (r: TracingConfig)
        ensures
            r == (TracingConfig {
                enabled: true,
                include_request_body: false,
                include_response_body: false,
                sample_rate: Thousandths { count: 1000 },
            }),
    {
        TracingConfig {
            enabled: true,
            include_request_body: false,
            include_response_body: false,
            sample_rate: Thousandths { count: 1000 },
        }
    }
}

impl TelemetryConfig {
    /// Telemetry enabled, through Prometheus, with the default metrics and
    /// tracing.
    pub open spec fn is_default(self) -> bool {
        &&& self.enabled
        &&& self.provider is Prometheus
        &&& self.metrics.is_default()
        &&& self.tracing == (TracingConfig {
            enabled: true,
            include_request_body: false,
            include_response_body: false,
            sample_rate: Thousandths { count: 1000 },
        })
    }
}

impl Default for TelemetryConfig {
    fn default() -> (r: TelemetryConfig)
        ensures
            r.is_default(),
    {
        TelemetryConfig {
            enabled: true,
            provider: TelemetryProvider::Prometheus,
            metrics: MetricsConfig::default(),
            tracing: TracingConfig::default(),
        }
    }
}

impl Default for CachingConfig {
    fn default() -> (r: CachingConfig)
        ensures
            r == (CachingConfig {
                enabled: false,
                default_ttl_seconds: 300,
                max_cache_size: 1000,
                cache_key_strategy: CacheKeyStrategy::MethodAndParams,
            }),
    {
        CachingConfig {
            enabled: false,
            default_ttl_seconds: 300,
            max_cache_size: 1000,
            cache_key_strategy: CacheKeyStrategy::MethodAndParams,
        }
    }
}

impl FeatureConfig {
    /// The default of each feature, with asynchronous clients.
    pub open spec fn is_default(self) -> bool {
        &&& self.retry.is_default()
        &&& self.telemetry.is_default()
        &&& self.caching == (CachingConfig {
            enabled: false,
            default_ttl_seconds: 300,
            max_cache_size: 1000,
            cache_key_strategy: CacheKeyStrategy::MethodAndParams,
        })
        &&& self.async_support
    }
}

impl Default for FeatureConfig {
    fn default() -> (r: FeatureConfig)
        ensures
            r.is_default(),
    {
        FeatureConfig {
            retry: RetryConfig::default(),
            telemetry: TelemetryConfig::default(),
            caching: CachingConfig::default(),
            async_support: true,
        }
    }
}

impl OutputConfig {
    /// Version 1.0.0 under the MIT license, unnamed, with tests, docs and
    /// formatting.
    pub open spec fn is_default(self) -> bool {
        &&& self.package_name is None
        &&& self.version@ == "1.0.0"@
        &&& self.author is None
        &&& self.license matches Some(l) && l@ == "MIT"@
        &&& self.include_tests
        &&& self.include_docs
        &&& self.format_code
    }

    /// The output options that a run starts from. They are the same for
    /// every language.
    pub fn default_for(language: TargetLanguage) -> (r: OutputConfig)
        ensures
            r.is_default(),
    {
        OutputConfig {
            package_name: None,
            version: String::from_str("1.0.0"),
            author: None,
            license: Some(String::from_str("MIT")),
            include_tests: true,
            include_docs: true,
            format_code: true,
        }
    }
}

impl GeneratorConfig {
    /// The configuration used where no configuration file is given.
    pub fn default_for(input_type: InputType, target_language: TargetLanguage) -> (r:
        GeneratorConfig)
        ensures
            r.input_type == input_type,
            r.target_language == target_language,
            r.features.is_default(),
            r.output_config.is_default(),
            r.authentication is None,
            r.template_overrides is None,
    {
        GeneratorConfig {
            input_type,
            target_language,
            features: FeatureConfig::default(),
            output_config: OutputConfig::default_for(target_language),
            authentication: None,
            template_overrides: None,
        }
    }
}

} // verus!
