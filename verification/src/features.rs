//! Code fragments for the cross-cutting features of a client: retrying,
//! telemetry and caching. A fragment is text in the target language with
//! the dependencies and imports that it needs. Fragments are produced from
//! the configuration alone, and several are merged into one bundle.

use vstd::prelude::*;
use crate::config::{
    BackoffStrategy, CachingConfig, FeatureConfig, RetryConfig, TargetLanguage, TelemetryConfig,
    TelemetryProvider,
};
use crate::snippets::{
    JAVA_RETRY_HEAD, JAVA_RETRY_MIDDLE, JAVA_RETRY_TAIL, JAVA_TELEMETRY_CODE,
    JAVA_CACHING_HEAD, JAVA_CACHING_MIDDLE, JAVA_CACHING_TAIL, PYTHON_RETRY_HEAD,
    PYTHON_RETRY_MIDDLE, PYTHON_RETRY_TAIL, PYTHON_TELEMETRY_CODE, PYTHON_CACHING_HEAD,
    PYTHON_CACHING_MIDDLE, PYTHON_CACHING_TAIL, RUST_RETRY_HEAD, RUST_RETRY_MIDDLE,
    RUST_RETRY_TAIL, RUST_TELEMETRY_CODE, RUST_CACHING_HEAD, RUST_CACHING_MIDDLE,
    RUST_CACHING_TAIL, GO_RETRY_BODY, GO_RETRY_HEAD, GO_RETRY_MIDDLE, GO_RETRY_TAIL, GO_TELEMETRY_CODE,
    GO_CACHING_HEAD, GO_CACHING_TAIL, TYPESCRIPT_RETRY_HEAD, TYPESCRIPT_RETRY_MIDDLE, TYPESCRIPT_RETRY_TAIL,
    TYPESCRIPT_TELEMETRY_CODE, TYPESCRIPT_CACHING_HEAD, TYPESCRIPT_CACHING_MIDDLE,
    TYPESCRIPT_CACHING_TAIL,
};
use crate::sorted::{insert_sorted, lemma_sorted_unique, strictly_sorted};
use crate::string_map::StringMap;
use crate::words::{lemma_commute_iff_share_a_period, share_a_period};
use crate::text::{decimal, join, joined, push_decimal, push_thousandths, texts, thousandths_decimal};

verus! {

/// What stands between the code of two merged fragments.
pub const CODE_SEPARATOR: &'static str = "\n\n";

/// A fragment of feature code for one language.
#[derive(Debug, Clone)]
pub struct FeatureCode {
    /// The packages that the code needs, as the language's build tool names
    /// them.
    pub dependencies: Vec<String>,
    /// The import lines that the code needs.
    pub imports: Vec<String>,
    pub code: String,
    pub configuration: StringMap,
}

/// The mathematical model of a `FeatureCode`.
pub struct FeatureCodeView {
    pub dependencies: Seq<Seq<char>>,
    pub imports: Seq<Seq<char>>,
    pub code: Seq<char>,
    pub configuration: Map<Seq<char>, Seq<char>>,
}

impl View for FeatureCode {
    type V = FeatureCodeView;

    open spec fn view(&self) -> FeatureCodeView {
        FeatureCodeView {
            dependencies: texts(self.dependencies@),
            imports: texts(self.imports@),
            code: self.code@,
            configuration: self.configuration@,
        }
    }
}

/// The models of a list of fragments.
pub open spec fn feature_views(features: Seq<FeatureCode>) -> Seq<FeatureCodeView> {
    features.map_values(|f: FeatureCode| f@)
}

fn push_text(v: &mut Vec<String>, s: &str)
    ensures
        texts(final(v)@) == texts(old(v)@).push(s@),
{
    v.push(String::from_str(s));
    assert(texts(v@) =~= texts(old(v)@).push(s@));
}

/// How the Java fragment configures the wait between attempts.
pub open spec fn java_backoff(strategy: BackoffStrategy) -> Seq<char> {
    match strategy {
        BackoffStrategy::Fixed { delay_ms } => ".withDelay(Duration.ofMillis("@ + decimal(
            delay_ms as nat,
        ) + "))"@,
        BackoffStrategy::Exponential { initial_delay_ms, multiplier, max_delay_ms } =>
            ".withBackoff(Duration.ofMillis("@ + decimal(initial_delay_ms as nat)
                + "), Duration.ofMillis("@ + decimal(max_delay_ms as nat) + "), "@
                + thousandths_decimal(multiplier.count as nat) + ")"@,
        BackoffStrategy::Linear { initial_delay_ms, increment_ms } =>
            ".withDelay(Duration.ofMillis("@ + decimal(initial_delay_ms as nat)
                + "), Duration.ofMillis("@ + decimal(increment_ms as nat) + "))"@,
    }
}

/// How the Python fragment configures the wait between attempts. Delays
/// are given in seconds.
pub open spec fn python_backoff(strategy: BackoffStrategy) -> Seq<char> {
    match strategy {
        BackoffStrategy::Fixed { delay_ms } => "wait_fixed("@ + thousandths_decimal(
            delay_ms as nat,
        ) + ")"@,
        BackoffStrategy::Exponential { initial_delay_ms, multiplier, max_delay_ms } =>
            "wait_exponential(multiplier="@ + thousandths_decimal(multiplier.count as nat)
                + ", min="@ + thousandths_decimal(initial_delay_ms as nat) + ", max="@
                + thousandths_decimal(max_delay_ms as nat) + ")"@,
        BackoffStrategy::Linear { initial_delay_ms, increment_ms } => "wait_incrementing(start="@
            + thousandths_decimal(initial_delay_ms as nat) + ", increment="@ + thousandths_decimal(
            increment_ms as nat,
        ) + ")"@,
    }
}

/// How the Rust fragment configures the wait between attempts. A linear
/// strategy is rendered as a Fibonacci backoff capped at ten times the
/// increment.
pub open spec fn rust_backoff(strategy: BackoffStrategy) -> Seq<char> {
    match strategy {
        BackoffStrategy::Fixed { delay_ms } => "FixedInterval::from_millis("@ + decimal(
            delay_ms as nat,
        ) + ")"@,
        BackoffStrategy::Exponential { initial_delay_ms, multiplier, max_delay_ms } =>
            "ExponentialBackoff::from_millis("@ + decimal(initial_delay_ms as nat) + ").factor("@
                + thousandths_decimal(multiplier.count as nat)
                + ").max_delay(Duration::from_millis("@ + decimal(max_delay_ms as nat) + "))"@,
        BackoffStrategy::Linear { initial_delay_ms, increment_ms } =>
            "FibonacciBackoff::from_millis("@ + decimal(initial_delay_ms as nat)
                + ").max_delay(Duration::from_millis("@ + decimal((increment_ms * 10) as nat)
                + "))"@,
    }
}

/// The Go statements that set the delay before the next attempt, in
/// milliseconds, from the number of the attempt.
pub open spec fn go_backoff(strategy: BackoffStrategy) -> Seq<char> {
    match strategy {
        BackoffStrategy::Fixed { delay_ms } => "delay := "@ + decimal(delay_ms as nat)
            + " * time.Millisecond"@,
        BackoffStrategy::Exponential { initial_delay_ms, multiplier, max_delay_ms } =>
            "delay := time.Duration(float64("@ + decimal(initial_delay_ms as nat)
                + ") * math.Pow("@ + thousandths_decimal(multiplier.count as nat)
                + ", float64(attempt))) * time.Millisecond\n            if delay > "@ + decimal(
                max_delay_ms as nat,
            ) + "*time.Millisecond {\n                delay = "@ + decimal(max_delay_ms as nat)
                + " * time.Millisecond\n            }"@,
        BackoffStrategy::Linear { initial_delay_ms, increment_ms } => "delay := time.Duration("@
            + decimal(initial_delay_ms as nat) + "+int64(attempt)*"@ + decimal(
            increment_ms as nat,
        ) + ") * time.Millisecond"@,
    }
}

/// The TypeScript expression of the delay before the next attempt, in
/// milliseconds, from the number of the attempt.
pub open spec fn typescript_backoff(strategy: BackoffStrategy) -> Seq<char> {
    match strategy {
        BackoffStrategy::Fixed { delay_ms } => decimal(delay_ms as nat),
        BackoffStrategy::Exponential { initial_delay_ms, multiplier, max_delay_ms } =>
            "Math.min("@ + decimal(initial_delay_ms as nat) + " * Math.pow("@
                + thousandths_decimal(multiplier.count as nat) + ", attempt), "@ + decimal(
                max_delay_ms as nat,
            ) + ")"@,
        BackoffStrategy::Linear { initial_delay_ms, increment_ms } => decimal(
            initial_delay_ms as nat,
        ) + " + attempt * "@ + decimal(increment_ms as nat),
    }
}

fn push_go_backoff(out: &mut String, strategy: BackoffStrategy)
    ensures
        final(out)@ == old(out)@ + go_backoff(strategy),
{
    match strategy {
        BackoffStrategy::Fixed { delay_ms } => {
            out.append("delay := ");
            push_decimal(out, delay_ms as u128);
            out.append(" * time.Millisecond");
        },
        BackoffStrategy::Exponential { initial_delay_ms, multiplier, max_delay_ms } => {
            out.append("delay := time.Duration(float64(");
            push_decimal(out, initial_delay_ms as u128);
            out.append(") * math.Pow(");
            push_thousandths(out, multiplier.count);
            out.append(", float64(attempt))) * time.Millisecond\n            if delay > ");
            push_decimal(out, max_delay_ms as u128);
            out.append("*time.Millisecond {\n                delay = ");
            push_decimal(out, max_delay_ms as u128);
            out.append(" * time.Millisecond\n            }");
        },
        BackoffStrategy::Linear { initial_delay_ms, increment_ms } => {
            out.append("delay := time.Duration(");
            push_decimal(out, initial_delay_ms as u128);
            out.append("+int64(attempt)*");
            push_decimal(out, increment_ms as u128);
            out.append(") * time.Millisecond");
        },
    }
    assert(final(out)@ =~= old(out)@ + go_backoff(strategy));
}

fn push_typescript_backoff(out: &mut String, strategy: BackoffStrategy)
    ensures
        final(out)@ == old(out)@ + typescript_backoff(strategy),
{
    match strategy {
        BackoffStrategy::Fixed { delay_ms } => {
            push_decimal(out, delay_ms as u128);
        },
        BackoffStrategy::Exponential { initial_delay_ms, multiplier, max_delay_ms } => {
            out.append("Math.min(");
            push_decimal(out, initial_delay_ms as u128);
            out.append(" * Math.pow(");
            push_thousandths(out, multiplier.count);
            out.append(", attempt), ");
            push_decimal(out, max_delay_ms as u128);
            out.append(")");
        },
        BackoffStrategy::Linear { initial_delay_ms, increment_ms } => {
            push_decimal(out, initial_delay_ms as u128);
            out.append(" + attempt * ");
            push_decimal(out, increment_ms as u128);
        },
    }
    assert(final(out)@ =~= old(out)@ + typescript_backoff(strategy));
}

fn push_java_backoff(out: &mut String, strategy: BackoffStrategy)
    ensures
        final(out)@ == old(out)@ + java_backoff(strategy),
{
    match strategy {
        BackoffStrategy::Fixed { delay_ms } => {
            out.append(".withDelay(Duration.ofMillis(");
            push_decimal(out, delay_ms as u128);
            out.append("))");
        },
        BackoffStrategy::Exponential { initial_delay_ms, multiplier, max_delay_ms } => {
            out.append(".withBackoff(Duration.ofMillis(");
            push_decimal(out, initial_delay_ms as u128);
            out.append("), Duration.ofMillis(");
            push_decimal(out, max_delay_ms as u128);
            out.append("), ");
            push_thousandths(out, multiplier.count);
            out.append(")");
        },
        BackoffStrategy::Linear { initial_delay_ms, increment_ms } => {
            out.append(".withDelay(Duration.ofMillis(");
            push_decimal(out, initial_delay_ms as u128);
            out.append("), Duration.ofMillis(");
            push_decimal(out, increment_ms as u128);
            out.append("))");
        },
    }
    assert(final(out)@ =~= old(out)@ + java_backoff(strategy));
}

fn push_python_backoff(out: &mut String, strategy: BackoffStrategy)
    ensures
        final(out)@ == old(out)@ + python_backoff(strategy),
{
    match strategy {
        BackoffStrategy::Fixed { delay_ms } => {
            out.append("wait_fixed(");
            push_thousandths(out, delay_ms);
            out.append(")");
        },
        BackoffStrategy::Exponential { initial_delay_ms, multiplier, max_delay_ms } => {
            out.append("wait_exponential(multiplier=");
            push_thousandths(out, multiplier.count);
            out.append(", min=");
            push_thousandths(out, initial_delay_ms);
            out.append(", max=");
            push_thousandths(out, max_delay_ms);
            out.append(")");
        },
        BackoffStrategy::Linear { initial_delay_ms, increment_ms } => {
            out.append("wait_incrementing(start=");
            push_thousandths(out, initial_delay_ms);
            out.append(", increment=");
            push_thousandths(out, increment_ms);
            out.append(")");
        },
    }
    assert(final(out)@ =~= old(out)@ + python_backoff(strategy));
}

fn push_rust_backoff(out: &mut String, strategy: BackoffStrategy)
    ensures
        final(out)@ == old(out)@ + rust_backoff(strategy),
{
    match strategy {
        BackoffStrategy::Fixed { delay_ms } => {
            out.append("FixedInterval::from_millis(");
            push_decimal(out, delay_ms as u128);
            out.append(")");
        },
        BackoffStrategy::Exponential { initial_delay_ms, multiplier, max_delay_ms } => {
            out.append("ExponentialBackoff::from_millis(");
            push_decimal(out, initial_delay_ms as u128);
            out.append(").factor(");
            push_thousandths(out, multiplier.count);
            out.append(").max_delay(Duration::from_millis(");
            push_decimal(out, max_delay_ms as u128);
            out.append("))");
        },
        BackoffStrategy::Linear { initial_delay_ms, increment_ms } => {
            out.append("FibonacciBackoff::from_millis(");
            push_decimal(out, initial_delay_ms as u128);
            out.append(").max_delay(Duration::from_millis(");
            push_decimal(out, (increment_ms as u128) * 10);
            out.append("))");
        },
    }
    assert(final(out)@ =~= old(out)@ + rust_backoff(strategy));
}

/// The retry fragment for Java.
pub open spec fn java_retry(max_attempts: u32, strategy: BackoffStrategy) -> FeatureCodeView {
    FeatureCodeView {
        dependencies: seq!["dev.failsafe:failsafe:3.3.2"@, "dev.failsafe:failsafe-okhttp:3.3.2"@],
        imports: seq!["import dev.failsafe.Failsafe;"@, "import dev.failsafe.RetryPolicy;"@, "import java.time.Duration;"@],
        code: JAVA_RETRY_HEAD@ + decimal(max_attempts as nat) + JAVA_RETRY_MIDDLE@ + java_backoff(strategy) + JAVA_RETRY_TAIL@,
        configuration: Map::empty(),
    }
}

/// The telemetry fragment for Java.
pub open spec fn java_telemetry(provider: TelemetryProvider) -> FeatureCodeView {
    FeatureCodeView {
        dependencies: {
            let base = seq!["io.micrometer:micrometer-core:1.12.0"@];
            match provider {
                TelemetryProvider::Prometheus => base + seq!["io.micrometer:micrometer-registry-prometheus:1.12.0"@],
                TelemetryProvider::OpenTelemetry => base + seq!["io.opentelemetry:opentelemetry-api:1.32.0"@],
                _ => base,
            }
        },
        imports: {
            let base = seq!["import io.micrometer.core.instrument.MeterRegistry;"@, "import io.micrometer.core.instrument.Timer;"@, "import io.micrometer.core.instrument.Counter;"@];
            match provider {
                TelemetryProvider::Prometheus => base + seq!["import io.micrometer.prometheus.PrometheusConfig;"@, "import io.micrometer.prometheus.PrometheusMeterRegistry;"@],
                TelemetryProvider::OpenTelemetry => base + seq!["import io.opentelemetry.api.OpenTelemetry;"@],
                _ => base,
            }
        },
        code: JAVA_TELEMETRY_CODE@,
        configuration: Map::empty(),
    }
}

/// The caching fragment for Java.
pub open spec fn java_caching(max_cache_size: usize, default_ttl_seconds: u64) -> FeatureCodeView {
    FeatureCodeView {
        dependencies: seq!["com.github.ben-manes.caffeine:caffeine:3.1.8"@],
        imports: seq!["import com.github.benmanes.caffeine.cache.Cache;"@, "import com.github.benmanes.caffeine.cache.Caffeine;"@, "import java.time.Duration;"@],
        code: JAVA_CACHING_HEAD@ + decimal(max_cache_size as nat) + JAVA_CACHING_MIDDLE@ + decimal(default_ttl_seconds as nat) + JAVA_CACHING_TAIL@,
        configuration: Map::empty(),
    }
}

/// The retry fragment for Python.
pub open spec fn python_retry(max_attempts: u32, strategy: BackoffStrategy) -> FeatureCodeView {
    FeatureCodeView {
        dependencies: seq!["tenacity>=8.2.0"@],
        imports: seq!["from tenacity import retry, stop_after_attempt, wait_exponential, retry_if_exception_type"@, "import httpx"@],
        code: PYTHON_RETRY_HEAD@ + decimal(max_attempts as nat) + PYTHON_RETRY_MIDDLE@ + python_backoff(strategy) + PYTHON_RETRY_TAIL@,
        configuration: Map::empty(),
    }
}

/// The telemetry fragment for Python.
pub open spec fn python_telemetry(provider: TelemetryProvider) -> FeatureCodeView {
    FeatureCodeView {
        dependencies: {
            let base = seq!["prometheus-client>=0.19.0"@];
            match provider {
                TelemetryProvider::OpenTelemetry => base + seq!["opentelemetry-api>=1.21.0"@],
                _ => base,
            }
        },
        imports: {
            let base = seq!["from prometheus_client import Counter, Histogram, CollectorRegistry"@, "import time"@];
            match provider {
                TelemetryProvider::OpenTelemetry => base + seq!["from opentelemetry import trace"@],
                _ => base,
            }
        },
        code: PYTHON_TELEMETRY_CODE@,
        configuration: Map::empty(),
    }
}

/// The caching fragment for Python.
pub open spec fn python_caching(max_cache_size: usize, default_ttl_seconds: u64) -> FeatureCodeView {
    FeatureCodeView {
        dependencies: seq!["cachetools>=5.3.0"@],
        imports: seq!["from cachetools import TTLCache"@, "import hashlib"@, "import json"@],
        code: PYTHON_CACHING_HEAD@ + decimal(max_cache_size as nat) + PYTHON_CACHING_MIDDLE@ + decimal(default_ttl_seconds as nat) + PYTHON_CACHING_TAIL@,
        configuration: Map::empty(),
    }
}

/// The retry fragment for Rust.
pub open spec fn rust_retry(max_attempts: u32, strategy: BackoffStrategy) -> FeatureCodeView {
    FeatureCodeView {
        dependencies: seq!["tokio-retry = \"0.3\""@, "tokio = { version = \"1.0\", features = [\"time\"] }"@],
        imports: seq!["use tokio_retry::{strategy::*, Retry};"@, "use std::time::Duration;"@],
        code: RUST_RETRY_HEAD@ + rust_backoff(strategy) + RUST_RETRY_MIDDLE@ + decimal(max_attempts as nat) + RUST_RETRY_TAIL@,
        configuration: Map::empty(),
    }
}

/// The telemetry fragment for Rust.
pub open spec fn rust_telemetry(provider: TelemetryProvider) -> FeatureCodeView {
    FeatureCodeView {
        dependencies: {
            let base = seq!["prometheus = \"0.13\""@, "lazy_static = \"1.4\""@];
            match provider {
                TelemetryProvider::OpenTelemetry => base + seq!["opentelemetry = \"0.21\""@],
                _ => base,
            }
        },
        imports: {
            let base = seq!["use prometheus::{Counter, Histogram, Registry, Opts, HistogramOpts};"@, "use lazy_static::lazy_static;"@, "use std::time::Instant;"@];
            match provider {
                TelemetryProvider::OpenTelemetry => base + seq!["use opentelemetry::{trace::Tracer, global};"@],
                _ => base,
            }
        },
        code: RUST_TELEMETRY_CODE@,
        configuration: Map::empty(),
    }
}

/// The caching fragment for Rust.
pub open spec fn rust_caching(max_cache_size: usize, default_ttl_seconds: u64) -> FeatureCodeView {
    FeatureCodeView {
        dependencies: seq!["moka = { version = \"0.12\", features = [\"future\"] }"@, "tokio = { version = \"1.0\", features = [\"time\"] }"@],
        imports: seq!["use moka::future::Cache;"@, "use std::time::Duration;"@, "use std::hash::{Hash, Hasher};"@, "use std::collections::hash_map::DefaultHasher;"@],
        code: RUST_CACHING_HEAD@ + decimal(max_cache_size as nat) + RUST_CACHING_MIDDLE@ + decimal(default_ttl_seconds as nat) + RUST_CACHING_TAIL@,
        configuration: Map::empty(),
    }
}

/// The retry fragment for Go.
pub open spec fn go_retry(max_attempts: u32, strategy: BackoffStrategy) -> FeatureCodeView {
    FeatureCodeView {
        dependencies: Seq::<Seq<char>>::empty(),
        imports: if strategy is Exponential {
            seq!["time"@, "math"@]
        } else {
            seq!["time"@]
        },
        code: GO_RETRY_HEAD@ + decimal(max_attempts as nat) + GO_RETRY_MIDDLE@ + decimal(
            max_attempts as nat,
        ) + GO_RETRY_BODY@ + go_backoff(strategy) + GO_RETRY_TAIL@,
        configuration: Map::empty(),
    }
}

/// The telemetry fragment for Go.
pub open spec fn go_telemetry(provider: TelemetryProvider) -> FeatureCodeView {
    FeatureCodeView {
        dependencies: seq!["github.com/prometheus/client_golang/prometheus"@],
        imports: seq!["github.com/prometheus/client_golang/prometheus"@, "time"@],
        code: GO_TELEMETRY_CODE@,
        configuration: Map::empty(),
    }
}

/// The caching fragment for Go.
pub open spec fn go_caching(max_cache_size: usize, default_ttl_seconds: u64) -> FeatureCodeView {
    FeatureCodeView {
        dependencies: seq!["github.com/patrickmn/go-cache"@],
        imports: seq!["github.com/patrickmn/go-cache"@, "time"@, "crypto/md5"@, "fmt"@],
        code: GO_CACHING_HEAD@ + decimal(default_ttl_seconds as nat) + GO_CACHING_TAIL@,
        configuration: Map::empty(),
    }
}

/// The retry fragment for TypeScript.
pub open spec fn typescript_retry(max_attempts: u32, strategy: BackoffStrategy) -> FeatureCodeView {
    FeatureCodeView {
        dependencies: Seq::<Seq<char>>::empty(),
        imports: Seq::<Seq<char>>::empty(),
        code: TYPESCRIPT_RETRY_HEAD@ + decimal(max_attempts as nat) + TYPESCRIPT_RETRY_MIDDLE@
            + typescript_backoff(strategy) + TYPESCRIPT_RETRY_TAIL@,
        configuration: Map::empty(),
    }
}

/// The telemetry fragment for TypeScript.
pub open spec fn typescript_telemetry(provider: TelemetryProvider) -> FeatureCodeView {
    FeatureCodeView {
        dependencies: seq!["prom-client"@],
        imports: seq!["import { Counter, Histogram, register } from 'prom-client';"@],
        code: TYPESCRIPT_TELEMETRY_CODE@,
        configuration: Map::empty(),
    }
}

/// The caching fragment for TypeScript.
pub open spec fn typescript_caching(max_cache_size: usize, default_ttl_seconds: u64) -> FeatureCodeView {
    FeatureCodeView {
        dependencies: seq!["node-cache"@],
        imports: seq!["import NodeCache from 'node-cache';"@, "import crypto from 'crypto';"@],
        code: TYPESCRIPT_CACHING_HEAD@ + decimal(default_ttl_seconds as nat) + TYPESCRIPT_CACHING_MIDDLE@ + decimal(max_cache_size as nat) + TYPESCRIPT_CACHING_TAIL@,
        configuration: Map::empty(),
    }
}

/// The retry fragment of each language.
pub open spec fn retry_feature(
    language: TargetLanguage,
    max_attempts: u32,
    strategy: BackoffStrategy,
) -> FeatureCodeView {
    match language {
        TargetLanguage::Java => java_retry(max_attempts, strategy),
        TargetLanguage::Python => python_retry(max_attempts, strategy),
        TargetLanguage::Rust => rust_retry(max_attempts, strategy),
        TargetLanguage::Go => go_retry(max_attempts, strategy),
        TargetLanguage::TypeScript => typescript_retry(max_attempts, strategy),
    }
}

/// The telemetry fragment of each language.
pub open spec fn telemetry_feature(
    language: TargetLanguage,
    provider: TelemetryProvider,
) -> FeatureCodeView {
    match language {
        TargetLanguage::Java => java_telemetry(provider),
        TargetLanguage::Python => python_telemetry(provider),
        TargetLanguage::Rust => rust_telemetry(provider),
        TargetLanguage::Go => go_telemetry(provider),
        TargetLanguage::TypeScript => typescript_telemetry(provider),
    }
}

/// The caching fragment of each language.
pub open spec fn caching_feature(
    language: TargetLanguage,
    max_cache_size: usize,
    default_ttl_seconds: u64,
) -> FeatureCodeView {
    match language {
        TargetLanguage::Java => java_caching(max_cache_size, default_ttl_seconds),
        TargetLanguage::Python => python_caching(max_cache_size, default_ttl_seconds),
        TargetLanguage::Rust => rust_caching(max_cache_size, default_ttl_seconds),
        TargetLanguage::Go => go_caching(max_cache_size, default_ttl_seconds),
        TargetLanguage::TypeScript => typescript_caching(max_cache_size, default_ttl_seconds),
    }
}

/// The features that fragments are produced for.
#[derive(Debug, Clone, Copy, PartialEq, Eq, Structural)]
pub enum FeatureKind {
    Retry,
    Telemetry,
    Caching,
}

/// The fragment of a feature in a language, for the settings of that
/// feature.
pub open spec fn feature_of(
    kind: FeatureKind,
    language: TargetLanguage,
    features: FeatureConfig,
) -> FeatureCodeView {
    match kind {
        FeatureKind::Retry => retry_feature(
            language,
            features.retry.max_attempts,
            features.retry.backoff_strategy,
        ),
        FeatureKind::Telemetry => telemetry_feature(language, features.telemetry.provider),
        FeatureKind::Caching => caching_feature(
            language,
            features.caching.max_cache_size,
            features.caching.default_ttl_seconds,
        ),
    }
}

/// Produces the feature fragments of one target language.
pub struct FeatureGenerator {
    language: TargetLanguage,
}

impl FeatureGenerator {
    /// The language that fragments are produced for.
    pub closed spec fn language(&self) -> TargetLanguage {
        self.language
    }

    pub fn new(language: TargetLanguage) -> (r: FeatureGenerator)
        ensures
            r.language() == language,
    {
        FeatureGenerator { language }
    }

    /// The fragment of a feature. It is a function of the feature, the
    /// language and the settings: the same inputs give the same fragment,
    /// to the byte.
    pub fn synthesize(&self, kind: FeatureKind, features: &FeatureConfig) -> (r: FeatureCode)
        ensures
            r@ == feature_of(kind, self.language(), *features),
    {
        match kind {
            FeatureKind::Retry => self.generate_retry_code(&features.retry),
            FeatureKind::Telemetry => self.generate_telemetry_code(&features.telemetry),
            FeatureKind::Caching => self.generate_caching_code(&features.caching),
        }
    }

    /// The retry fragment: a helper that runs an operation up to the
    /// configured number of attempts.
    pub fn generate_retry_code(&self, config: &RetryConfig) -> (r: FeatureCode)
        ensures
            r@ == retry_feature(self.language(), config.max_attempts, config.backoff_strategy),
    {
        match self.language {
            TargetLanguage::Java => self.generate_java_retry(config),
            TargetLanguage::Python => self.generate_python_retry(config),
            TargetLanguage::Rust => self.generate_rust_retry(config),
            TargetLanguage::Go => self.generate_go_retry(config),
            TargetLanguage::TypeScript => self.generate_typescript_retry(config),
        }
    }

    /// The telemetry fragment: a handler that records request metrics.
    pub fn generate_telemetry_code(&self, config: &TelemetryConfig) -> (r: FeatureCode)
        ensures
            r@ == telemetry_feature(self.language(), config.provider),
    {
        match self.language {
            TargetLanguage::Java => self.generate_java_telemetry(config),
            TargetLanguage::Python => self.generate_python_telemetry(config),
            TargetLanguage::Rust => self.generate_rust_telemetry(config),
            TargetLanguage::Go => self.generate_go_telemetry(config),
            TargetLanguage::TypeScript => self.generate_typescript_telemetry(config),
        }
    }

    /// The caching fragment: a cache handler of the configured size and
    /// time to live.
    pub fn generate_caching_code(&self, config: &CachingConfig) -> (r: FeatureCode)
        ensures
            r@ == caching_feature(
                self.language(),
                config.max_cache_size,
                config.default_ttl_seconds,
            ),
    {
        match self.language {
            TargetLanguage::Java => self.generate_java_caching(config),
            TargetLanguage::Python => self.generate_python_caching(config),
            TargetLanguage::Rust => self.generate_rust_caching(config),
            TargetLanguage::Go => self.generate_go_caching(config),
            TargetLanguage::TypeScript => self.generate_typescript_caching(config),
        }
    }

    fn generate_java_retry(&self, config: &RetryConfig) -> (r: FeatureCode)
        ensures
            r@ == java_retry(config.max_attempts, config.backoff_strategy),
    {
        let mut dependencies: Vec<String> = Vec::new();
        push_text(&mut dependencies, "dev.failsafe:failsafe:3.3.2");
        push_text(&mut dependencies, "dev.failsafe:failsafe-okhttp:3.3.2");
        let mut imports: Vec<String> = Vec::new();
        push_text(&mut imports, "import dev.failsafe.Failsafe;");
        push_text(&mut imports, "import dev.failsafe.RetryPolicy;");
        push_text(&mut imports, "import java.time.Duration;");
        let mut code = String::from_str(JAVA_RETRY_HEAD);
        push_decimal(&mut code, config.max_attempts as u128);
        code.append(JAVA_RETRY_MIDDLE);
        push_java_backoff(&mut code, config.backoff_strategy);
        code.append(JAVA_RETRY_TAIL);
        let r = FeatureCode { dependencies, imports, code, configuration: StringMap::new() };
        proof {
            let expected = java_retry(config.max_attempts, config.backoff_strategy);
            assert(r@.dependencies =~= expected.dependencies);
            assert(r@.imports =~= expected.imports);
        }
        r
    }

    fn generate_java_telemetry(&self, config: &TelemetryConfig) -> (r: FeatureCode)
        ensures
            r@ == java_telemetry(config.provider),
    {
        let mut dependencies: Vec<String> = Vec::new();
        push_text(&mut dependencies, "io.micrometer:micrometer-core:1.12.0");
        let mut imports: Vec<String> = Vec::new();
        push_text(&mut imports, "import io.micrometer.core.instrument.MeterRegistry;");
        push_text(&mut imports, "import io.micrometer.core.instrument.Timer;");
        push_text(&mut imports, "import io.micrometer.core.instrument.Counter;");
        match &config.provider {
            TelemetryProvider::Prometheus => {
                push_text(&mut dependencies, "io.micrometer:micrometer-registry-prometheus:1.12.0");
                push_text(&mut imports, "import io.micrometer.prometheus.PrometheusConfig;");
                push_text(&mut imports, "import io.micrometer.prometheus.PrometheusMeterRegistry;");
            },
            TelemetryProvider::OpenTelemetry => {
                push_text(&mut dependencies, "io.opentelemetry:opentelemetry-api:1.32.0");
                push_text(&mut imports, "import io.opentelemetry.api.OpenTelemetry;");
            },
            _ => {},
        }
        let code = String::from_str(JAVA_TELEMETRY_CODE);
        let r = FeatureCode { dependencies, imports, code, configuration: StringMap::new() };
        proof {
            let expected = java_telemetry(config.provider);
            assert(r@.dependencies =~= expected.dependencies);
            assert(r@.imports =~= expected.imports);
        }
        r
    }

    fn generate_java_caching(&self, config: &CachingConfig) -> (r: FeatureCode)
        ensures
            r@ == java_caching(config.max_cache_size, config.default_ttl_seconds),
    {
        let mut dependencies: Vec<String> = Vec::new();
        push_text(&mut dependencies, "com.github.ben-manes.caffeine:caffeine:3.1.8");
        let mut imports: Vec<String> = Vec::new();
        push_text(&mut imports, "import com.github.benmanes.caffeine.cache.Cache;");
        push_text(&mut imports, "import com.github.benmanes.caffeine.cache.Caffeine;");
        push_text(&mut imports, "import java.time.Duration;");
        let mut code = String::from_str(JAVA_CACHING_HEAD);
        push_decimal(&mut code, config.max_cache_size as u128);
        code.append(JAVA_CACHING_MIDDLE);
        push_decimal(&mut code, config.default_ttl_seconds as u128);
        code.append(JAVA_CACHING_TAIL);
        let r = FeatureCode { dependencies, imports, code, configuration: StringMap::new() };
        proof {
            let expected = java_caching(config.max_cache_size, config.default_ttl_seconds);
            assert(r@.dependencies =~= expected.dependencies);
            assert(r@.imports =~= expected.imports);
        }
        r
    }

    fn generate_python_retry(&self, config: &RetryConfig) -> (r: FeatureCode)
        ensures
            r@ == python_retry(config.max_attempts, config.backoff_strategy),
    {
        let mut dependencies: Vec<String> = Vec::new();
        push_text(&mut dependencies, "tenacity>=8.2.0");
        let mut imports: Vec<String> = Vec::new();
        push_text(&mut imports, "from tenacity import retry, stop_after_attempt, wait_exponential, retry_if_exception_type");
        push_text(&mut imports, "import httpx");
        let mut code = String::from_str(PYTHON_RETRY_HEAD);
        push_decimal(&mut code, config.max_attempts as u128);
        code.append(PYTHON_RETRY_MIDDLE);
        push_python_backoff(&mut code, config.backoff_strategy);
        code.append(PYTHON_RETRY_TAIL);
        let r = FeatureCode { dependencies, imports, code, configuration: StringMap::new() };
        proof {
            let expected = python_retry(config.max_attempts, config.backoff_strategy);
            assert(r@.dependencies =~= expected.dependencies);
            assert(r@.imports =~= expected.imports);
        }
        r
    }

    fn generate_python_telemetry(&self, config: &TelemetryConfig) -> (r: FeatureCode)
        ensures
            r@ == python_telemetry(config.provider),
    {
        let mut dependencies: Vec<String> = Vec::new();
        push_text(&mut dependencies, "prometheus-client>=0.19.0");
        let mut imports: Vec<String> = Vec::new();
        push_text(&mut imports, "from prometheus_client import Counter, Histogram, CollectorRegistry");
        push_text(&mut imports, "import time");
        match &config.provider {
            TelemetryProvider::OpenTelemetry => {
                push_text(&mut dependencies, "opentelemetry-api>=1.21.0");
                push_text(&mut imports, "from opentelemetry import trace");
            },
            _ => {},
        }
        let code = String::from_str(PYTHON_TELEMETRY_CODE);
        let r = FeatureCode { dependencies, imports, code, configuration: StringMap::new() };
        proof {
            let expected = python_telemetry(config.provider);
            assert(r@.dependencies =~= expected.dependencies);
            assert(r@.imports =~= expected.imports);
        }
        r
    }

    fn generate_python_caching(&self, config: &CachingConfig) -> (r: FeatureCode)
        ensures
            r@ == python_caching(config.max_cache_size, config.default_ttl_seconds),
    {
        let mut dependencies: Vec<String> = Vec::new();
        push_text(&mut dependencies, "cachetools>=5.3.0");
        let mut imports: Vec<String> = Vec::new();
        push_text(&mut imports, "from cachetools import TTLCache");
        push_text(&mut imports, "import hashlib");
        push_text(&mut imports, "import json");
        let mut code = String::from_str(PYTHON_CACHING_HEAD);
        push_decimal(&mut code, config.max_cache_size as u128);
        code.append(PYTHON_CACHING_MIDDLE);
        push_decimal(&mut code, config.default_ttl_seconds as u128);
        code.append(PYTHON_CACHING_TAIL);
        let r = FeatureCode { dependencies, imports, code, configuration: StringMap::new() };
        proof {
            let expected = python_caching(config.max_cache_size, config.default_ttl_seconds);
            assert(r@.dependencies =~= expected.dependencies);
            assert(r@.imports =~= expected.imports);
        }
        r
    }

    fn generate_rust_retry(&self, config: &RetryConfig) -> (r: FeatureCode)
        ensures
            r@ == rust_retry(config.max_attempts, config.backoff_strategy),
    {
        let mut dependencies: Vec<String> = Vec::new();
        push_text(&mut dependencies, "tokio-retry = \"0.3\"");
        push_text(&mut dependencies, "tokio = { version = \"1.0\", features = [\"time\"] }");
        let mut imports: Vec<String> = Vec::new();
        push_text(&mut imports, "use tokio_retry::{strategy::*, Retry};");
        push_text(&mut imports, "use std::time::Duration;");
        let mut code = String::from_str(RUST_RETRY_HEAD);
        push_rust_backoff(&mut code, config.backoff_strategy);
        code.append(RUST_RETRY_MIDDLE);
        push_decimal(&mut code, config.max_attempts as u128);
        code.append(RUST_RETRY_TAIL);
        let r = FeatureCode { dependencies, imports, code, configuration: StringMap::new() };
        proof {
            let expected = rust_retry(config.max_attempts, config.backoff_strategy);
            assert(r@.dependencies =~= expected.dependencies);
            assert(r@.imports =~= expected.imports);
        }
        r
    }

    fn generate_rust_telemetry(&self, config: &TelemetryConfig) -> (r: FeatureCode)
        ensures
            r@ == rust_telemetry(config.provider),
    {
        let mut dependencies: Vec<String> = Vec::new();
        push_text(&mut dependencies, "prometheus = \"0.13\"");
        push_text(&mut dependencies, "lazy_static = \"1.4\"");
        let mut imports: Vec<String> = Vec::new();
        push_text(&mut imports, "use prometheus::{Counter, Histogram, Registry, Opts, HistogramOpts};");
        push_text(&mut imports, "use lazy_static::lazy_static;");
        push_text(&mut imports, "use std::time::Instant;");
        match &config.provider {
            TelemetryProvider::OpenTelemetry => {
                push_text(&mut dependencies, "opentelemetry = \"0.21\"");
                push_text(&mut imports, "use opentelemetry::{trace::Tracer, global};");
            },
            _ => {},
        }
        let code = String::from_str(RUST_TELEMETRY_CODE);
        let r = FeatureCode { dependencies, imports, code, configuration: StringMap::new() };
        proof {
            let expected = rust_telemetry(config.provider);
            assert(r@.dependencies =~= expected.dependencies);
            assert(r@.imports =~= expected.imports);
        }
        r
    }

    fn generate_rust_caching(&self, config: &CachingConfig) -> (r: FeatureCode)
        ensures
            r@ == rust_caching(config.max_cache_size, config.default_ttl_seconds),
    {
        let mut dependencies: Vec<String> = Vec::new();
        push_text(&mut dependencies, "moka = { version = \"0.12\", features = [\"future\"] }");
        push_text(&mut dependencies, "tokio = { version = \"1.0\", features = [\"time\"] }");
        let mut imports: Vec<String> = Vec::new();
        push_text(&mut imports, "use moka::future::Cache;");
        push_text(&mut imports, "use std::time::Duration;");
        push_text(&mut imports, "use std::hash::{Hash, Hasher};");
        push_text(&mut imports, "use std::collections::hash_map::DefaultHasher;");
        let mut code = String::from_str(RUST_CACHING_HEAD);
        push_decimal(&mut code, config.max_cache_size as u128);
        code.append(RUST_CACHING_MIDDLE);
        push_decimal(&mut code, config.default_ttl_seconds as u128);
        code.append(RUST_CACHING_TAIL);
        let r = FeatureCode { dependencies, imports, code, configuration: StringMap::new() };
        proof {
            let expected = rust_caching(config.max_cache_size, config.default_ttl_seconds);
            assert(r@.dependencies =~= expected.dependencies);
            assert(r@.imports =~= expected.imports);
        }
        r
    }

    fn generate_go_retry(&self, config: &RetryConfig) -> (r: FeatureCode)
        ensures
            r@ == go_retry(config.max_attempts, config.backoff_strategy),
    {
        let mut dependencies: Vec<String> = Vec::new();
        let mut imports: Vec<String> = Vec::new();
        push_text(&mut imports, "time");
        match config.backoff_strategy {
            BackoffStrategy::Exponential { .. } => {
                push_text(&mut imports, "math");
            },
            _ => {},
        }
        let mut code = String::from_str(GO_RETRY_HEAD);
        push_decimal(&mut code, config.max_attempts as u128);
        code.append(GO_RETRY_MIDDLE);
        push_decimal(&mut code, config.max_attempts as u128);
        code.append(GO_RETRY_BODY);
        push_go_backoff(&mut code, config.backoff_strategy);
        code.append(GO_RETRY_TAIL);
        let r = FeatureCode { dependencies, imports, code, configuration: StringMap::new() };
        proof {
            let expected = go_retry(config.max_attempts, config.backoff_strategy);
            assert(r@.dependencies =~= expected.dependencies);
            assert(r@.imports =~= expected.imports);
        }
        r
    }

    fn generate_go_telemetry(&self, config: &TelemetryConfig) -> (r: FeatureCode)
        ensures
            r@ == go_telemetry(config.provider),
    {
        let mut dependencies: Vec<String> = Vec::new();
        push_text(&mut dependencies, "github.com/prometheus/client_golang/prometheus");
        let mut imports: Vec<String> = Vec::new();
        push_text(&mut imports, "github.com/prometheus/client_golang/prometheus");
        push_text(&mut imports, "time");
        let code = String::from_str(GO_TELEMETRY_CODE);
        let r = FeatureCode { dependencies, imports, code, configuration: StringMap::new() };
        proof {
            let expected = go_telemetry(config.provider);
            assert(r@.dependencies =~= expected.dependencies);
            assert(r@.imports =~= expected.imports);
        }
        r
    }

    fn generate_go_caching(&self, config: &CachingConfig) -> (r: FeatureCode)
        ensures
            r@ == go_caching(config.max_cache_size, config.default_ttl_seconds),
    {
        let mut dependencies: Vec<String> = Vec::new();
        push_text(&mut dependencies, "github.com/patrickmn/go-cache");
        let mut imports: Vec<String> = Vec::new();
        push_text(&mut imports, "github.com/patrickmn/go-cache");
        push_text(&mut imports, "time");
        push_text(&mut imports, "crypto/md5");
        push_text(&mut imports, "fmt");
        let mut code = String::from_str(GO_CACHING_HEAD);
        push_decimal(&mut code, config.default_ttl_seconds as u128);
        code.append(GO_CACHING_TAIL);
        let r = FeatureCode { dependencies, imports, code, configuration: StringMap::new() };
        proof {
            let expected = go_caching(config.max_cache_size, config.default_ttl_seconds);
            assert(r@.dependencies =~= expected.dependencies);
            assert(r@.imports =~= expected.imports);
        }
        r
    }

    fn generate_typescript_retry(&self, config: &RetryConfig) -> (r: FeatureCode)
        ensures
            r@ == typescript_retry(config.max_attempts, config.backoff_strategy),
    {
        let mut dependencies: Vec<String> = Vec::new();
        let mut imports: Vec<String> = Vec::new();
        let mut code = String::from_str(TYPESCRIPT_RETRY_HEAD);
        push_decimal(&mut code, config.max_attempts as u128);
        code.append(TYPESCRIPT_RETRY_MIDDLE);
        push_typescript_backoff(&mut code, config.backoff_strategy);
        code.append(TYPESCRIPT_RETRY_TAIL);
        let r = FeatureCode { dependencies, imports, code, configuration: StringMap::new() };
        proof {
            let expected = typescript_retry(config.max_attempts, config.backoff_strategy);
            assert(r@.dependencies =~= expected.dependencies);
            assert(r@.imports =~= expected.imports);
        }
        r
    }

    fn generate_typescript_telemetry(&self, config: &TelemetryConfig) -> (r: FeatureCode)
        ensures
            r@ == typescript_telemetry(config.provider),
    {
        let mut dependencies: Vec<String> = Vec::new();
        push_text(&mut dependencies, "prom-client");
        let mut imports: Vec<String> = Vec::new();
        push_text(&mut imports, "import { Counter, Histogram, register } from 'prom-client';");
        let code = String::from_str(TYPESCRIPT_TELEMETRY_CODE);
        let r = FeatureCode { dependencies, imports, code, configuration: StringMap::new() };
        proof {
            let expected = typescript_telemetry(config.provider);
            assert(r@.dependencies =~= expected.dependencies);
            assert(r@.imports =~= expected.imports);
        }
        r
    }

    fn generate_typescript_caching(&self, config: &CachingConfig) -> (r: FeatureCode)
        ensures
            r@ == typescript_caching(config.max_cache_size, config.default_ttl_seconds),
    {
        let mut dependencies: Vec<String> = Vec::new();
        push_text(&mut dependencies, "node-cache");
        let mut imports: Vec<String> = Vec::new();
        push_text(&mut imports, "import NodeCache from 'node-cache';");
        push_text(&mut imports, "import crypto from 'crypto';");
        let mut code = String::from_str(TYPESCRIPT_CACHING_HEAD);
        push_decimal(&mut code, config.default_ttl_seconds as u128);
        code.append(TYPESCRIPT_CACHING_MIDDLE);
        push_decimal(&mut code, config.max_cache_size as u128);
        code.append(TYPESCRIPT_CACHING_TAIL);
        let r = FeatureCode { dependencies, imports, code, configuration: StringMap::new() };
        proof {
            let expected = typescript_caching(config.max_cache_size, config.default_ttl_seconds);
            assert(r@.dependencies =~= expected.dependencies);
            assert(r@.imports =~= expected.imports);
        }
        r
    }
}

/// Every dependency of the fragments.
pub open spec fn dependency_set(fs: Seq<FeatureCodeView>) -> Set<Seq<char>>
    decreases fs.len(),
{
    if fs.len() == 0 {
        Set::empty()
    } else {
        dependency_set(fs.drop_last()).union(fs.last().dependencies.to_set())
    }
}

/// Every import of the fragments.
pub open spec fn import_set(fs: Seq<FeatureCodeView>) -> Set<Seq<char>>
    decreases fs.len(),
{
    if fs.len() == 0 {
        Set::empty()
    } else {
        import_set(fs.drop_last()).union(fs.last().imports.to_set())
    }
}

/// The code of each fragment, in order.
pub open spec fn codes(fs: Seq<FeatureCodeView>) -> Seq<Seq<char>> {
    fs.map_values(|f: FeatureCodeView| f.code)
}

/// The configuration entries of the fragments: where two fragments set the
/// same key, the later one wins.
pub open spec fn merged_configuration(fs: Seq<FeatureCodeView>) -> Map<Seq<char>, Seq<char>>
    decreases fs.len(),
{
    if fs.len() == 0 {
        Map::empty()
    } else {
        merged_configuration(fs.drop_last()).union_prefer_right(fs.last().configuration)
    }
}

/// Whether `r` is the bundle of the fragments `fs`: their dependencies and
/// their imports, each sorted and without repeats; their code in order with
/// a blank line between; and their configuration, later entries winning.
pub open spec fn is_merge_of(r: FeatureCodeView, fs: Seq<FeatureCodeView>) -> bool {
    &&& strictly_sorted(r.dependencies)
    &&& r.dependencies.to_set() == dependency_set(fs)
    &&& strictly_sorted(r.imports)
    &&& r.imports.to_set() == import_set(fs)
    &&& r.code == joined(codes(fs), CODE_SEPARATOR@)
    &&& r.configuration == merged_configuration(fs)
}

/// The bundle of the fragments `fs`.
pub open spec fn the_merge(fs: Seq<FeatureCodeView>) -> FeatureCodeView {
    choose|m: FeatureCodeView| is_merge_of(m, fs)
}

/// Fragments have one bundle.
pub proof fn lemma_merge_unique(x: FeatureCodeView, y: FeatureCodeView, fs: Seq<FeatureCodeView>)
    requires
        is_merge_of(x, fs),
        is_merge_of(y, fs),
    ensures
        x == y,
        x == the_merge(fs),
{
    lemma_sorted_unique(x.dependencies, y.dependencies);
    lemma_sorted_unique(x.imports, y.imports);
    let z = the_merge(fs);
    lemma_sorted_unique(x.dependencies, z.dependencies);
    lemma_sorted_unique(x.imports, z.imports);
}

/// Puts every text of `items` in its place in the sorted list `target`.
fn insert_all(target: &mut Vec<String>, items: &Vec<String>)
    requires
        strictly_sorted(texts(old(target)@)),
    ensures
        strictly_sorted(texts(final(target)@)),
        texts(final(target)@).to_set() == texts(old(target)@).to_set().union(
            texts(items@).to_set(),
        ),
{
    let mut i: usize = 0;
    assert(texts(items@).take(0).to_set() =~= Set::empty());
    assert(texts(target@).to_set() =~= texts(old(target)@).to_set().union(
        texts(items@).take(0).to_set(),
    ));
    while i < items.len()
        invariant
            i <= items@.len(),
            strictly_sorted(texts(target@)),
            texts(target@).to_set() == texts(old(target)@).to_set().union(
                texts(items@).take(i as int).to_set(),
            ),
        decreases items@.len() - i,
    {
        insert_sorted(target, items[i].clone());
        proof {
            let all = texts(items@);
            assert(all.take(i + 1) =~= all.take(i as int).push(all[i as int]));
            all.take(i as int).lemma_push_to_set_commute(all[i as int]);
            assert(texts(target@).to_set() =~= texts(old(target)@).to_set().union(
                all.take(i + 1).to_set(),
            ));
        }
        i += 1;
    }
    assert(texts(items@).take(items@.len() as int) =~= texts(items@));
}

impl FeatureCode {
    /// Merges fragments into one bundle.
    ///
    /// The dependencies and the imports of the bundle are those of all the
    /// fragments, sorted and without repeats, so the order of the fragments
    /// does not show in them. The code of the bundle is the code of each
    /// fragment in the order given, with a blank line between two; here the
    /// order does show. In the configuration a later fragment overrides an
    /// earlier one on a key that both set.
    pub fn merge(features: Vec<FeatureCode>) -> (r: FeatureCode)
        ensures
            is_merge_of(r@, feature_views(features@)),
            r@ == the_merge(feature_views(features@)),
    {
        FeatureCode::merge_all(&features)
    }

    /// Merges fragments into one bundle, as `merge` does, and leaves the
    /// fragments to the caller.
    pub fn merge_all(features: &Vec<FeatureCode>) -> (r: FeatureCode)
        ensures
            is_merge_of(r@, feature_views(features@)),
            r@ == the_merge(feature_views(features@)),
    {
        let mut dependencies: Vec<String> = Vec::new();
        let mut imports: Vec<String> = Vec::new();
        let mut code_parts: Vec<String> = Vec::new();
        let mut configuration = StringMap::new();
        let ghost fs = feature_views(features@);
        let mut i: usize = 0;
        proof {
            assert(fs.take(0) =~= Seq::empty());
            assert(texts(dependencies@).to_set() =~= Set::empty());
            assert(texts(imports@).to_set() =~= Set::empty());
            assert(texts(code_parts@) =~= codes(fs.take(0)));
        }
        while i < features.len()
            invariant
                i <= features@.len(),
                fs == feature_views(features@),
                strictly_sorted(texts(dependencies@)),
                texts(dependencies@).to_set() == dependency_set(fs.take(i as int)),
                strictly_sorted(texts(imports@)),
                texts(imports@).to_set() == import_set(fs.take(i as int)),
                texts(code_parts@) == codes(fs.take(i as int)),
                configuration@ == merged_configuration(fs.take(i as int)),
            decreases features@.len() - i,
        {
            let feature = &features[i];
            insert_all(&mut dependencies, &feature.dependencies);
            insert_all(&mut imports, &feature.imports);
            let ghost parts_before = texts(code_parts@);
            code_parts.push(feature.code.clone());
            configuration.extend(&feature.configuration);
            proof {
                assert(fs.take(i + 1).drop_last() =~= fs.take(i as int));
                assert(fs.take(i + 1).last() == features@[i as int]@);
                assert(texts(code_parts@) =~= parts_before.push(feature.code@));
                assert(codes(fs.take(i + 1)) =~= codes(fs.take(i as int)).push(feature.code@));
            }
            i += 1;
        }
        assert(fs.take(features@.len() as int) =~= fs);
        let code = join(&code_parts, CODE_SEPARATOR);
        let r = FeatureCode { dependencies, imports, code, configuration };
        proof {
            lemma_merge_unique(r@, r@, fs);
        }
        r
    }
}

/// The bundle of two fragments holds the code of the first, the
/// separator, and the code of the second.
pub proof fn lemma_merge_pair_code(r: FeatureCodeView, a: FeatureCodeView, b: FeatureCodeView)
    requires
        is_merge_of(r, seq![a, b]),
    ensures
        r.code == a.code + CODE_SEPARATOR@ + b.code,
{
    let fs = seq![a, b];
    let cs = codes(fs);
    assert(cs.drop_last() =~= seq![a.code]);
    assert(cs.last() == b.code);
    assert(joined(cs.drop_last(), CODE_SEPARATOR@) == a.code);
}

/// The order of two fragments does not show in the dependencies and the
/// imports of their bundle.
pub proof fn lemma_merge_pair_lists_commute(
    x: FeatureCodeView,
    y: FeatureCodeView,
    a: FeatureCodeView,
    b: FeatureCodeView,
)
    requires
        is_merge_of(x, seq![a, b]),
        is_merge_of(y, seq![b, a]),
    ensures
        x.dependencies == y.dependencies,
        x.imports == y.imports,
{
    let ab = seq![a, b];
    let ba = seq![b, a];
    assert(ab.drop_last() =~= seq![a]);
    assert(ba.drop_last() =~= seq![b]);
    assert(seq![a].drop_last() =~= Seq::<FeatureCodeView>::empty());
    assert(seq![b].drop_last() =~= Seq::<FeatureCodeView>::empty());
    reveal_with_fuel(dependency_set, 3);
    reveal_with_fuel(import_set, 3);
    assert(dependency_set(ab) =~= dependency_set(ba));
    assert(import_set(ab) =~= import_set(ba));
    lemma_sorted_unique(x.dependencies, y.dependencies);
    lemma_sorted_unique(x.imports, y.imports);
}

/// The order of two fragments shows in the code of their bundle, with one
/// exception: the two orders give the same code exactly where the two
/// codes, each with the separator after it, are repetitions of one word.
pub proof fn lemma_merge_pair_code_order(
    x: FeatureCodeView,
    y: FeatureCodeView,
    a: FeatureCodeView,
    b: FeatureCodeView,
)
    requires
        is_merge_of(x, seq![a, b]),
        is_merge_of(y, seq![b, a]),
    ensures
        x.code == y.code <==> share_a_period(a.code + CODE_SEPARATOR@, b.code + CODE_SEPARATOR@),
{
    let sep = CODE_SEPARATOR@;
    let u = a.code + sep;
    let v = b.code + sep;
    lemma_merge_pair_code(x, a, b);
    lemma_merge_pair_code(y, b, a);
    lemma_commute_iff_share_a_period(u, v);
    assert(u + v =~= x.code + sep);
    assert(v + u =~= y.code + sep);
    if x.code + sep == y.code + sep {
        assert(x.code =~= (x.code + sep).take(x.code.len() as int));
        assert(y.code =~= (y.code + sep).take(y.code.len() as int));
    }
}

/// Two fragments whose codes differ and have the same length give
/// different code in the two orders.
pub proof fn lemma_merge_pair_code_differs(
    x: FeatureCodeView,
    y: FeatureCodeView,
    a: FeatureCodeView,
    b: FeatureCodeView,
)
    requires
        is_merge_of(x, seq![a, b]),
        is_merge_of(y, seq![b, a]),
        a.code != b.code,
        a.code.len() == b.code.len(),
    ensures
        x.code != y.code,
{
    lemma_merge_pair_code(x, a, b);
    lemma_merge_pair_code(y, b, a);
    if x.code == y.code {
        assert(a.code =~= x.code.take(a.code.len() as int));
        assert(b.code =~= y.code.take(b.code.len() as int));
    }
}

/// Merging a fragment with itself adds nothing to the dependencies and
/// the imports.
pub proof fn lemma_merge_lists_idempotent(x: FeatureCodeView, y: FeatureCodeView, a: FeatureCodeView)
    requires
        is_merge_of(x, seq![a]),
        is_merge_of(y, seq![a, a]),
    ensures
        x.dependencies == y.dependencies,
        x.imports == y.imports,
{
    let once = seq![a];
    let twice = seq![a, a];
    assert(twice.drop_last() =~= once);
    assert(once.drop_last() =~= Seq::<FeatureCodeView>::empty());
    reveal_with_fuel(dependency_set, 3);
    reveal_with_fuel(import_set, 3);
    assert(dependency_set(once) =~= dependency_set(twice));
    assert(import_set(once) =~= import_set(twice));
    lemma_sorted_unique(x.dependencies, y.dependencies);
    lemma_sorted_unique(x.imports, y.imports);
}

} // verus!
