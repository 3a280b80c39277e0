use client_sdk_generator::config::{
    BackoffStrategy, CachingConfig, CacheKeyStrategy, RetryConfig, TargetLanguage,
    TelemetryConfig, TelemetryProvider, Thousandths,
};
use client_sdk_generator::features::{FeatureCode, FeatureGenerator};
use client_sdk_generator::string_map::StringMap;

fn caching(size: usize, ttl: u64) -> CachingConfig {
    CachingConfig {
        enabled: true,
        default_ttl_seconds: ttl,
        max_cache_size: size,
        cache_key_strategy: CacheKeyStrategy::MethodAndParams,
    }
}

fn retry(attempts: u32, strategy: BackoffStrategy) -> RetryConfig {
    RetryConfig { enabled: true, max_attempts: attempts, backoff_strategy: strategy, retry_on: Vec::new() }
}

fn telemetry(provider: TelemetryProvider) -> TelemetryConfig {
    let mut config = TelemetryConfig::default();
    config.provider = provider;
    config
}

fn fragment(code: &str, dependencies: &[&str], imports: &[&str]) -> FeatureCode {
    FeatureCode {
        dependencies: dependencies.iter().map(|s| s.to_string()).collect(),
        imports: imports.iter().map(|s| s.to_string()).collect(),
        code: code.to_string(),
        configuration: StringMap::new(),
    }
}

#[test]
fn java_caching_code() {
    let generated = FeatureGenerator::new(TargetLanguage::Java).generate_caching_code(&caching(1000, 300));
    assert_eq!(generated.code, r#"
private final Cache<String, Object> cache = Caffeine.newBuilder()
    .maximumSize(1000)
    .expireAfterWrite(Duration.ofSeconds(300))
    .build();

public <T> Optional<T> getFromCache(String key, Class<T> type) {
    Object value = cache.getIfPresent(key);
    return value != null ? Optional.of(type.cast(value)) : Optional.empty();
}

public void putInCache(String key, Object value) {
    cache.put(key, value);
}

private String generateCacheKey(String method, Object... params) {
    return method + ":" + Arrays.hashCode(params);
}
"#);
    assert_eq!(generated.dependencies, vec![r#"com.github.ben-manes.caffeine:caffeine:3.1.8"#]);
    assert_eq!(generated.imports, vec![r#"import com.github.benmanes.caffeine.cache.Cache;"#, r#"import com.github.benmanes.caffeine.cache.Caffeine;"#, r#"import java.time.Duration;"#]);
    assert_eq!(generated.configuration.len(), 0);
}

#[test]
fn python_caching_code() {
    let generated = FeatureGenerator::new(TargetLanguage::Python).generate_caching_code(&caching(7, 0));
    assert_eq!(generated.code, r#"
class CacheHandler:
    def __init__(self):
        self.cache = TTLCache(maxsize=7, ttl=0)
    
    def get_from_cache(self, key: str):
        return self.cache.get(key)
    
    def put_in_cache(self, key: str, value):
        self.cache[key] = value
    
    def generate_cache_key(self, method: str, **params) -> str:
        cache_data = {"method": method, "params": params}
        cache_str = json.dumps(cache_data, sort_keys=True)
        return hashlib.md5(cache_str.encode()).hexdigest()
"#);
    assert_eq!(generated.dependencies, vec![r#"cachetools>=5.3.0"#]);
    assert_eq!(generated.imports, vec![r#"from cachetools import TTLCache"#, r#"import hashlib"#, r#"import json"#]);
    assert_eq!(generated.configuration.len(), 0);
}

#[test]
fn rust_caching_code() {
    let generated = FeatureGenerator::new(TargetLanguage::Rust).generate_caching_code(&caching(usize::MAX, u64::MAX));
    assert_eq!(generated.code, r#"
pub struct CacheHandler {
    cache: Cache<String, serde_json::Value>,
}

impl CacheHandler {
    pub fn new() -> Self {
        let cache = Cache::builder()
            .max_capacity(18446744073709551615)
            .time_to_live(Duration::from_secs(18446744073709551615))
            .build();
        
        Self { cache }
    }
    
    pub async fn get_from_cache<T>(&self, key: &str) -> Option<T>
    where
        T: serde::de::DeserializeOwned,
    {
        let value = self.cache.get(key).await?;
        serde_json::from_value(value).ok()
    }
    
    pub async fn put_in_cache<T>(&self, key: String, value: &T)
    where
        T: serde::Serialize,
    {
        if let Ok(json_value) = serde_json::to_value(value) {
            self.cache.insert(key, json_value).await;
        }
    }
    
    pub fn generate_cache_key(&self, method: &str, params: &impl Hash) -> String {
        let mut hasher = DefaultHasher::new();
        method.hash(&mut hasher);
        params.hash(&mut hasher);
        format!("{}:{:x}", method, hasher.finish())
    }
}
"#);
    assert_eq!(generated.dependencies, vec![r#"moka = { version = "0.12", features = ["future"] }"#, r#"tokio = { version = "1.0", features = ["time"] }"#]);
    assert_eq!(generated.imports, vec![r#"use moka::future::Cache;"#, r#"use std::time::Duration;"#, r#"use std::hash::{Hash, Hasher};"#, r#"use std::collections::hash_map::DefaultHasher;"#]);
    assert_eq!(generated.configuration.len(), 0);
}

#[test]
fn go_caching_code() {
    let generated = FeatureGenerator::new(TargetLanguage::Go).generate_caching_code(&caching(1000, 300));
    assert_eq!(generated.code, r#"
type CacheHandler struct {
    cache *cache.Cache
}

func NewCacheHandler() *CacheHandler {
    c := cache.New(300*time.Second, 10*time.Minute)
    return &CacheHandler{cache: c}
}

func (ch *CacheHandler) Get(key string) (interface{}, bool) {
    return ch.cache.Get(key)
}

func (ch *CacheHandler) Set(key string, value interface{}) {
    ch.cache.Set(key, value, cache.DefaultExpiration)
}

func (ch *CacheHandler) GenerateCacheKey(method string, params ...interface{}) string {
    h := md5.New()
    h.Write([]byte(method))
    for _, param := range params {
        h.Write([]byte(fmt.Sprintf("%v", param)))
    }
    return fmt.Sprintf("%x", h.Sum(nil))
}
"#);
    assert_eq!(generated.dependencies, vec![r#"github.com/patrickmn/go-cache"#]);
    assert_eq!(generated.imports, vec![r#"github.com/patrickmn/go-cache"#, r#"time"#, r#"crypto/md5"#, r#"fmt"#]);
    assert_eq!(generated.configuration.len(), 0);
}

#[test]
fn typescript_caching_code() {
    let generated = FeatureGenerator::new(TargetLanguage::TypeScript).generate_caching_code(&caching(1000, 300));
    assert_eq!(generated.code, r#"
class CacheHandler {
  private cache: NodeCache;
  
  constructor() {
    this.cache = new NodeCache({
      stdTTL: 300,
      maxKeys: 1000,
      checkperiod: 600
    });
  }
  
  get<T>(key: string): T | undefined {
    return this.cache.get<T>(key);
  }
  
  set<T>(key: string, value: T, ttl?: number): boolean {
    return this.cache.set(key, value, ttl);
  }
  
  generateCacheKey(method: string, params: Record<string, any>): string {
    const data = { method, params };
    const hash = crypto.createHash('md5');
    hash.update(JSON.stringify(data));
    return hash.digest('hex');
  }
  
  clear(): void {
    this.cache.flushAll();
  }
}
"#);
    assert_eq!(generated.dependencies, vec![r#"node-cache"#]);
    assert_eq!(generated.imports, vec![r#"import NodeCache from 'node-cache';"#, r#"import crypto from 'crypto';"#]);
    assert_eq!(generated.configuration.len(), 0);
}

#[test]
fn java_retry_code_exponential() {
    let generated = FeatureGenerator::new(TargetLanguage::Java).generate_retry_code(&RetryConfig::default());
    assert_eq!(generated.code, r#"
private static final RetryPolicy<Object> RETRY_POLICY = RetryPolicy.builder()
    .withMaxAttempts(3)
    .withBackoff(Duration.ofMillis(100), Duration.ofMillis(5000), 2)
    .handle(ConnectException.class, SocketTimeoutException.class)
    .build();

public <T> T executeWithRetry(Supplier<T> operation) {
    return Failsafe.with(RETRY_POLICY).get(operation);
}
"#);
    assert_eq!(generated.dependencies, vec![r#"dev.failsafe:failsafe:3.3.2"#, r#"dev.failsafe:failsafe-okhttp:3.3.2"#]);
    assert_eq!(generated.imports, vec![r#"import dev.failsafe.Failsafe;"#, r#"import dev.failsafe.RetryPolicy;"#, r#"import java.time.Duration;"#]);
    assert_eq!(generated.configuration.len(), 0);
}

#[test]
fn java_retry_code_fixed() {
    let generated = FeatureGenerator::new(TargetLanguage::Java).generate_retry_code(&retry(5, BackoffStrategy::Fixed { delay_ms: 250 }));
    assert_eq!(generated.code, r#"
private static final RetryPolicy<Object> RETRY_POLICY = RetryPolicy.builder()
    .withMaxAttempts(5)
    .withDelay(Duration.ofMillis(250))
    .handle(ConnectException.class, SocketTimeoutException.class)
    .build();

public <T> T executeWithRetry(Supplier<T> operation) {
    return Failsafe.with(RETRY_POLICY).get(operation);
}
"#);
    assert_eq!(generated.dependencies, vec![r#"dev.failsafe:failsafe:3.3.2"#, r#"dev.failsafe:failsafe-okhttp:3.3.2"#]);
    assert_eq!(generated.imports, vec![r#"import dev.failsafe.Failsafe;"#, r#"import dev.failsafe.RetryPolicy;"#, r#"import java.time.Duration;"#]);
    assert_eq!(generated.configuration.len(), 0);
}

#[test]
fn java_retry_code_linear() {
    let generated = FeatureGenerator::new(TargetLanguage::Java).generate_retry_code(&retry(1, BackoffStrategy::Linear { initial_delay_ms: 10, increment_ms: 20 }));
    assert_eq!(generated.code, r#"
private static final RetryPolicy<Object> RETRY_POLICY = RetryPolicy.builder()
    .withMaxAttempts(1)
    .withDelay(Duration.ofMillis(10), Duration.ofMillis(20))
    .handle(ConnectException.class, SocketTimeoutException.class)
    .build();

public <T> T executeWithRetry(Supplier<T> operation) {
    return Failsafe.with(RETRY_POLICY).get(operation);
}
"#);
    assert_eq!(generated.dependencies, vec![r#"dev.failsafe:failsafe:3.3.2"#, r#"dev.failsafe:failsafe-okhttp:3.3.2"#]);
    assert_eq!(generated.imports, vec![r#"import dev.failsafe.Failsafe;"#, r#"import dev.failsafe.RetryPolicy;"#, r#"import java.time.Duration;"#]);
    assert_eq!(generated.configuration.len(), 0);
}

#[test]
fn python_retry_code_exponential() {
    let generated = FeatureGenerator::new(TargetLanguage::Python).generate_retry_code(&RetryConfig::default());
    assert_eq!(generated.code, r#"
@retry(
    stop=stop_after_attempt(3),
    wait=wait_exponential(multiplier=2, min=0.1, max=5),
    retry=retry_if_exception_type((httpx.ConnectError, httpx.TimeoutException))
)
async def execute_with_retry(self, operation):
    return await operation()
"#);
    assert_eq!(generated.dependencies, vec![r#"tenacity>=8.2.0"#]);
    assert_eq!(generated.imports, vec![r#"from tenacity import retry, stop_after_attempt, wait_exponential, retry_if_exception_type"#, r#"import httpx"#]);
    assert_eq!(generated.configuration.len(), 0);
}

#[test]
fn python_retry_code_fixed() {
    let generated = FeatureGenerator::new(TargetLanguage::Python).generate_retry_code(&retry(2, BackoffStrategy::Fixed { delay_ms: 1250 }));
    assert_eq!(generated.code, r#"
@retry(
    stop=stop_after_attempt(2),
    wait=wait_fixed(1.25),
    retry=retry_if_exception_type((httpx.ConnectError, httpx.TimeoutException))
)
async def execute_with_retry(self, operation):
    return await operation()
"#);
    assert_eq!(generated.dependencies, vec![r#"tenacity>=8.2.0"#]);
    assert_eq!(generated.imports, vec![r#"from tenacity import retry, stop_after_attempt, wait_exponential, retry_if_exception_type"#, r#"import httpx"#]);
    assert_eq!(generated.configuration.len(), 0);
}

#[test]
fn python_retry_code_linear() {
    let generated = FeatureGenerator::new(TargetLanguage::Python).generate_retry_code(&retry(2, BackoffStrategy::Linear { initial_delay_ms: 1, increment_ms: 60000 }));
    assert_eq!(generated.code, r#"
@retry(
    stop=stop_after_attempt(2),
    wait=wait_incrementing(start=0.001, increment=60),
    retry=retry_if_exception_type((httpx.ConnectError, httpx.TimeoutException))
)
async def execute_with_retry(self, operation):
    return await operation()
"#);
    assert_eq!(generated.dependencies, vec![r#"tenacity>=8.2.0"#]);
    assert_eq!(generated.imports, vec![r#"from tenacity import retry, stop_after_attempt, wait_exponential, retry_if_exception_type"#, r#"import httpx"#]);
    assert_eq!(generated.configuration.len(), 0);
}

#[test]
fn rust_retry_code_exponential() {
    let generated = FeatureGenerator::new(TargetLanguage::Rust).generate_retry_code(&retry(3, BackoffStrategy::Exponential { initial_delay_ms: 100, multiplier: Thousandths { count: 1500 }, max_delay_ms: 5000 }));
    assert_eq!(generated.code, r#"
use tokio_retry::{strategy::*, Retry};

pub async fn execute_with_retry<F, T, E>(operation: F) -> Result<T, E>
where
    F: Fn() -> std::pin::Pin<Box<dyn std::future::Future<Output = Result<T, E>> + Send>> + Send,
    E: std::fmt::Debug,
{
    let retry_strategy = ExponentialBackoff::from_millis(100).factor(1.5).max_delay(Duration::from_millis(5000)).take(3);
    
    Retry::spawn(retry_strategy, || async {
        operation().await
    }).await
}
"#);
    assert_eq!(generated.dependencies, vec![r#"tokio-retry = "0.3""#, r#"tokio = { version = "1.0", features = ["time"] }"#]);
    assert_eq!(generated.imports, vec![r#"use tokio_retry::{strategy::*, Retry};"#, r#"use std::time::Duration;"#]);
    assert_eq!(generated.configuration.len(), 0);
}

#[test]
fn rust_retry_code_fixed() {
    let generated = FeatureGenerator::new(TargetLanguage::Rust).generate_retry_code(&retry(4, BackoffStrategy::Fixed { delay_ms: 0 }));
    assert_eq!(generated.code, r#"
use tokio_retry::{strategy::*, Retry};

pub async fn execute_with_retry<F, T, E>(operation: F) -> Result<T, E>
where
    F: Fn() -> std::pin::Pin<Box<dyn std::future::Future<Output = Result<T, E>> + Send>> + Send,
    E: std::fmt::Debug,
{
    let retry_strategy = FixedInterval::from_millis(0).take(4);
    
    Retry::spawn(retry_strategy, || async {
        operation().await
    }).await
}
"#);
    assert_eq!(generated.dependencies, vec![r#"tokio-retry = "0.3""#, r#"tokio = { version = "1.0", features = ["time"] }"#]);
    assert_eq!(generated.imports, vec![r#"use tokio_retry::{strategy::*, Retry};"#, r#"use std::time::Duration;"#]);
    assert_eq!(generated.configuration.len(), 0);
}

#[test]
fn rust_retry_code_linear_caps_at_ten_increments() {
    let generated = FeatureGenerator::new(TargetLanguage::Rust).generate_retry_code(&retry(3, BackoffStrategy::Linear { initial_delay_ms: 100, increment_ms: u64::MAX }));
    assert_eq!(generated.code, r#"
use tokio_retry::{strategy::*, Retry};

pub async fn execute_with_retry<F, T, E>(operation: F) -> Result<T, E>
where
    F: Fn() -> std::pin::Pin<Box<dyn std::future::Future<Output = Result<T, E>> + Send>> + Send,
    E: std::fmt::Debug,
{
    let retry_strategy = FibonacciBackoff::from_millis(100).max_delay(Duration::from_millis(184467440737095516150)).take(3);
    
    Retry::spawn(retry_strategy, || async {
        operation().await
    }).await
}
"#);
    assert_eq!(generated.dependencies, vec![r#"tokio-retry = "0.3""#, r#"tokio = { version = "1.0", features = ["time"] }"#]);
    assert_eq!(generated.imports, vec![r#"use tokio_retry::{strategy::*, Retry};"#, r#"use std::time::Duration;"#]);
    assert_eq!(generated.configuration.len(), 0);
}

#[test]
fn go_retry_code_exponential() {
    let generated = FeatureGenerator::new(TargetLanguage::Go).generate_retry_code(&RetryConfig::default());
    assert_eq!(generated.code, r#"
type RetryConfig struct {
    MaxAttempts int
    BaseDelay   time.Duration
    MaxDelay    time.Duration
}

func (c *Client) executeWithRetry(fn func() error) error {
    var lastErr error
    
    for attempt := 0; attempt < 3; attempt++ {
        err := fn()
        if err == nil {
            return nil
        }
        
        lastErr = err
        
        if attempt < 3 - 1 {
            delay := time.Duration(float64(100) * math.Pow(2, float64(attempt))) * time.Millisecond
            if delay > 5000*time.Millisecond {
                delay = 5000 * time.Millisecond
            }
            time.Sleep(delay)
        }
    }
    
    return lastErr
}
"#);
    assert_eq!(generated.dependencies, Vec::<String>::new());
    assert_eq!(generated.imports, vec![r#"time"#, r#"math"#]);
    assert_eq!(generated.configuration.len(), 0);
}

#[test]
fn go_retry_code_fixed() {
    let generated = FeatureGenerator::new(TargetLanguage::Go).generate_retry_code(&retry(2, BackoffStrategy::Fixed { delay_ms: 250 }));
    assert_eq!(generated.code, r#"
type RetryConfig struct {
    MaxAttempts int
    BaseDelay   time.Duration
    MaxDelay    time.Duration
}

func (c *Client) executeWithRetry(fn func() error) error {
    var lastErr error
    
    for attempt := 0; attempt < 2; attempt++ {
        err := fn()
        if err == nil {
            return nil
        }
        
        lastErr = err
        
        if attempt < 2 - 1 {
            delay := 250 * time.Millisecond
            time.Sleep(delay)
        }
    }
    
    return lastErr
}
"#);
    assert_eq!(generated.dependencies, Vec::<String>::new());
    assert_eq!(generated.imports, vec![r#"time"#]);
    assert_eq!(generated.configuration.len(), 0);
}

#[test]
fn go_retry_code_linear() {
    let generated = FeatureGenerator::new(TargetLanguage::Go).generate_retry_code(&retry(4, BackoffStrategy::Linear { initial_delay_ms: 100, increment_ms: 50 }));
    assert_eq!(generated.code, r#"
type RetryConfig struct {
    MaxAttempts int
    BaseDelay   time.Duration
    MaxDelay    time.Duration
}

func (c *Client) executeWithRetry(fn func() error) error {
    var lastErr error
    
    for attempt := 0; attempt < 4; attempt++ {
        err := fn()
        if err == nil {
            return nil
        }
        
        lastErr = err
        
        if attempt < 4 - 1 {
            delay := time.Duration(100+int64(attempt)*50) * time.Millisecond
            time.Sleep(delay)
        }
    }
    
    return lastErr
}
"#);
    assert_eq!(generated.dependencies, Vec::<String>::new());
    assert_eq!(generated.imports, vec![r#"time"#]);
    assert_eq!(generated.configuration.len(), 0);
}

#[test]
fn typescript_retry_code_exponential() {
    let generated = FeatureGenerator::new(TargetLanguage::TypeScript).generate_retry_code(&retry(3, BackoffStrategy::Exponential { initial_delay_ms: 100, multiplier: Thousandths { count: 1500 }, max_delay_ms: 5000 }));
    assert_eq!(generated.code, r#"
interface RetryConfig {
  maxAttempts: number;
}

class RetryHandler {
  private config: RetryConfig;
  
  constructor(config: RetryConfig = { maxAttempts: 3 }) {
    this.config = config;
  }
  
  async executeWithRetry<T>(fn: () => Promise<T>): Promise<T> {
    let lastError: Error;
    
    for (let attempt = 0; attempt < this.config.maxAttempts; attempt++) {
      try {
        return await fn();
      } catch (error) {
        lastError = error instanceof Error ? error : new Error(String(error));
        
        if (attempt < this.config.maxAttempts - 1) {
          const delay = Math.min(100 * Math.pow(1.5, attempt), 5000);
          await new Promise(resolve => setTimeout(resolve, delay));
        }
      }
    }
    
    throw lastError!;
  }
}
"#);
    assert_eq!(generated.dependencies, Vec::<String>::new());
    assert_eq!(generated.imports, Vec::<String>::new());
    assert_eq!(generated.configuration.len(), 0);
}

#[test]
fn typescript_retry_code_fixed() {
    let generated = FeatureGenerator::new(TargetLanguage::TypeScript).generate_retry_code(&retry(u32::MAX, BackoffStrategy::Fixed { delay_ms: 1 }));
    assert_eq!(generated.code, r#"
interface RetryConfig {
  maxAttempts: number;
}

class RetryHandler {
  private config: RetryConfig;
  
  constructor(config: RetryConfig = { maxAttempts: 4294967295 }) {
    this.config = config;
  }
  
  async executeWithRetry<T>(fn: () => Promise<T>): Promise<T> {
    let lastError: Error;
    
    for (let attempt = 0; attempt < this.config.maxAttempts; attempt++) {
      try {
        return await fn();
      } catch (error) {
        lastError = error instanceof Error ? error : new Error(String(error));
        
        if (attempt < this.config.maxAttempts - 1) {
          const delay = 1;
          await new Promise(resolve => setTimeout(resolve, delay));
        }
      }
    }
    
    throw lastError!;
  }
}
"#);
    assert_eq!(generated.dependencies, Vec::<String>::new());
    assert_eq!(generated.imports, Vec::<String>::new());
    assert_eq!(generated.configuration.len(), 0);
}

#[test]
fn typescript_retry_code_linear() {
    let generated = FeatureGenerator::new(TargetLanguage::TypeScript).generate_retry_code(&retry(3, BackoffStrategy::Linear { initial_delay_ms: 100, increment_ms: 50 }));
    assert_eq!(generated.code, r#"
interface RetryConfig {
  maxAttempts: number;
}

class RetryHandler {
  private config: RetryConfig;
  
  constructor(config: RetryConfig = { maxAttempts: 3 }) {
    this.config = config;
  }
  
  async executeWithRetry<T>(fn: () => Promise<T>): Promise<T> {
    let lastError: Error;
    
    for (let attempt = 0; attempt < this.config.maxAttempts; attempt++) {
      try {
        return await fn();
      } catch (error) {
        lastError = error instanceof Error ? error : new Error(String(error));
        
        if (attempt < this.config.maxAttempts - 1) {
          const delay = 100 + attempt * 50;
          await new Promise(resolve => setTimeout(resolve, delay));
        }
      }
    }
    
    throw lastError!;
  }
}
"#);
    assert_eq!(generated.dependencies, Vec::<String>::new());
    assert_eq!(generated.imports, Vec::<String>::new());
    assert_eq!(generated.configuration.len(), 0);
}

#[test]
fn java_telemetry_code_prometheus() {
    let generated = FeatureGenerator::new(TargetLanguage::Java).generate_telemetry_code(&telemetry(TelemetryProvider::Prometheus));
    assert_eq!(generated.code, r#"
private final MeterRegistry meterRegistry;
private final Timer requestTimer;
private final Counter requestCounter;
private final Counter errorCounter;

public void recordRequest(String method, String path, long durationMs, boolean success) {
    requestTimer.record(Duration.ofMillis(durationMs));
    requestCounter.increment(
        Tags.of(
            Tag.of("method", method),
            Tag.of("path", path)
        )
    );
    
    if (!success) {
        errorCounter.increment(
            Tags.of(
                Tag.of("method", method),
                Tag.of("path", path)
            )
        );
    }
}
"#);
    assert_eq!(generated.dependencies, vec![r#"io.micrometer:micrometer-core:1.12.0"#, r#"io.micrometer:micrometer-registry-prometheus:1.12.0"#]);
    assert_eq!(generated.imports, vec![r#"import io.micrometer.core.instrument.MeterRegistry;"#, r#"import io.micrometer.core.instrument.Timer;"#, r#"import io.micrometer.core.instrument.Counter;"#, r#"import io.micrometer.prometheus.PrometheusConfig;"#, r#"import io.micrometer.prometheus.PrometheusMeterRegistry;"#]);
    assert_eq!(generated.configuration.len(), 0);
}

#[test]
fn java_telemetry_code_open_telemetry() {
    let generated = FeatureGenerator::new(TargetLanguage::Java).generate_telemetry_code(&telemetry(TelemetryProvider::OpenTelemetry));
    assert_eq!(generated.code, r#"
private final MeterRegistry meterRegistry;
private final Timer requestTimer;
private final Counter requestCounter;
private final Counter errorCounter;

public void recordRequest(String method, String path, long durationMs, boolean success) {
    requestTimer.record(Duration.ofMillis(durationMs));
    requestCounter.increment(
        Tags.of(
            Tag.of("method", method),
            Tag.of("path", path)
        )
    );
    
    if (!success) {
        errorCounter.increment(
            Tags.of(
                Tag.of("method", method),
                Tag.of("path", path)
            )
        );
    }
}
"#);
    assert_eq!(generated.dependencies, vec![r#"io.micrometer:micrometer-core:1.12.0"#, r#"io.opentelemetry:opentelemetry-api:1.32.0"#]);
    assert_eq!(generated.imports, vec![r#"import io.micrometer.core.instrument.MeterRegistry;"#, r#"import io.micrometer.core.instrument.Timer;"#, r#"import io.micrometer.core.instrument.Counter;"#, r#"import io.opentelemetry.api.OpenTelemetry;"#]);
    assert_eq!(generated.configuration.len(), 0);
}

#[test]
fn java_telemetry_code_custom() {
    let generated = FeatureGenerator::new(TargetLanguage::Java).generate_telemetry_code(&telemetry(TelemetryProvider::Custom { implementation: "mine".to_string() }));
    assert_eq!(generated.code, r#"
private final MeterRegistry meterRegistry;
private final Timer requestTimer;
private final Counter requestCounter;
private final Counter errorCounter;

public void recordRequest(String method, String path, long durationMs, boolean success) {
    requestTimer.record(Duration.ofMillis(durationMs));
    requestCounter.increment(
        Tags.of(
            Tag.of("method", method),
            Tag.of("path", path)
        )
    );
    
    if (!success) {
        errorCounter.increment(
            Tags.of(
                Tag.of("method", method),
                Tag.of("path", path)
            )
        );
    }
}
"#);
    assert_eq!(generated.dependencies, vec![r#"io.micrometer:micrometer-core:1.12.0"#]);
    assert_eq!(generated.imports, vec![r#"import io.micrometer.core.instrument.MeterRegistry;"#, r#"import io.micrometer.core.instrument.Timer;"#, r#"import io.micrometer.core.instrument.Counter;"#]);
    assert_eq!(generated.configuration.len(), 0);
}

#[test]
fn python_telemetry_code() {
    let generated = FeatureGenerator::new(TargetLanguage::Python).generate_telemetry_code(&telemetry(TelemetryProvider::OpenTelemetry));
    assert_eq!(generated.code, r#"
class TelemetryHandler:
    def __init__(self):
        self.registry = CollectorRegistry()
        self.request_duration = Histogram(
            'http_request_duration_seconds',
            'Time spent on HTTP requests',
            ['method', 'path'],
            registry=self.registry
        )
        self.request_count = Counter(
            'http_requests_total',
            'Total HTTP requests',
            ['method', 'path', 'status'],
            registry=self.registry
        )
    
    def record_request(self, method: str, path: str, duration: float, status: int):
        self.request_duration.labels(method=method, path=path).observe(duration)
        self.request_count.labels(method=method, path=path, status=str(status)).inc()
"#);
    assert_eq!(generated.dependencies, vec![r#"prometheus-client>=0.19.0"#, r#"opentelemetry-api>=1.21.0"#]);
    assert_eq!(generated.imports, vec![r#"from prometheus_client import Counter, Histogram, CollectorRegistry"#, r#"import time"#, r#"from opentelemetry import trace"#]);
    assert_eq!(generated.configuration.len(), 0);
}

#[test]
fn python_telemetry_code_prometheus() {
    let generated = FeatureGenerator::new(TargetLanguage::Python).generate_telemetry_code(&telemetry(TelemetryProvider::Prometheus));
    assert_eq!(generated.code, r#"
class TelemetryHandler:
    def __init__(self):
        self.registry = CollectorRegistry()
        self.request_duration = Histogram(
            'http_request_duration_seconds',
            'Time spent on HTTP requests',
            ['method', 'path'],
            registry=self.registry
        )
        self.request_count = Counter(
            'http_requests_total',
            'Total HTTP requests',
            ['method', 'path', 'status'],
            registry=self.registry
        )
    
    def record_request(self, method: str, path: str, duration: float, status: int):
        self.request_duration.labels(method=method, path=path).observe(duration)
        self.request_count.labels(method=method, path=path, status=str(status)).inc()
"#);
    assert_eq!(generated.dependencies, vec![r#"prometheus-client>=0.19.0"#]);
    assert_eq!(generated.imports, vec![r#"from prometheus_client import Counter, Histogram, CollectorRegistry"#, r#"import time"#]);
    assert_eq!(generated.configuration.len(), 0);
}

#[test]
fn rust_telemetry_code() {
    let generated = FeatureGenerator::new(TargetLanguage::Rust).generate_telemetry_code(&telemetry(TelemetryProvider::OpenTelemetry));
    assert_eq!(generated.code, r#"
lazy_static! {
    static ref REQUEST_DURATION: Histogram = Histogram::with_opts(
        HistogramOpts::new("http_request_duration_seconds", "HTTP request duration")
    ).unwrap();
    
    static ref REQUEST_COUNT: Counter = Counter::with_opts(
        Opts::new("http_requests_total", "Total HTTP requests")
    ).unwrap();
}

pub struct TelemetryHandler {
    registry: Registry,
}

impl TelemetryHandler {
    pub fn new() -> Self {
        let registry = Registry::new();
        registry.register(Box::new(REQUEST_DURATION.clone())).unwrap();
        registry.register(Box::new(REQUEST_COUNT.clone())).unwrap();
        
        Self { registry }
    }
    
    pub fn record_request(&self, method: &str, path: &str, duration: f64) {
        REQUEST_DURATION.observe(duration);
        REQUEST_COUNT.inc();
    }
}
"#);
    assert_eq!(generated.dependencies, vec![r#"prometheus = "0.13""#, r#"lazy_static = "1.4""#, r#"opentelemetry = "0.21""#]);
    assert_eq!(generated.imports, vec![r#"use prometheus::{Counter, Histogram, Registry, Opts, HistogramOpts};"#, r#"use lazy_static::lazy_static;"#, r#"use std::time::Instant;"#, r#"use opentelemetry::{trace::Tracer, global};"#]);
    assert_eq!(generated.configuration.len(), 0);
}

#[test]
fn go_telemetry_code() {
    let generated = FeatureGenerator::new(TargetLanguage::Go).generate_telemetry_code(&telemetry(TelemetryProvider::OpenTelemetry));
    assert_eq!(generated.code, r#"
var (
    requestDuration = prometheus.NewHistogramVec(
        prometheus.HistogramOpts{
            Name: "http_request_duration_seconds",
            Help: "Duration of HTTP requests.",
        },
        []string{"method", "path"},
    )
    
    requestCount = prometheus.NewCounterVec(
        prometheus.CounterOpts{
            Name: "http_requests_total",
            Help: "Total number of HTTP requests.",
        },
        []string{"method", "path", "status"},
    )
)

func init() {
    prometheus.MustRegister(requestDuration)
    prometheus.MustRegister(requestCount)
}

func (c *Client) recordMetrics(method, path string, duration time.Duration, statusCode int) {
    requestDuration.WithLabelValues(method, path).Observe(duration.Seconds())
    requestCount.WithLabelValues(method, path, fmt.Sprintf("%d", statusCode)).Inc()
}
"#);
    assert_eq!(generated.dependencies, vec![r#"github.com/prometheus/client_golang/prometheus"#]);
    assert_eq!(generated.imports, vec![r#"github.com/prometheus/client_golang/prometheus"#, r#"time"#]);
    assert_eq!(generated.configuration.len(), 0);
}

#[test]
fn typescript_telemetry_code() {
    let generated = FeatureGenerator::new(TargetLanguage::TypeScript).generate_telemetry_code(&telemetry(TelemetryProvider::Prometheus));
    assert_eq!(generated.code, r#"
class TelemetryHandler {
  private requestDuration: Histogram<string>;
  private requestCount: Counter<string>;
  
  constructor() {
    this.requestDuration = new Histogram({
      name: 'http_request_duration_seconds',
      help: 'Duration of HTTP requests in seconds',
      labelNames: ['method', 'path']
    });
    
    this.requestCount = new Counter({
      name: 'http_requests_total',
      help: 'Total number of HTTP requests',
      labelNames: ['method', 'path', 'status']
    });
    
    register.registerMetric(this.requestDuration);
    register.registerMetric(this.requestCount);
  }
  
  recordRequest(method: string, path: string, duration: number, status: number): void {
    this.requestDuration.labels(method, path).observe(duration);
    this.requestCount.labels(method, path, status.toString()).inc();
  }
}
"#);
    assert_eq!(generated.dependencies, vec![r#"prom-client"#]);
    assert_eq!(generated.imports, vec![r#"import { Counter, Histogram, register } from 'prom-client';"#]);
    assert_eq!(generated.configuration.len(), 0);
}

#[test]
fn the_same_inputs_give_the_same_fragment() {
    for language in [
        TargetLanguage::Java,
        TargetLanguage::Python,
        TargetLanguage::Rust,
        TargetLanguage::Go,
        TargetLanguage::TypeScript,
    ] {
        let generator = FeatureGenerator::new(language);
        let a = generator.generate_retry_code(&RetryConfig::default());
        let b = generator.generate_retry_code(&RetryConfig::default());
        assert_eq!(a.code, b.code);
        assert_eq!(a.dependencies, b.dependencies);
        assert_eq!(a.imports, b.imports);
        assert_eq!(a.configuration, b.configuration);
    }
}

#[test]
fn every_retry_fragment_holds_the_configured_backoff() {
    let expected = [
        (TargetLanguage::Java, ".withBackoff(Duration.ofMillis(100), Duration.ofMillis(5000), 2)"),
        (TargetLanguage::Python, "wait_exponential(multiplier=2, min=0.1, max=5)"),
        (
            TargetLanguage::Rust,
            "ExponentialBackoff::from_millis(100).factor(2).max_delay(Duration::from_millis(5000))",
        ),
        (TargetLanguage::Go, "float64(100) * math.Pow(2, float64(attempt))"),
        (TargetLanguage::Go, "if delay > 5000*time.Millisecond"),
        (TargetLanguage::TypeScript, "Math.min(100 * Math.pow(2, attempt), 5000)"),
    ];
    for (language, formula) in expected {
        let code = FeatureGenerator::new(language).generate_retry_code(&RetryConfig::default()).code;
        assert!(code.contains(formula), "{:?}: {}", language, code);
    }
    let fixed = retry(3, BackoffStrategy::Fixed { delay_ms: 1 });
    for language in [TargetLanguage::Go, TargetLanguage::TypeScript] {
        let generator = FeatureGenerator::new(language);
        assert_ne!(
            generator.generate_retry_code(&fixed).code,
            generator.generate_retry_code(&RetryConfig::default()).code
        );
    }
}

#[test]
fn merge_joins_code_in_order() {
    let a = fragment("A", &["z", "b"], &["i2", "i1"]);
    let b = fragment("B", &["b", "a"], &["i1"]);
    let ab = FeatureCode::merge(vec![a.clone(), b.clone()]);
    let ba = FeatureCode::merge(vec![b, a]);
    assert_eq!(ab.code, "A\n\nB");
    assert_eq!(ba.code, "B\n\nA");
    assert_ne!(ab.code, ba.code);
    assert_eq!(ab.dependencies, vec!["a", "b", "z"]);
    assert_eq!(ab.dependencies, ba.dependencies);
    assert_eq!(ab.imports, vec!["i1", "i2"]);
    assert_eq!(ab.imports, ba.imports);
}

#[test]
fn merge_of_codes_that_repeat_one_word_shows_no_order() {
    let a = fragment("", &[], &[]);
    let b = fragment("\n\n", &[], &[]);
    let ab = FeatureCode::merge(vec![a.clone(), b.clone()]);
    let ba = FeatureCode::merge(vec![b, a]);
    assert_eq!(ab.code, "\n\n\n\n");
    assert_eq!(ab.code, ba.code);
}

#[test]
fn merge_at_the_edges() {
    let none = FeatureCode::merge(Vec::new());
    assert_eq!(none.code, "");
    assert!(none.dependencies.is_empty());
    assert!(none.imports.is_empty());
    assert_eq!(none.configuration.len(), 0);
    let one = FeatureCode::merge(vec![fragment("only", &["b", "a", "b"], &[])]);
    assert_eq!(one.code, "only");
    assert_eq!(one.dependencies, vec!["a", "b"]);
    let three = FeatureCode::merge(vec![
        fragment("1", &["B", "a"], &[]),
        fragment("", &["ab", "a"], &[]),
        fragment("3", &["", "\u{e9}"], &[]),
    ]);
    assert_eq!(three.code, "1\n\n\n\n3");
    assert_eq!(three.dependencies, vec!["", "B", "a", "ab", "\u{e9}"]);
    let again = FeatureCode::merge(vec![three.clone(), three.clone()]);
    assert_eq!(again.dependencies, three.dependencies);
}

#[test]
fn merge_configuration_last_wins() {
    let mut a = fragment("A", &[], &[]);
    a.configuration.insert("timeout".to_string(), "1".to_string());
    a.configuration.insert("host".to_string(), "x".to_string());
    let mut b = fragment("B", &[], &[]);
    b.configuration.insert("timeout".to_string(), "2".to_string());
    let merged = FeatureCode::merge(vec![a.clone(), b.clone()]);
    assert_eq!(merged.configuration.get("timeout"), Some(&"2".to_string()));
    assert_eq!(merged.configuration.get("host"), Some(&"x".to_string()));
    assert_eq!(merged.configuration.len(), 2);
    let reversed = FeatureCode::merge(vec![b, a]);
    assert_eq!(reversed.configuration.get("timeout"), Some(&"1".to_string()));
    let same = FeatureCode::merge_all(&vec![merged.clone()]);
    assert_eq!(same.configuration, merged.configuration);
}
