//! The source text of the feature fragments, language by language.
//!
//! A fragment with configured numbers in it is held in pieces; the numbers
//! go between them.

use vstd::prelude::*;

verus! {

/// The Java retry helper: first piece.
pub const JAVA_RETRY_HEAD: &'static str = r#"
private static final RetryPolicy<Object> RETRY_POLICY = RetryPolicy.builder()
    .withMaxAttempts("#;

/// The Java retry helper: second piece.
pub const JAVA_RETRY_MIDDLE: &'static str = r#")
    "#;

/// The Java retry helper: third piece.
pub const JAVA_RETRY_TAIL: &'static str = r#"
    .handle(ConnectException.class, SocketTimeoutException.class)
    .build();

public <T> T executeWithRetry(Supplier<T> operation) {
    return Failsafe.with(RETRY_POLICY).get(operation);
}
"#;

/// The Java telemetry handler.
pub const JAVA_TELEMETRY_CODE: &'static str = r#"
private final MeterRegistry meterRegistry;
private final Timer requestTimer;
private final Counter requestCounter;
private final Counter errorCounter;

public void recordRequest(String method, String path, long durationMs, boolean success) {
    requestTimer.record(Duration.ofMillis(durationMs));
    requestCounter.increment(
        Tags.of(
            Tag.of("method", method),
            Tag.of("path", path)
        )
    );
    
    if (!success) {
        errorCounter.increment(
            Tags.of(
                Tag.of("method", method),
                Tag.of("path", path)
            )
        );
    }
}
"#;

/// The Java cache handler: first piece.
pub const JAVA_CACHING_HEAD: &'static str = r#"
private final Cache<String, Object> cache = Caffeine.newBuilder()
    .maximumSize("#;

/// The Java cache handler: second piece.
pub const JAVA_CACHING_MIDDLE: &'static str = r#")
    .expireAfterWrite(Duration.ofSeconds("#;

/// The Java cache handler: third piece.
pub const JAVA_CACHING_TAIL: &'static str = r#"))
    .build();

public <T> Optional<T> getFromCache(String key, Class<T> type) {
    Object value = cache.getIfPresent(key);
    return value != null ? Optional.of(type.cast(value)) : Optional.empty();
}

public void putInCache(String key, Object value) {
    cache.put(key, value);
}

private String generateCacheKey(String method, Object... params) {
    return method + ":" + Arrays.hashCode(params);
}
"#;

/// The Python retry helper: first piece.
pub const PYTHON_RETRY_HEAD: &'static str = r#"
@retry(
    stop=stop_after_attempt("#;

/// The Python retry helper: second piece.
pub const PYTHON_RETRY_MIDDLE: &'static str = r#"),
    wait="#;

/// The Python retry helper: third piece.
pub const PYTHON_RETRY_TAIL: &'static str = r#",
    retry=retry_if_exception_type((httpx.ConnectError, httpx.TimeoutException))
)
async def execute_with_retry(self, operation):
    return await operation()
"#;

/// The Python telemetry handler.
pub const PYTHON_TELEMETRY_CODE: &'static str = r#"
class TelemetryHandler:
    def __init__(self):
        self.registry = CollectorRegistry()
        self.request_duration = Histogram(
            'http_request_duration_seconds',
            'Time spent on HTTP requests',
            ['method', 'path'],
            registry=self.registry
        )
        self.request_count = Counter(
            'http_requests_total',
            'Total HTTP requests',
            ['method', 'path', 'status'],
            registry=self.registry
        )
    
    def record_request(self, method: str, path: str, duration: float, status: int):
        self.request_duration.labels(method=method, path=path).observe(duration)
        self.request_count.labels(method=method, path=path, status=str(status)).inc()
"#;

/// The Python cache handler: first piece.
pub const PYTHON_CACHING_HEAD: &'static str = r#"
class CacheHandler:
    def __init__(self):
        self.cache = TTLCache(maxsize="#;

/// The Python cache handler: second piece.
pub const PYTHON_CACHING_MIDDLE: &'static str = r#", ttl="#;

/// The Python cache handler: third piece.
pub const PYTHON_CACHING_TAIL: &'static str = r#")
    
    def get_from_cache(self, key: str):
        return self.cache.get(key)
    
    def put_in_cache(self, key: str, value):
        self.cache[key] = value
    
    def generate_cache_key(self, method: str, **params) -> str:
        cache_data = {"method": method, "params": params}
        cache_str = json.dumps(cache_data, sort_keys=True)
        return hashlib.md5(cache_str.encode()).hexdigest()
"#;

/// The Rust retry helper: first piece.
pub const RUST_RETRY_HEAD: &'static str = r#"
use tokio_retry::{strategy::*, Retry};

pub async fn execute_with_retry<F, T, E>(operation: F) -> Result<T, E>
where
    F: Fn() -> std::pin::Pin<Box<dyn std::future::Future<Output = Result<T, E>> + Send>> + Send,
    E: std::fmt::Debug,
{
    let retry_strategy = "#;

/// The Rust retry helper: second piece.
pub const RUST_RETRY_MIDDLE: &'static str = r#".take("#;

/// The Rust retry helper: third piece.
pub const RUST_RETRY_TAIL: &'static str = r#");
    
    Retry::spawn(retry_strategy, || async {
        operation().await
    }).await
}
"#;

/// The Rust telemetry handler.
pub const RUST_TELEMETRY_CODE: &'static str = r#"
lazy_static! {
    static ref REQUEST_DURATION: Histogram = Histogram::with_opts(
        HistogramOpts::new("http_request_duration_seconds", "HTTP request duration")
    ).unwrap();
    
    static ref REQUEST_COUNT: Counter = Counter::with_opts(
        Opts::new("http_requests_total", "Total HTTP requests")
    ).unwrap();
}

pub struct TelemetryHandler {
    registry: Registry,
}

impl TelemetryHandler {
    pub fn new() -> Self {
        let registry = Registry::new();
        registry.register(Box::new(REQUEST_DURATION.clone())).unwrap();
        registry.register(Box::new(REQUEST_COUNT.clone())).unwrap();
        
        Self { registry }
    }
    
    pub fn record_request(&self, method: &str, path: &str, duration: f64) {
        REQUEST_DURATION.observe(duration);
        REQUEST_COUNT.inc();
    }
}
"#;

/// The Rust cache handler: first piece.
pub const RUST_CACHING_HEAD: &'static str = r#"
pub struct CacheHandler {
    cache: Cache<String, serde_json::Value>,
}

impl CacheHandler {
    pub fn new() -> Self {
        let cache = Cache::builder()
            .max_capacity("#;

/// The Rust cache handler: second piece.
pub const RUST_CACHING_MIDDLE: &'static str = r#")
            .time_to_live(Duration::from_secs("#;

/// The Rust cache handler: third piece.
pub const RUST_CACHING_TAIL: &'static str = r#"))
            .build();
        
        Self { cache }
    }
    
    pub async fn get_from_cache<T>(&self, key: &str) -> Option<T>
    where
        T: serde::de::DeserializeOwned,
    {
        let value = self.cache.get(key).await?;
        serde_json::from_value(value).ok()
    }
    
    pub async fn put_in_cache<T>(&self, key: String, value: &T)
    where
        T: serde::Serialize,
    {
        if let Ok(json_value) = serde_json::to_value(value) {
            self.cache.insert(key, json_value).await;
        }
    }
    
    pub fn generate_cache_key(&self, method: &str, params: &impl Hash) -> String {
        let mut hasher = DefaultHasher::new();
        method.hash(&mut hasher);
        params.hash(&mut hasher);
        format!("{}:{:x}", method, hasher.finish())
    }
}
"#;

/// The Go retry helper: first piece.
pub const GO_RETRY_HEAD: &'static str = r#"
type RetryConfig struct {
    MaxAttempts int
    BaseDelay   time.Duration
    MaxDelay    time.Duration
}

func (c *Client) executeWithRetry(fn func() error) error {
    var lastErr error
    
    for attempt := 0; attempt < "#;

/// The Go retry helper: second piece.
pub const GO_RETRY_MIDDLE: &'static str = r#"; attempt++ {
        err := fn()
        if err == nil {
            return nil
        }
        
        lastErr = err
        
        if attempt < "#;

/// The Go retry helper: third piece. The statements that set the delay
/// follow it.
pub const GO_RETRY_BODY: &'static str = r#" - 1 {
            "#;

/// The Go retry helper: last piece.
pub const GO_RETRY_TAIL: &'static str = r#"
            time.Sleep(delay)
        }
    }
    
    return lastErr
}
"#;

/// The Go telemetry handler.
pub const GO_TELEMETRY_CODE: &'static str = r#"
var (
    requestDuration = prometheus.NewHistogramVec(
        prometheus.HistogramOpts{
            Name: "http_request_duration_seconds",
            Help: "Duration of HTTP requests.",
        },
        []string{"method", "path"},
    )
    
    requestCount = prometheus.NewCounterVec(
        prometheus.CounterOpts{
            Name: "http_requests_total",
            Help: "Total number of HTTP requests.",
        },
        []string{"method", "path", "status"},
    )
)

func init() {
    prometheus.MustRegister(requestDuration)
    prometheus.MustRegister(requestCount)
}

func (c *Client) recordMetrics(method, path string, duration time.Duration, statusCode int) {
    requestDuration.WithLabelValues(method, path).Observe(duration.Seconds())
    requestCount.WithLabelValues(method, path, fmt.Sprintf("%d", statusCode)).Inc()
}
"#;

/// The Go cache handler: first piece.
pub const GO_CACHING_HEAD: &'static str = r#"
type CacheHandler struct {
    cache *cache.Cache
}

func NewCacheHandler() *CacheHandler {
    c := cache.New("#;

/// The Go cache handler: second piece.
pub const GO_CACHING_TAIL: &'static str = r#"*time.Second, 10*time.Minute)
    return &CacheHandler{cache: c}
}

func (ch *CacheHandler) Get(key string) (interface{}, bool) {
    return ch.cache.Get(key)
}

func (ch *CacheHandler) Set(key string, value interface{}) {
    ch.cache.Set(key, value, cache.DefaultExpiration)
}

func (ch *CacheHandler) GenerateCacheKey(method string, params ...interface{}) string {
    h := md5.New()
    h.Write([]byte(method))
    for _, param := range params {
        h.Write([]byte(fmt.Sprintf("%v", param)))
    }
    return fmt.Sprintf("%x", h.Sum(nil))
}
"#;

/// The TypeScript retry helper: first piece.
pub const TYPESCRIPT_RETRY_HEAD: &'static str = r#"
interface RetryConfig {
  maxAttempts: number;
}

class RetryHandler {
  private config: RetryConfig;
  
  constructor(config: RetryConfig = { maxAttempts: "#;

/// The TypeScript retry helper: second piece. The expression of the
/// delay follows it.
pub const TYPESCRIPT_RETRY_MIDDLE: &'static str = r#" }) {
    this.config = config;
  }
  
  async executeWithRetry<T>(fn: () => Promise<T>): Promise<T> {
    let lastError: Error;
    
    for (let attempt = 0; attempt < this.config.maxAttempts; attempt++) {
      try {
        return await fn();
      } catch (error) {
        lastError = error instanceof Error ? error : new Error(String(error));
        
        if (attempt < this.config.maxAttempts - 1) {
          const delay = "#;

/// The TypeScript retry helper: last piece.
pub const TYPESCRIPT_RETRY_TAIL: &'static str = r#";
          await new Promise(resolve => setTimeout(resolve, delay));
        }
      }
    }
    
    throw lastError!;
  }
}
"#;

/// The TypeScript telemetry handler.
pub const TYPESCRIPT_TELEMETRY_CODE: &'static str = r#"
class TelemetryHandler {
  private requestDuration: Histogram<string>;
  private requestCount: Counter<string>;
  
  constructor() {
    this.requestDuration = new Histogram({
      name: 'http_request_duration_seconds',
      help: 'Duration of HTTP requests in seconds',
      labelNames: ['method', 'path']
    });
    
    this.requestCount = new Counter({
      name: 'http_requests_total',
      help: 'Total number of HTTP requests',
      labelNames: ['method', 'path', 'status']
    });
    
    register.registerMetric(this.requestDuration);
    register.registerMetric(this.requestCount);
  }
  
  recordRequest(method: string, path: string, duration: number, status: number): void {
    this.requestDuration.labels(method, path).observe(duration);
    this.requestCount.labels(method, path, status.toString()).inc();
  }
}
"#;

/// The TypeScript cache handler: first piece.
pub const TYPESCRIPT_CACHING_HEAD: &'static str = r#"
class CacheHandler {
  private cache: NodeCache;
  
  constructor() {
    this.cache = new NodeCache({
      stdTTL: "#;

/// The TypeScript cache handler: second piece.
pub const TYPESCRIPT_CACHING_MIDDLE: &'static str = r#",
      maxKeys: "#;

/// The TypeScript cache handler: third piece.
pub const TYPESCRIPT_CACHING_TAIL: &'static str = r#",
      checkperiod: 600
    });
  }
  
  get<T>(key: string): T | undefined {
    return this.cache.get<T>(key);
  }
  
  set<T>(key: string, value: T, ttl?: number): boolean {
    return this.cache.set(key, value, ttl);
  }
  
  generateCacheKey(method: string, params: Record<string, any>): string {
    const data = { method, params };
    const hash = crypto.createHash('md5');
    hash.update(JSON.stringify(data));
    return hash.digest('hex');
  }
  
  clear(): void {
    this.cache.flushAll();
  }
}
"#;

} // verus!
