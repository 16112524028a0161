//! Configuration model.
//!
//! The model-capability registry is configuration-driven: adding or retuning a
//! model is a config change, not a code change. Reading and parsing the YAML
//! file is done by the binary; this module holds the parsed values and the
//! validation rules.

use vstd::prelude::*;

verus! {

/// Nanoseconds in one millisecond.
pub const NANOS_PER_MILLI: u128 = 1_000_000u128;

/// A configured duration in milliseconds, as whole nanoseconds.
pub open spec fn millis_to_nanos(ms: u64) -> u128 {
    (ms as int * 1_000_000) as u128
}

/// Converts milliseconds to nanoseconds; never overflows a `u128`.
pub fn nanos_from_millis(ms: u64) -> (ns: u128)
    ensures
        ns == millis_to_nanos(ms),
        ns as int == ms as int * 1_000_000,
{
    assert(ms as int * 1_000_000 <= 0xffff_ffff_ffff_ffff * 1_000_000) by (nonlinear_arith)
        requires ms <= 0xffff_ffff_ffff_ffffu64;
    (ms as u128) * NANOS_PER_MILLI
}

#[derive(Debug, Clone)]
pub struct ServerConfig {
    pub bind_addr: String,
    pub global_max_inflight: usize,
    pub default_deadline_ms: u64,
}

#[derive(Debug, Clone)]
pub struct CircuitBreakerConfig {
    pub failure_threshold: usize,
    pub open_cooldown_ms: u64,
    pub half_open_success_threshold: usize,
}

#[derive(Debug, Clone)]
pub struct AdmissionConfig {
    pub queue_capacity: usize,
    pub queue_timeout_ms: u64,
    pub circuit_breaker: CircuitBreakerConfig,
}

#[derive(Debug, Clone)]
pub struct HealthConfig {
    pub poll_interval_ms: u64,
    pub unhealthy_after: usize,
}

/// The kind of inference a model performs.
#[derive(Debug, Clone, Copy, PartialEq, Eq, Structural)]
pub enum Workload {
    ImageClassification,
    Embedding,
    ChatCompletion,
}

impl Workload {
    /// The stable wire name of the workload.
    pub open spec fn label(self) -> Seq<char> {
        match self {
            Workload::ImageClassification => "image_classification"@,
            Workload::Embedding => "embedding"@,
            Workload::ChatCompletion => "chat_completion"@,
        }
    }

    pub fn as_str(self) -> (s: &'static str)
        ensures
            s@ == self.label(),
    {
        match self {
            Workload::ImageClassification => "image_classification",
            Workload::Embedding => "embedding",
            Workload::ChatCompletion => "chat_completion",
        }
    }
}

/// The inference engine a model is served by.
#[derive(Debug, Clone, Copy, PartialEq, Eq, Hash, Structural)]
pub enum Backend {
    Triton,
    Dynamo,
}

impl Backend {
    /// The stable wire name of the backend.
    pub open spec fn label(self) -> Seq<char> {
        match self {
            Backend::Triton => "triton"@,
            Backend::Dynamo => "dynamo"@,
        }
    }

    pub fn as_str(self) -> (s: &'static str)
        ensures
            s@ == self.label(),
    {
        match self {
            Backend::Triton => "triton",
            Backend::Dynamo => "dynamo",
        }
    }
}

/// The transport a model's backend speaks.
#[derive(Debug, Clone, Copy, PartialEq, Eq, Structural)]
pub enum Protocol {
    Http,
    Grpc,
}

impl Protocol {
    /// The stable wire name of the protocol.
    pub open spec fn label(self) -> Seq<char> {
        match self {
            Protocol::Http => "http"@,
            Protocol::Grpc => "grpc"@,
        }
    }

    pub fn as_str(self) -> (s: &'static str)
        ensures
            s@ == self.label(),
    {
        match self {
            Protocol::Http => "http",
            Protocol::Grpc => "grpc",
        }
    }
}

/// The request-size limit used when a model does not configure one: 1 MiB.
pub fn default_max_request_bytes() -> (n: usize)
    ensures
        n == 1048576,
{
    assert(1usize << 20usize == 1048576usize) by (bit_vector);
    1usize << 20usize
}

/// The default of `RetryConfig::only_on_connect_error`.
pub fn default_true() -> (b: bool)
    ensures
        b,
{
    true
}

#[derive(Debug, Clone)]
pub struct RetryConfig {
    pub max_retries: usize,
    pub only_on_connect_error: bool,
}

impl RetryConfig {
    pub fn copied(&self) -> (r: RetryConfig)
        ensures
            r == *self,
    {
        RetryConfig { max_retries: self.max_retries, only_on_connect_error: self.only_on_connect_error }
    }
}

impl Default for RetryConfig {
    /// No retries; if retries are configured, only connection failures are retried.
    fn default() -> (r: RetryConfig)
        ensures
            r.max_retries == 0,
            r.only_on_connect_error,
    {
        RetryConfig { max_retries: 0, only_on_connect_error: true }
    }
}

#[derive(Debug, Clone)]
pub struct ModelConfig {
    pub workload: Workload,
    pub backend: Backend,
    pub protocol: Protocol,
    pub endpoint: String,
    pub timeout_ms: u64,
    pub max_concurrency: usize,
    pub streaming: bool,
    pub max_request_bytes: usize,
    pub retry: RetryConfig,
}

impl ModelConfig {
    /// The per-attempt upstream timeout, in nanoseconds.
    pub fn timeout(&self) -> (ns: u128)
        ensures
            ns == millis_to_nanos(self.timeout_ms),
    {
        nanos_from_millis(self.timeout_ms)
    }

    /// An identical copy of this model's configuration.
    pub fn copied(&self) -> (r: ModelConfig)
        ensures
            r == *self,
    {
        ModelConfig {
            workload: self.workload,
            backend: self.backend,
            protocol: self.protocol,
            endpoint: self.endpoint.clone(),
            timeout_ms: self.timeout_ms,
            max_concurrency: self.max_concurrency,
            streaming: self.streaming,
            max_request_bytes: self.max_request_bytes,
            retry: self.retry.copied(),
        }
    }

    /// A model is acceptable when it may run at least one request at a time
    /// and only chat models stream.
    pub open spec fn is_valid(self) -> bool {
        &&& self.max_concurrency != 0
        &&& (self.streaming ==> self.workload == Workload::ChatCompletion)
    }

    /// The validation message for an unacceptable model named `name`.
    pub open spec fn invalid_message(self, name: Seq<char>) -> Seq<char> {
        if self.max_concurrency == 0 {
            "model '"@ + name + "' has max_concurrency = 0"@
        } else {
            "model '"@ + name + "' enables streaming but is not a chat_completion workload"@
        }
    }
}

/// Why a configuration could not be loaded.
#[derive(Debug)]
pub enum ConfigError {
    /// The file could not be read.
    Read { path: String, message: String },
    /// The file is not a well-formed configuration document.
    Parse(String),
    /// The configuration is well-formed but violates a rule.
    Invalid(String),
}

/// The whole gateway configuration. `models` pairs each model name with its
/// configuration.
#[derive(Debug, Clone)]
pub struct Config {
    pub server: ServerConfig,
    pub admission: AdmissionConfig,
    pub health: HealthConfig,
    pub models: Vec<(String, ModelConfig)>,
}

impl Config {
    /// Each model name occurs once.
    pub open spec fn names_unique(self) -> bool {
        forall|i: int, j: int|
            0 <= i < self.models@.len() && 0 <= j < self.models@.len() && i != j
                ==> #[trigger] self.models@[i].0@ != #[trigger] self.models@[j].0@
    }

    /// Whether each model name occurs once (a configuration read from a YAML
    /// mapping always passes).
    pub fn has_unique_names(&self) -> (b: bool)
        ensures
            b == self.names_unique(),
    {
        let n = self.models.len();
        let mut i: usize = 0;
        while i < n
            invariant
                n == self.models@.len(),
                i <= n,
                forall|a: int, c: int|
                    0 <= a < i && 0 <= c < n && a != c ==> #[trigger] self.models@[a].0@
                        != #[trigger] self.models@[c].0@,
            decreases n - i,
        {
            let mut j: usize = 0;
            while j < n
                invariant
                    n == self.models@.len(),
                    i < n,
                    j <= n,
                    forall|c: int|
                        0 <= c < j && c != i ==> self.models@[i as int].0@
                            != #[trigger] self.models@[c].0@,
                decreases n - j,
            {
                if j != i && self.models[i].0 == self.models[j].0 {
                    return false;
                }
                j = j + 1;
            }
            i = i + 1;
        }
        true
    }

    /// The index of the first unacceptable model is `i`.
    pub open spec fn first_invalid(self, i: int) -> bool {
        &&& 0 <= i < self.models@.len()
        &&& !self.models@[i].1.is_valid()
        &&& forall|j: int| 0 <= j < i ==> (#[trigger] self.models@[j].1).is_valid()
    }

    /// The configuration passes validation.
    pub open spec fn is_valid(self) -> bool {
        &&& self.models@.len() > 0
        &&& forall|i: int| 0 <= i < self.models@.len() ==> (#[trigger] self.models@[i].1).is_valid()
    }

    /// Checks the rules a loaded configuration must meet: at least one model,
    /// every model allows some concurrency, and only chat models stream. The
    /// first offending model (in `models` order) is reported.
    pub fn validate(&self) -> (r: Result<(), ConfigError>)
        ensures
            r is Ok <==> self.is_valid(),
            self.models@.len() == 0 ==> (r matches Err(ConfigError::Invalid(m)) && m@
                == "no models configured"@),
            self.models@.len() > 0 && !self.is_valid() ==> (r matches Err(ConfigError::Invalid(m))
                && exists|i: int|
                #![trigger self.models@[i]]
                self.first_invalid(i) && m@ == self.models@[i].1.invalid_message(
                    self.models@[i].0@,
                )),
    {
        if self.models.len() == 0 {
            return Err(ConfigError::Invalid(String::from_str("no models configured")));
        }
        let mut i: usize = 0;
        while i < self.models.len()
            invariant
                0 <= i <= self.models@.len(),
                forall|j: int| 0 <= j < i ==> (#[trigger] self.models@[j].1).is_valid(),
            decreases self.models@.len() - i,
        {
            let name = &self.models[i].0;
            let m = &self.models[i].1;
            if m.max_concurrency == 0 {
                let mut msg = String::from_str("model '");
                msg.append(name.as_str());
                msg.append("' has max_concurrency = 0");
                assert(self.first_invalid(i as int));
                return Err(ConfigError::Invalid(msg));
            }
            if m.streaming && m.workload != Workload::ChatCompletion {
                let mut msg = String::from_str("model '");
                msg.append(name.as_str());
                msg.append("' enables streaming but is not a chat_completion workload");
                assert(self.first_invalid(i as int));
                return Err(ConfigError::Invalid(msg));
            }
            i = i + 1;
        }
        Ok(())
    }

    /// How long a request may wait for admission, in nanoseconds.
    pub fn queue_timeout(&self) -> (ns: u128)
        ensures
            ns == millis_to_nanos(self.admission.queue_timeout_ms),
    {
        nanos_from_millis(self.admission.queue_timeout_ms)
    }

    /// The server-wide request deadline, in nanoseconds.
    pub fn default_deadline(&self) -> (ns: u128)
        ensures
            ns == millis_to_nanos(self.server.default_deadline_ms),
    {
        nanos_from_millis(self.server.default_deadline_ms)
    }
}

} // verus!
