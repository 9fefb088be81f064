//! Application configuration: per-handler settings and where configuration is read from.

use vstd::prelude::*;

use crate::layers::buffer::HandlerBufferConfig;
use crate::layers::cors::CorsConfig;
use crate::layers::rate::HandlerRateLimitConfig;
use crate::layers::timeout::HandlerTimeoutConfig;
use crate::text::owned;

verus! {

/// Handler configuration.
#[derive(Clone, Debug)]
pub struct HandlerConfig {
    /// Disable this handler.
    pub disabled: bool,
    /// Hide this handler from the API documentation.
    pub hidden: bool,
    /// Request buffering queue.
    pub buffer: Option<HandlerBufferConfig>,
    /// CORS policy.
    pub cors: Option<CorsConfig>,
    /// Rate limits.
    pub rate_limit: Option<HandlerRateLimitConfig>,
    /// Concurrent request limit.
    pub throttle: Option<u8>,
    /// Timeouts.
    pub timeout: HandlerTimeoutConfig,
    /// Additional permissions required to call this handler.
    pub permissions: Vec<String>,
}

impl Default for HandlerConfig {
    fn default() -> (r: HandlerConfig)
        ensures
            !r.disabled && !r.hidden,
            r.buffer is None && r.cors is None && r.rate_limit is None && r.throttle is None,
            r.timeout.use_x_timeout && r.timeout.default_timeout is None,
            r.timeout.min_timeout is None && r.timeout.max_timeout is None,
            r.permissions@.len() == 0,
    {
        HandlerConfig {
            disabled: false,
            hidden: false,
            buffer: None,
            cors: None,
            rate_limit: None,
            throttle: None,
            timeout: HandlerTimeoutConfig::default(),
            permissions: Vec::new(),
        }
    }
}

/// A place configuration is read from.
#[derive(Clone, Debug, PartialEq, Eq)]
pub enum ConfigSource {
    /// A file, by name; the format follows the extension.
    File(String),
    /// Environment variables with a prefix: `<PREFIX>__<KEY>`, nested keys joined with `_`.
    Environment(String),
}

/// Errors of reading configuration: the message of the failure.
#[derive(Debug)]
pub enum ServiceConfigError {
    /// Configuration could not be read or did not have the expected shape.
    Config(String),
}

/// Builder of service configuration: the sources to read, later ones overriding
/// earlier ones.
#[derive(Clone, Debug)]
pub struct ServiceConfigBuilder {
    /// Sources, in the order they are applied.
    pub sources: Vec<ConfigSource>,
}

impl ServiceConfigBuilder {
    /// Create new configuration builder, with no sources.
    pub fn new() -> (r: ServiceConfigBuilder)
        ensures
            r.sources@.len() == 0,
    {
        ServiceConfigBuilder { sources: Vec::new() }
    }

    /// Add a configuration source.
    pub fn with_source(self, source: ConfigSource) -> (r: ServiceConfigBuilder)
        ensures
            r.sources@ == self.sources@.push(source),
    {
        let mut sources = self.sources;
        sources.push(source);
        ServiceConfigBuilder { sources }
    }

    /// Add a configuration file.
    pub fn with_file(self, name: &str) -> (r: ServiceConfigBuilder)
        ensures
            r.sources@.len() == self.sources@.len() + 1,
            r.sources@.drop_last() == self.sources@,
            r.sources@.last() matches ConfigSource::File(f) && f@ == name@,
    {
        let r = self.with_source(ConfigSource::File(owned(name)));
        assert(r.sources@.drop_last() =~= self.sources@);
        r
    }

    /// Add environment variables with a prefix.
    pub fn with_env(self, prefix: &str) -> (r: ServiceConfigBuilder)
        ensures
            r.sources@.len() == self.sources@.len() + 1,
            r.sources@.drop_last() == self.sources@,
            r.sources@.last() matches ConfigSource::Environment(p) && p@ == prefix@,
    {
        let r = self.with_source(ConfigSource::Environment(owned(prefix)));
        assert(r.sources@.drop_last() =~= self.sources@);
        r
    }
}

} // verus!
