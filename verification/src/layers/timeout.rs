//! Request timeouts: the deadline of a request from configuration and the
//! client's `X-Timeout` header.

use std::marker::PhantomData;

use vstd::prelude::*;

use crate::duration::Duration;
use crate::headers::{value_text, value_to_text};
use crate::layers::ext::Deadline;
use crate::text::owned;

verus! {

/// Name of the header in which a client may pass an ISO 8601 timeout duration.
pub const X_TIMEOUT: &'static str = "x-timeout";

/// Name of the duration, in nanoseconds, that an `X-Timeout` text gives: `None`
/// when `iso8601_duration` cannot parse the text, `Some(None)` when the parsed
/// duration has years or months (or does not fit a `std::time::Duration`).
pub uninterp spec fn x_timeout_duration(text: Seq<char>) -> Option<Option<nat>>;

/// The abstract content of an optional duration.
pub open spec fn duration_view(d: Option<Duration>) -> Option<nat> {
    match d {
        Some(d) => Some(d@),
        None => None,
    }
}

/// Parses an ISO 8601 duration with `iso8601_duration::Duration::from_str`, then
/// converts its `num_seconds` with `std::time::Duration::try_from_secs_f32`.
///
/// The contract claims only that the outcome is `x_timeout_duration` of the text,
/// and that durations come out with their nanoseconds below one second.
#[verifier::external_body]
fn parse_x_timeout(text: &str) -> (r: Option<Option<Duration>>)
    ensures
        match r {
            None => x_timeout_duration(text@) is None,
            Some(d) => x_timeout_duration(text@) == Some(duration_view(d)),
        },
        r matches Some(Some(d)) ==> d.wf(),
{
    match text.parse::<iso8601_duration::Duration>() {
        Err(_) => None,
        Ok(d) => match d.num_seconds() {
            None => Some(None),
            Some(secs) => match std::time::Duration::try_from_secs_f32(secs) {
                Ok(s) => Some(Some(Duration { secs: s.as_secs(), nanos: s.subsec_nanos() })),
                Err(_) => Some(None),
            },
        },
    }
}

/// Error type returned by timeout layer.
#[derive(Clone, Copy, Debug, PartialEq, Eq, Structural)]
pub enum TimeoutError {
    /// Request timed out.
    TimedOut,
}

impl TimeoutError {
    /// HTTP status code used for this error: 504.
    pub fn http_status(&self) -> (r: u16)
        ensures
            r == 504,
    {
        match self {
            TimeoutError::TimedOut => 504,
        }
    }

    /// Human-readable message of the error.
    pub fn message(&self) -> (r: String)
        ensures
            r@ == "Request timed out"@,
    {
        match self {
            TimeoutError::TimedOut => owned("Request timed out"),
        }
    }
}

/// Handler request timeout configuration.
#[derive(Clone, Copy, Debug, PartialEq, Eq, Structural)]
pub struct HandlerTimeoutConfig {
    /// Allow passing client-supplied ISO 8601 timeout duration in an `X-Timeout` HTTP header.
    pub use_x_timeout: bool,
    /// Default timeout for a handler.
    pub default_timeout: Option<Duration>,
    /// Minimum allowed timeout for a method.
    ///
    /// Timeout durations less than this value will automatically be responded
    /// with a 504 HTTP status code.
    pub min_timeout: Option<Duration>,
    /// Maximum allowed timeout for a method.
    ///
    /// Timeout durations over this value will automatically be responded
    /// with a 504 HTTP status code.
    pub max_timeout: Option<Duration>,
}

/// An optional duration is absent or well-formed.
pub open spec fn opt_wf(d: Option<Duration>) -> bool {
    d matches Some(x) ==> x.wf()
}

/// The timeout a request gets, in nanoseconds: from the `X-Timeout` header when
/// allowed and present (the default when its text is not visible ASCII or does not
/// parse), otherwise the default; zero, a deadline that has already passed, when it
/// is under the minimum or over the maximum, so that the request is answered with
/// 504 at once.
pub open spec fn timeout_spec(config: HandlerTimeoutConfig, header: Option<Seq<u8>>) -> Option<nat> {
    let default = duration_view(config.default_timeout);
    let base = match header {
        Some(h) if config.use_x_timeout => match value_text(h) {
            None => default,
            Some(text) => match x_timeout_duration(text) {
                None => default,
                Some(d) => d,
            },
        },
        _ => default,
    };
    match base {
        None => None,
        Some(d) => if config.min_timeout matches Some(min) && min@ > d {
            Some(0)
        } else if config.max_timeout matches Some(max) && max@ < d {
            Some(0)
        } else {
            Some(d)
        },
    }
}

impl Default for HandlerTimeoutConfig {
    fn default() -> (r: HandlerTimeoutConfig)
        ensures
            r.use_x_timeout,
            r.default_timeout is None,
            r.min_timeout is None,
            r.max_timeout is None,
    {
        HandlerTimeoutConfig {
            use_x_timeout: true,
            default_timeout: None,
            min_timeout: None,
            max_timeout: None,
        }
    }
}

impl HandlerTimeoutConfig {
    /// All configured durations are well-formed.
    pub open spec fn wf(&self) -> bool {
        opt_wf(self.default_timeout) && opt_wf(self.min_timeout) && opt_wf(self.max_timeout)
    }

    /// Predicate to skip serializing timeout: the configuration is the default one.
    pub fn is_default(&self) -> (r: bool)
        ensures
            r == (self.use_x_timeout && self.default_timeout is None && self.min_timeout is None
                && self.max_timeout is None),
    {
        self.use_x_timeout && self.default_timeout.is_none() && self.min_timeout.is_none()
            && self.max_timeout.is_none()
    }

    /// Create layer for use in tower services: only when a timeout can apply.
    pub fn make_layer<S>(&self) -> (r: Option<TimeoutLayer<S>>)
        ensures
            r is Some <==> (self.use_x_timeout || self.default_timeout is Some),
            r matches Some(l) ==> l.config == *self,
    {
        if self.use_x_timeout || self.default_timeout.is_some() {
            Some(TimeoutLayer { config: *self, _phantom_service: PhantomData })
        } else {
            None
        }
    }

    /// The timeout of a request, from configuration and the raw `X-Timeout` header value.
    pub fn resolve_timeout(&self, timeout_header: Option<&[u8]>) -> (r: Option<Duration>)
        requires
            self.wf(),
        ensures
            duration_view(r) == timeout_spec(
                *self,
                match timeout_header {
                    Some(h) => Some(h@),
                    None => None,
                },
            ),
            opt_wf(r),
    {
        let base: Option<Duration> = match timeout_header {
            Some(h) if self.use_x_timeout => match value_to_text(h) {
                None => self.default_timeout,
                Some(text) => match parse_x_timeout(text.as_str()) {
                    None => self.default_timeout,
                    Some(d) => d,
                },
            },
            _ => self.default_timeout,
        };
        match base {
            None => None,
            Some(d) => {
                match self.min_timeout {
                    Some(min) => {
                        if d.lt(&min) {
                            return Some(Duration::zero());
                        }
                    },
                    None => {},
                }
                match self.max_timeout {
                    Some(max) => {
                        if max.lt(&d) {
                            return Some(Duration::zero());
                        }
                    },
                    None => {},
                }
                Some(d)
            },
        }
    }

    /// Get the deadline of a request, counted from now, based on configuration and
    /// the `X-Timeout` header.
    pub fn get_deadline(&self, timeout_header: Option<&[u8]>) -> (r: Option<Deadline>)
        requires
            self.wf(),
        ensures
            match r {
                Some(d) => d.allowed().wf() && timeout_spec(
                    *self,
                    match timeout_header {
                        Some(h) => Some(h@),
                        None => None,
                    },
                ) == Some(d.allowed()@),
                None => timeout_spec(
                    *self,
                    match timeout_header {
                        Some(h) => Some(h@),
                        None => None,
                    },
                ) is None,
            },
    {
        match self.resolve_timeout(timeout_header) {
            Some(d) => Some(Deadline::after(d)),
            None => None,
        }
    }
}

/// Timeout layer: applies a timeout configuration to a service.
#[verifier::reject_recursive_types(S)]
pub struct TimeoutLayer<S> {
    /// Timeout configuration.
    pub config: HandlerTimeoutConfig,
    /// Inner service type.
    pub _phantom_service: PhantomData<S>,
}

impl<S> TimeoutLayer<S> {
    /// Wraps a service.
    pub fn layer(&self, inner: S) -> (r: TimeoutService<S>)
        ensures
            r.config == self.config,
            r.inner == inner,
    {
        TimeoutService::new(inner, &self.config)
    }
}

/// Timeout service: a service with its timeout configuration.
#[derive(Clone, Debug)]
pub struct TimeoutService<S> {
    /// Timeout configuration.
    pub config: HandlerTimeoutConfig,
    /// Inner service.
    pub inner: S,
}

impl<S> TimeoutService<S> {
    /// Create new timeout service.
    pub fn new(inner: S, config: &HandlerTimeoutConfig) -> (r: TimeoutService<S>)
        ensures
            r.config == *config,
            r.inner == inner,
    {
        TimeoutService { config: *config, inner }
    }
}

/// A requested timeout under the configured minimum or over the maximum.
pub open spec fn out_of_bounds(config: HandlerTimeoutConfig, d: nat) -> bool {
    (config.min_timeout matches Some(min) && d < min@) || (config.max_timeout matches Some(max) && max@ < d)
}

/// Bounds always win: a timeout that a request gets lies within the configured
/// minimum and maximum, unless it is zero, a deadline that has already passed, which
/// is what a request asking for a timeout out of bounds gets (and is answered with
/// 504); without a header (or with the header disabled) the default applies.
pub proof fn law_timeout_within_bounds(config: HandlerTimeoutConfig, header: Option<Seq<u8>>)
    ensures
        timeout_spec(config, header) matches Some(d) ==> d == 0 || ((config.min_timeout matches Some(min) ==> min@ <= d)
            && (config.max_timeout matches Some(max) ==> d <= max@)),
        forall|h: Seq<u8>, text: Seq<char>, d: nat|
            config.use_x_timeout && header == Some(h) && #[trigger] value_text(h) == Some(text)
                && #[trigger] x_timeout_duration(text) == Some(Some(d)) && #[trigger] out_of_bounds(config, d)
                ==> timeout_spec(config, header) == Some(0nat),
        (header is None || !config.use_x_timeout) ==> timeout_spec(config, header) == timeout_spec(config, None),
        (!config.use_x_timeout && config.default_timeout is None) ==> timeout_spec(config, header) is None,
{
}

} // verus!
