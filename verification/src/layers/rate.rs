//! Rate limiting: bucket sizes and periods from configuration, and the errors a
//! limited request is answered with.

use std::marker::PhantomData;

use vstd::prelude::*;

use crate::duration::Duration;
use crate::layers::util::ExtractionError;
use crate::text::{concat_str, decimal, fmt_u128};

verus! {

/// Rate limiter quotas.
#[verifier::external_type_specification]
#[verifier::external_body]
pub struct ExQuota(governor::Quota);

/// Name of the time a quota takes to replenish one cell, in nanoseconds: what
/// `Quota::replenish_interval` returns.
pub uninterp spec fn quota_interval_nanos(quota: governor::Quota) -> nat;

/// Name of the number of cells a quota allows in one burst: what `Quota::burst_size`
/// returns.
pub uninterp spec fn quota_burst(quota: governor::Quota) -> nat;

/// Builds a quota replenishing one cell per `period` with room for `burst` cells,
/// with `governor::Quota::with_period` and `Quota::allow_burst`; `with_period`
/// refuses a zero period.
#[verifier::external_body]
fn governor_quota(period: &Duration, burst: u32) -> (r: Option<governor::Quota>)
    requires
        burst > 0,
        period.wf(),
    ensures
        r is Some <==> period@ > 0,
        r matches Some(q) ==> quota_interval_nanos(q) == period@ && quota_burst(q) == burst,
{
    let p = std::time::Duration::new(period.secs, period.nanos);
    match (governor::Quota::with_period(p), std::num::NonZeroU32::new(burst)) {
        (Some(q), Some(b)) => Some(q.allow_burst(b)),
        _ => None,
    }
}

/// Error type returned by rate-limiting layer.
#[derive(Clone, Copy, Debug, PartialEq, Eq, Structural)]
pub enum RateLimitError {
    /// Extraction error.
    Extraction(ExtractionError),
    /// Rate limit exceeded.
    LimitReached {
        /// Remaining seconds until method becomes available again.
        ///
        /// Retry-After cannot be specified with fractional digits as per RFC 9110.
        remaining_seconds: u64,
    },
}

impl RateLimitError {
    /// HTTP status code used for this error: 429 when the limit is reached, 400 otherwise.
    pub fn http_status(&self) -> (r: u16)
        ensures
            r == if self is LimitReached { 429u16 } else { 400u16 },
    {
        match self {
            RateLimitError::LimitReached { .. } => 429,
            _ => 400,
        }
    }

    /// Human-readable message of the error.
    pub fn message(&self) -> (r: String)
        ensures
            r@ == match *self {
                RateLimitError::Extraction(_) => "Unable to extract rate-limiting key from request"@,
                RateLimitError::LimitReached { remaining_seconds } => "Rate limit reached: available after "@
                    + decimal(remaining_seconds as nat) + " seconds"@,
            },
    {
        match self {
            RateLimitError::Extraction(e) => e.message(),
            RateLimitError::LimitReached { remaining_seconds } => {
                let n = fmt_u128(*remaining_seconds as u128);
                let head = concat_str("Rate limit reached: available after ", n.as_str());
                concat_str(head.as_str(), " seconds")
            },
        }
    }

    /// The error for a request that may be retried after `wait`: whole seconds,
    /// rounded down.
    pub fn from_wait(wait: &Duration) -> (r: RateLimitError)
        requires
            wait.wf(),
        ensures
            r == (RateLimitError::LimitReached { remaining_seconds: (wait@ / 1_000_000_000) as u64 }),
    {
        RateLimitError::LimitReached { remaining_seconds: wait.as_secs() }
    }
}

/// Method of key extraction for rate limiting.
#[derive(Clone, Copy, Debug, PartialEq, Eq, Structural)]
pub enum RateLimitKey {
    /// Global rate limit.
    Global,
    /// Per-peer-IP-address rate limit.
    PeerIp,
    /// Smart per-peer-IP-address rate limit.
    ///
    /// Same as [`RateLimitKey::PeerIp`], but accounts for addresses passed via
    /// `X-Forwarded-For` and similar headers.
    SmartIp,
    /// Per-authenticated-user-ID rate limit.
    UserId,
}

impl Default for RateLimitKey {
    fn default() -> (r: RateLimitKey)
        ensures
            r == RateLimitKey::Global,
    {
        RateLimitKey::Global
    }
}

/// Configuration for rate-limiting layer.
#[derive(Clone, Copy, Debug, PartialEq, Eq, Structural)]
pub struct HandlerRateLimitConfig {
    /// Key extractor used to find rate-limiting bucket.
    pub key: RateLimitKey,
    /// Sustained requests per second; never zero.
    pub rps: u32,
    /// Maximum requests per second during burst; never zero.
    pub burst_rps: Option<u32>,
    /// Duration of burst, used for bucket size calculation.
    pub burst_duration: Duration,
}

/// The rate used during a burst: the burst rate when it is higher than the sustained one.
pub open spec fn burst_rate(c: HandlerRateLimitConfig) -> nat {
    match c.burst_rps {
        Some(b) if b > c.rps => b as nat,
        _ => c.rps as nat,
    }
}

/// Bucket size: requests at the burst rate over the burst duration, rounded up and
/// capped at `u32::MAX`; the sustained rate when that comes to zero.
pub open spec fn burst_size_spec(c: HandlerRateLimitConfig) -> u32 {
    let cells = (c.burst_duration@ * burst_rate(c) + 999_999_999) / 1_000_000_000;
    if cells == 0 {
        c.rps
    } else if cells > u32::MAX {
        u32::MAX
    } else {
        cells as u32
    }
}

impl HandlerRateLimitConfig {
    /// Rates are positive and the burst duration well-formed.
    pub open spec fn wf(&self) -> bool {
        &&& self.rps > 0
        &&& self.burst_rps matches Some(b) ==> b > 0
        &&& self.burst_duration.wf()
    }

    /// A configuration with the default key and a one-second burst duration.
    pub fn new(rps: u32, burst_rps: Option<u32>) -> (r: HandlerRateLimitConfig)
        requires
            rps > 0,
            burst_rps matches Some(b) ==> b > 0,
        ensures
            r.wf(),
            r.key == RateLimitKey::Global,
            r.rps == rps,
            r.burst_rps == burst_rps,
            r.burst_duration@ == 1_000_000_000,
    {
        HandlerRateLimitConfig {
            key: RateLimitKey::Global,
            rps,
            burst_rps,
            burst_duration: Duration::from_secs(1),
        }
    }

    /// Helper method to calculate governor burst size.
    pub fn burst_size(&self) -> (r: u32)
        requires
            self.wf(),
        ensures
            r == burst_size_spec(*self),
            r > 0,
    {
        let rate: u32 = match self.burst_rps {
            Some(b) if b > self.rps => b,
            _ => self.rps,
        };
        let nanos: u128 = self.burst_duration.as_nanos();
        assert(nanos < 0x1_0000_0000_0000_0000 * 1_000_000_000);
        assert(nanos * (rate as u128) <= 0x1_0000_0000_0000_0000 * 1_000_000_000 * 0x1_0000_0000) by (nonlinear_arith)
            requires
                nanos < 0x1_0000_0000_0000_0000 * 1_000_000_000,
                rate < 0x1_0000_0000,
        ;
        let product: u128 = nanos * (rate as u128);
        let cells: u128 = (product + 999_999_999) / 1_000_000_000;
        if cells == 0 {
            self.rps
        } else if cells > 0xffff_ffff {
            0xffff_ffff
        } else {
            cells as u32
        }
    }

    /// Helper method for governor period calculation: one second divided by the
    /// sustained rate.
    pub fn period(&self) -> (r: Duration)
        requires
            self.wf(),
        ensures
            r.wf(),
            r@ == 1_000_000_000nat / (self.rps as nat),
    {
        Duration::from_secs(1).div_u32(self.rps)
    }

    /// The governor quota for this configuration; none when the sustained rate is
    /// so high that the period rounds down to zero.
    pub fn quota(&self) -> (r: Option<governor::Quota>)
        requires
            self.wf(),
        ensures
            r is Some <==> self.rps <= 1_000_000_000,
            r matches Some(q) ==> quota_interval_nanos(q) == 1_000_000_000nat / (self.rps as nat)
                && quota_burst(q) == burst_size_spec(*self),
    {
        let period = self.period();
        let burst = self.burst_size();
        let ghost rps = self.rps as nat;
        assert((1_000_000_000nat / rps > 0) <==> rps <= 1_000_000_000) by (nonlinear_arith)
            requires
                rps > 0,
        ;
        governor_quota(&period, burst)
    }

    /// Create layer for use in tower services.
    pub fn make_layer<S, T>(&self) -> (r: RateLimitLayer<S, T>)
        ensures
            r.config == *self,
    {
        RateLimitLayer { config: *self, _phantom_service: PhantomData, _phantom_request: PhantomData }
    }
}

/// Rate-limiting layer.
#[verifier::reject_recursive_types(S)]
#[verifier::reject_recursive_types(T)]
pub struct RateLimitLayer<S, T> {
    /// Rate limiter configuration.
    pub config: HandlerRateLimitConfig,
    /// Inner service type.
    pub _phantom_service: PhantomData<S>,
    /// Request body type.
    pub _phantom_request: PhantomData<T>,
}

/// Outcome of the rate check for a request: call the inner service, or answer
/// with the error.
pub enum RateLimitFuture<F> {
    /// Happy path, calling inner service.
    Positive {
        /// Inner future.
        inner: F,
    },
    /// Key extraction error or rate limit exceeded.
    Negative {
        /// Cause of negative response.
        error: RateLimitError,
    },
}

/// The bucket never holds fewer cells than the sustained rate allows in a
/// one-second burst, and a higher burst rate never shrinks it.
pub proof fn law_burst_size_covers_rate(c: HandlerRateLimitConfig)
    requires
        c.wf(),
        c.burst_duration@ == 1_000_000_000,
    ensures
        burst_size_spec(c) >= c.rps,
        burst_size_spec(c) == burst_rate(c),
{
    assert((1_000_000_000 * burst_rate(c) + 999_999_999) / 1_000_000_000 == burst_rate(c)) by (nonlinear_arith);
}

/// The bucket holds the requests the burst rate (the larger of the sustained and
/// burst rates) allows over the whole burst duration, rounded up to whole
/// requests: the least count whose duration at that rate covers the burst
/// duration. It falls back to the sustained rate when that is nothing, and stops at
/// `u32::MAX`.
pub proof fn law_burst_size_is_rounded_up_requests(c: HandlerRateLimitConfig)
    requires
        c.wf(),
    ensures
        ({
            let rate: int = match c.burst_rps {
                Some(b) => if b > c.rps { b as int } else { c.rps as int },
                None => c.rps as int,
            };
            let need: int = c.burst_duration@ * rate;
            let size: int = burst_size_spec(c) as int;
            &&& need == 0 ==> size == c.rps
            &&& (0 < need && need <= 0xffff_ffff * 1_000_000_000) ==> size * 1_000_000_000 >= need
                && (size - 1) * 1_000_000_000 < need
            &&& need > 0xffff_ffff * 1_000_000_000 ==> size == 0xffff_ffff
        }),
{
    let rate: int = match c.burst_rps {
        Some(b) => if b > c.rps { b as int } else { c.rps as int },
        None => c.rps as int,
    };
    assert(burst_rate(c) == rate);
    let need: int = c.burst_duration@ * rate;
    assert(need >= 0) by (nonlinear_arith)
        requires
            rate > 0,
            c.burst_duration@ >= 0,
            need == c.burst_duration@ * rate,
    ;
    let q: int = (need + 999_999_999) / 1_000_000_000;
    assert(q * 1_000_000_000 >= need && (q - 1) * 1_000_000_000 < need || need == 0) by (nonlinear_arith)
        requires
            need >= 0,
            q == (need + 999_999_999) / 1_000_000_000,
    ;
    assert(need == 0 ==> q == 0);
    assert(need > 0 ==> q >= 1) by (nonlinear_arith)
        requires
            need >= 0,
            q == (need + 999_999_999) / 1_000_000_000,
    ;
    assert(need <= 0xffff_ffff * 1_000_000_000 ==> q <= 0xffff_ffff) by (nonlinear_arith)
        requires
            need >= 0,
            q == (need + 999_999_999) / 1_000_000_000,
    ;
    assert(need > 0xffff_ffff * 1_000_000_000 ==> q > 0xffff_ffff) by (nonlinear_arith)
        requires
            need >= 0,
            q == (need + 999_999_999) / 1_000_000_000,
    ;
}

} // verus!
