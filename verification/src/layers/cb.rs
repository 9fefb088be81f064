//! Circuit breaker configuration for handlers.

use vstd::prelude::*;

verus! {

/// Trip the breaker after a number of consecutive failures.
#[derive(Clone, Copy, Debug, PartialEq, Eq, Structural)]
pub struct ConsecutiveFailuresConfig {
    /// Number of consecutive failures that opens the breaker.
    pub num_failures: i32,
}

/// Circuit breaker middleware configuration.
#[derive(Clone, Copy, Debug, PartialEq, Eq, Structural)]
pub struct HandlerCircuitBreakerConfig {
    /// Consecutive failures policy, if any.
    pub consecutive_failures: Option<ConsecutiveFailuresConfig>,
}

} // verus!
