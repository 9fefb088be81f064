//! Miscellaneous types attached to requests: handler names and deadlines.

use vstd::prelude::*;

use crate::duration::Duration;

verus! {

/// Monotonic clock readings.
#[verifier::external_type_specification]
#[verifier::external_body]
pub struct ExInstant(std::time::Instant);

/// Reads the monotonic clock with `std::time::Instant::now`.
#[verifier::external_body]
fn clock_now() -> (r: std::time::Instant) {
    std::time::Instant::now()
}

/// Time elapsed since a clock reading, with `Instant::elapsed` (zero when the
/// reading is in the future); the result has its nanoseconds below one second.
#[verifier::external_body]
fn clock_elapsed(since: &std::time::Instant) -> (r: Duration)
    ensures
        r.wf(),
{
    let d = since.elapsed();
    Duration { secs: d.as_secs(), nanos: d.subsec_nanos() }
}

/// Static handler name.
///
/// This gets attached as an extension to requests and responses for use mainly in
/// middleware layers.
#[derive(Clone, Copy, Debug, PartialEq, Eq, Hash)]
pub struct HandlerName(&'static str);

impl View for HandlerName {
    type V = Seq<char>;

    closed spec fn view(&self) -> Seq<char> {
        self.0@
    }
}

impl HandlerName {
    /// Construct new [`HandlerName`] from static string slice.
    pub fn new(name: &'static str) -> (r: HandlerName)
        ensures
            r@ == name@,
    {
        HandlerName(name)
    }

    /// Get static string slice stored inside.
    pub fn as_str(&self) -> (r: &'static str)
        ensures
            r@ == self@,
    {
        self.0
    }
}

/// Cutoff time after which the request must be timed out: a span of time counted
/// from a reading of the monotonic clock.
#[derive(Clone, Copy, Debug)]
pub struct Deadline {
    /// Clock reading the span is counted from.
    start: std::time::Instant,
    /// Time allowed after `start`.
    allowed: Duration,
}

impl Deadline {
    /// Time allowed after the starting clock reading.
    pub closed spec fn allowed(&self) -> Duration {
        self.allowed
    }

    /// Construct new [`Deadline`] with zero time left.
    pub fn new() -> (r: Deadline)
        ensures
            r.allowed()@ == 0,
            r.allowed().wf(),
    {
        Deadline { start: clock_now(), allowed: Duration::zero() }
    }

    /// A deadline a span of time from now.
    pub fn after(allowed: Duration) -> (r: Deadline)
        ensures
            r.allowed() == allowed,
    {
        Deadline { start: clock_now(), allowed }
    }

    /// Whether the deadline has passed once `elapsed` has gone by since its start.
    pub fn is_expired_after(&self, elapsed: &Duration) -> (r: bool)
        requires
            self.allowed().wf(),
            elapsed.wf(),
        ensures
            r == (self.allowed()@ <= elapsed@),
    {
        self.allowed.le(elapsed)
    }

    /// Remaining time once `elapsed` has gone by since the start; `None` if the
    /// deadline has passed.
    pub fn time_left_after(&self, elapsed: &Duration) -> (r: Option<Duration>)
        requires
            self.allowed().wf(),
            elapsed.wf(),
        ensures
            r is Some <==> elapsed@ <= self.allowed()@,
            r matches Some(d) ==> d.wf() && d@ == self.allowed()@ - elapsed@,
    {
        self.allowed.checked_sub(elapsed)
    }

    /// Check if deadline has passed.
    pub fn is_expired(&self) -> (r: bool)
        requires
            self.allowed().wf(),
        ensures
            exists|elapsed: Duration| elapsed.wf() && r == (self.allowed()@ <= elapsed@),
    {
        let elapsed = clock_elapsed(&self.start);
        self.is_expired_after(&elapsed)
    }

    /// Get remaining time.
    ///
    /// Returns [`None`] if deadline has passed.
    pub fn time_left(&self) -> (r: Option<Duration>)
        requires
            self.allowed().wf(),
        ensures
            r matches Some(d) ==> d.wf() && d@ <= self.allowed()@,
            exists|elapsed: Duration| elapsed.wf() && (r is Some <==> elapsed@ <= self.allowed()@)
                && (r matches Some(d) ==> d@ == self.allowed()@ - elapsed@),
    {
        let elapsed = clock_elapsed(&self.start);
        self.time_left_after(&elapsed)
    }
}

/// Once expired, a deadline stays expired as more time goes by; a deadline with
/// no time left is expired.
pub proof fn law_deadline_stays_expired(d: Deadline, earlier: Duration, later: Duration)
    requires
        earlier@ <= later@,
    ensures
        d.allowed()@ <= earlier@ ==> d.allowed()@ <= later@,
        !(later@ <= d.allowed()@) ==> d.allowed()@ <= later@,
{
}

} // verus!
