//! Time spans held as whole seconds plus a nanosecond remainder.

use vstd::prelude::*;

verus! {

/// Number of nanoseconds in one second.
pub const NANOS_PER_SEC: u32 = 1_000_000_000;

/// A span of time, with the same range and resolution as `std::time::Duration`.
#[derive(Clone, Copy, Debug, PartialEq, Eq, Structural)]
pub struct Duration {
    /// Whole seconds.
    pub secs: u64,
    /// Nanoseconds past the whole seconds; always below one second.
    pub nanos: u32,
}

impl View for Duration {
    type V = nat;

    /// Total length in nanoseconds.
    open spec fn view(&self) -> nat {
        (self.secs as nat) * 1_000_000_000 + (self.nanos as nat)
    }
}

impl Duration {
    /// The nanosecond remainder is below one second.
    pub open spec fn wf(&self) -> bool {
        self.nanos < NANOS_PER_SEC
    }

    /// A span of whole seconds.
    pub fn from_secs(secs: u64) -> (r: Duration)
        ensures
            r.wf(),
            r.secs == secs,
            r.nanos == 0,
            r@ == secs * 1_000_000_000,
    {
        Duration { secs, nanos: 0 }
    }

    /// A span of whole milliseconds.
    pub fn from_millis(millis: u64) -> (r: Duration)
        ensures
            r.wf(),
            r@ == millis * 1_000_000,
    {
        let secs = millis / 1000;
        let rem: u32 = (millis % 1000) as u32;
        let r = Duration { secs, nanos: rem * 1_000_000 };
        assert(r@ == millis * 1_000_000) by (nonlinear_arith)
            requires
                secs == millis / 1000,
                rem == millis % 1000,
                r@ == secs * 1_000_000_000 + rem * 1_000_000,
        ;
        r
    }

    /// A span of a number of nanoseconds.
    pub fn from_nanos(nanos: u64) -> (r: Duration)
        ensures
            r.wf(),
            r@ == nanos,
    {
        let secs = nanos / 1_000_000_000;
        let rem: u32 = (nanos % 1_000_000_000) as u32;
        Duration { secs, nanos: rem }
    }

    /// Builds a span from seconds and a sub-second nanosecond count.
    pub fn from_parts(secs: u64, nanos: u32) -> (r: Duration)
        requires
            nanos < NANOS_PER_SEC,
        ensures
            r.wf(),
            r.secs == secs,
            r.nanos == nanos,
    {
        Duration { secs, nanos }
    }

    /// Whole seconds of the span.
    pub fn as_secs(&self) -> (r: u64)
        requires
            self.wf(),
        ensures
            r == self@ / 1_000_000_000,
    {
        self.secs
    }

    /// Total length in nanoseconds.
    pub fn as_nanos(&self) -> (r: u128)
        ensures
            r == self@,
    {
        (self.secs as u128) * 1_000_000_000 + (self.nanos as u128)
    }

    /// Total length in whole milliseconds, rounded down, as `Duration::as_millis` does.
    pub fn as_millis(&self) -> (r: u128)
        ensures
            r == self@ / 1_000_000,
    {
        self.as_nanos() / 1_000_000
    }

    /// `self` is strictly shorter than `other`.
    pub fn lt(&self, other: &Duration) -> (r: bool)
        requires
            self.wf(),
            other.wf(),
        ensures
            r == (self@ < other@),
    {
        self.secs < other.secs || (self.secs == other.secs && self.nanos < other.nanos)
    }

    /// The empty span.
    pub fn zero() -> (r: Duration)
        ensures
            r.wf(),
            r@ == 0,
    {
        Duration { secs: 0, nanos: 0 }
    }

    /// `self` is at most as long as `other`.
    pub fn le(&self, other: &Duration) -> (r: bool)
        requires
            self.wf(),
            other.wf(),
        ensures
            r == (self@ <= other@),
    {
        !other.lt(self)
    }

    /// The difference `self - other`, or `None` when `other` is longer, as
    /// `Duration::checked_sub` gives it.
    pub fn checked_sub(&self, other: &Duration) -> (r: Option<Duration>)
        requires
            self.wf(),
            other.wf(),
        ensures
            r is Some <==> other@ <= self@,
            r matches Some(d) ==> d.wf() && d@ == self@ - other@,
    {
        if self.lt(other) {
            return None;
        }
        if self.nanos >= other.nanos {
            Some(Duration { secs: self.secs - other.secs, nanos: self.nanos - other.nanos })
        } else {
            Some(Duration { secs: self.secs - other.secs - 1, nanos: self.nanos + NANOS_PER_SEC - other.nanos })
        }
    }

    /// The sum `self + other`, or `None` when the whole seconds would not fit in
    /// a `u64`, as `Duration::checked_add` gives it.
    pub fn checked_add(&self, other: &Duration) -> (r: Option<Duration>)
        requires
            self.wf(),
            other.wf(),
        ensures
            r is Some <==> self@ + other@ < 0x1_0000_0000_0000_0000 * 1_000_000_000,
            r matches Some(d) ==> d.wf() && d@ == self@ + other@,
    {
        let nanos: u32 = self.nanos + other.nanos;
        let carry: u64 = if nanos >= NANOS_PER_SEC { 1 } else { 0 };
        let rest: u32 = if nanos >= NANOS_PER_SEC { nanos - NANOS_PER_SEC } else { nanos };
        match self.secs.checked_add(other.secs) {
            None => None,
            Some(s) => match s.checked_add(carry) {
                None => None,
                Some(secs) => Some(Duration { secs, nanos: rest }),
            },
        }
    }

    /// Divides a span by a positive integer, rounding down to whole nanoseconds, as
    /// `Duration / u32` does.
    pub fn div_u32(&self, rhs: u32) -> (r: Duration)
        requires
            rhs > 0,
            self.wf(),
        ensures
            r.wf(),
            r@ == self@ / (rhs as nat),
    {
        let total: u128 = self.as_nanos();
        let q: u128 = total / (rhs as u128);
        let secs: u128 = q / 1_000_000_000;
        let rem: u32 = (q % 1_000_000_000) as u32;
        assert(q <= total);
        assert(total < 0x1_0000_0000_0000_0000 * 1_000_000_000);
        assert(secs < 0x1_0000_0000_0000_0000) by (nonlinear_arith)
            requires
                secs == q / 1_000_000_000,
                q < 0x1_0000_0000_0000_0000 * 1_000_000_000,
        ;
        Duration { secs: secs as u64, nanos: rem }
    }
}

} // verus!
