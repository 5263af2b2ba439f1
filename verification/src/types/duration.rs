//! A span of time in whole nanoseconds.
//!
//! Instants are spans too: the time since an origin that the caller picks once.
use vstd::prelude::*;

verus! {

/// Nanoseconds in one second.
pub const NANOS_PER_SEC: u128 = 1_000_000_000;

/// Nanoseconds in one millisecond.
pub const NANOS_PER_MILLI: u128 = 1_000_000;

/// The longest span: `u64::MAX` seconds and 999 999 999 nanoseconds.
pub const MAX_NANOS: u128 = 18_446_744_073_709_551_615_999_999_999;

/// A span of time.
#[derive(Clone, Copy, Debug, PartialEq, Eq, Structural)]
pub struct Duration {
    /// Its length in nanoseconds.
    pub nanos: u128,
}

impl View for Duration {
    type V = nat;

    open spec fn view(&self) -> nat {
        self.nanos as nat
    }
}

impl Duration {
    /// Whether the span is no longer than the longest one.
    pub open spec fn wf(self) -> bool {
        self.nanos <= MAX_NANOS
    }

    /// A span of `nanos` nanoseconds.
    pub fn from_nanos(nanos: u64) -> (r: Self)
        ensures
            r@ == nanos,
            r.wf(),
    {
        Duration { nanos: nanos as u128 }
    }

    /// A span of `nanos` nanoseconds, which may be more than a `u64` holds.
    pub fn from_total_nanos(nanos: u128) -> (r: Self)
        requires
            nanos <= MAX_NANOS,
        ensures
            r@ == nanos,
            r.wf(),
    {
        Duration { nanos }
    }

    /// A span of `millis` milliseconds.
    pub fn from_millis(millis: u64) -> (r: Self)
        ensures
            r@ == millis * 1_000_000,
            r.wf(),
    {
        Duration { nanos: millis as u128 * NANOS_PER_MILLI }
    }

    /// A span of `secs` seconds.
    pub fn from_secs(secs: u64) -> (r: Self)
        ensures
            r@ == secs * 1_000_000_000,
            r.wf(),
    {
        Duration { nanos: secs as u128 * NANOS_PER_SEC }
    }

    /// The length in nanoseconds.
    pub fn as_nanos(&self) -> (r: u128)
        ensures
            r == self@,
    {
        self.nanos
    }

    /// The whole seconds in the span.
    pub fn as_secs(&self) -> (r: u64)
        requires
            self.wf(),
        ensures
            r == self@ / 1_000_000_000,
    {
        (self.nanos / NANOS_PER_SEC) as u64
    }

    /// The time from `earlier` to this instant, and no time at all if
    /// `earlier` lies ahead.
    pub fn duration_since(&self, earlier: Duration) -> (r: Self)
        ensures
            r@ == if self@ >= earlier@ {
                self@ - earlier@
            } else {
                0
            },
            self.wf() ==> r.wf(),
    {
        if self.nanos >= earlier.nanos {
            Duration { nanos: self.nanos - earlier.nanos }
        } else {
            Duration { nanos: 0 }
        }
    }

    /// The two spans one after the other.
    pub fn plus(&self, other: Duration) -> (r: Self)
        requires
            self@ + other@ <= MAX_NANOS,
        ensures
            r@ == self@ + other@,
            r.wf(),
    {
        Duration { nanos: self.nanos + other.nanos }
    }

    /// What is left of the span once `other` is taken off it.
    pub fn minus(&self, other: Duration) -> (r: Self)
        requires
            other@ <= self@,
        ensures
            r@ == self@ - other@,
            self.wf() ==> r.wf(),
    {
        Duration { nanos: self.nanos - other.nanos }
    }
}

} // verus!
