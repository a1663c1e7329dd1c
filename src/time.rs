use vstd::prelude::*;

verus! {

/// A point on a monotonic clock, counted in nanoseconds from an arbitrary origin.
#[derive(Debug, Clone, Copy, PartialEq, Eq, Structural)]
pub struct Timestamp {
    nanos: u64,
}

/// A length of time in nanoseconds.
#[derive(Debug, Clone, Copy, PartialEq, Eq, Structural)]
pub struct TimeSpan {
    nanos: u64,
}

pub const NANOS_PER_SEC: u64 = 1_000_000_000;

impl View for Timestamp {
    type V = nat;

    closed spec fn view(&self) -> nat {
        self.nanos as nat
    }
}

impl View for TimeSpan {
    type V = nat;

    closed spec fn view(&self) -> nat {
        self.nanos as nat
    }
}

impl Timestamp {
    pub fn from_nanos(nanos: u64) -> (r: Timestamp)
        ensures
            r@ == nanos,
    {
        Timestamp { nanos }
    }

    pub fn as_nanos(&self) -> (r: u64)
        ensures
            r == self@,
    {
        self.nanos
    }

    /// The time `span` after `self`.
    pub fn add(self, span: TimeSpan) -> (r: Timestamp)
        requires
            self@ + span@ <= u64::MAX,
        ensures
            r@ == self@ + span@,
    {
        Timestamp { nanos: self.nanos + span.nanos }
    }

    /// The time from `earlier` to `self`, or zero when `earlier` is the later one.
    pub fn saturating_since(self, earlier: Timestamp) -> (r: TimeSpan)
        ensures
            r@ == span_between(earlier@, self@),
    {
        if self.nanos >= earlier.nanos {
            TimeSpan { nanos: self.nanos - earlier.nanos }
        } else {
            TimeSpan { nanos: 0 }
        }
    }
}

/// The time from `from` to `to`, clamped at zero.
pub open spec fn span_between(from: nat, to: nat) -> nat {
    if from <= to {
        (to - from) as nat
    } else {
        0
    }
}

impl TimeSpan {
    pub fn from_nanos(nanos: u64) -> (r: TimeSpan)
        ensures
            r@ == nanos,
    {
        TimeSpan { nanos }
    }

    pub fn from_secs(secs: u64) -> (r: TimeSpan)
        requires
            secs * NANOS_PER_SEC <= u64::MAX,
        ensures
            r@ == secs * NANOS_PER_SEC,
    {
        TimeSpan { nanos: secs * NANOS_PER_SEC }
    }

    pub fn as_nanos(&self) -> (r: u64)
        ensures
            r == self@,
    {
        self.nanos
    }

    pub fn is_zero(&self) -> (r: bool)
        ensures
            r == (self@ == 0),
    {
        self.nanos == 0
    }

    /// The longer of the two spans.
    pub fn max(self, other: TimeSpan) -> (r: TimeSpan)
        ensures
            r@ == if self@ >= other@ { self@ } else { other@ },
    {
        if self.nanos >= other.nanos {
            self
        } else {
            other
        }
    }

    /// Whether `self` is strictly shorter than `other`.
    pub fn shorter_than(&self, other: &TimeSpan) -> (r: bool)
        ensures
            r == (self@ < other@),
    {
        self.nanos < other.nanos
    }
}

} // verus!
