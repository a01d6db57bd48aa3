use vstd::prelude::*;

verus! {

/// Nanoseconds in one second.
pub open spec fn second() -> nat {
    1_000_000_000
}

/// Nanoseconds in one millisecond.
pub open spec fn millisecond() -> nat {
    1_000_000
}

/// The longest duration there is, in nanoseconds.
pub open spec fn longest() -> nat {
    u64::MAX as nat * second() + 999_999_999
}

/// A span of time in whole seconds and the nanoseconds beyond them.
///
/// Points in time are spans as well: the time since the program started.
/// The view is the number of nanoseconds.
#[derive(Clone, Copy, Debug, PartialEq, Eq, Structural)]
pub struct Duration {
    secs: u64,
    nanos: u32,
}

impl View for Duration {
    type V = nat;

    closed spec fn view(&self) -> nat {
        self.secs as nat * second() + self.nanos as nat
    }
}

impl Duration {
    #[verifier::type_invariant]
    closed spec fn inv(self) -> bool {
        self.nanos < 1_000_000_000
    }

    /// The span of `secs` seconds and `subsec_nanos` nanoseconds.
    pub fn new(secs: u64, subsec_nanos: u32) -> (d: Self)
        requires
            subsec_nanos < 1_000_000_000,
        ensures
            d@ == secs as nat * second() + subsec_nanos as nat,
    {
        Duration { secs, nanos: subsec_nanos }
    }

    pub fn zero() -> (d: Self)
        ensures
            d@ == 0,
    {
        Duration { secs: 0, nanos: 0 }
    }

    pub fn from_secs(secs: u64) -> (d: Self)
        ensures
            d@ == secs as nat * second(),
    {
        Duration { secs, nanos: 0 }
    }

    pub fn from_millis(millis: u64) -> (d: Self)
        ensures
            d@ == millis as nat * millisecond(),
    {
        Duration { secs: millis / 1000, nanos: (millis % 1000) as u32 * 1_000_000 }
    }

    /// The whole seconds of the span.
    pub fn as_secs(self) -> (secs: u64)
        ensures
            secs as nat == self@ / second(),
    {
        proof {
            use_type_invariant(self);
        }
        self.secs
    }

    /// The nanoseconds beyond the whole seconds.
    pub fn subsec_nanos(self) -> (nanos: u32)
        ensures
            nanos as nat == self@ % second(),
            nanos < 1_000_000_000,
    {
        proof {
            use_type_invariant(self);
        }
        self.nanos
    }

    /// The nanoseconds of the span.
    pub fn as_nanos(self) -> (nanos: u128)
        ensures
            nanos as nat == self@,
            self@ <= longest(),
    {
        proof {
            use_type_invariant(self);
        }
        self.secs as u128 * 1_000_000_000 + self.nanos as u128
    }

    /// Whether this span is shorter than `other`. Neither is longer than the
    /// longest duration.
    pub fn is_less_than(self, other: Self) -> (less: bool)
        ensures
            less == (self@ < other@),
            self@ <= longest(),
            other@ <= longest(),
    {
        proof {
            use_type_invariant(self);
            use_type_invariant(other);
        }
        self.secs < other.secs || (self.secs == other.secs && self.nanos < other.nanos)
    }

    /// The sum of two spans, unless it is longer than the longest duration.
    pub fn checked_add(self, other: Self) -> (sum: Option<Self>)
        ensures
            sum is Some <==> self@ + other@ <= longest(),
            sum matches Some(d) ==> d@ == self@ + other@,
    {
        proof {
            use_type_invariant(self);
            use_type_invariant(other);
        }
        let nanos: u32 = self.nanos + other.nanos;
        let carry: u64 = if nanos >= 1_000_000_000 {
            1
        } else {
            0
        };
        let rest: u32 = if nanos >= 1_000_000_000 {
            nanos - 1_000_000_000
        } else {
            nanos
        };
        if other.secs > u64::MAX - self.secs {
            return None;
        }
        let secs: u64 = self.secs + other.secs;
        if carry > u64::MAX - secs {
            return None;
        }
        Some(Duration { secs: secs + carry, nanos: rest })
    }

    /// The difference of two spans, unless `other` is the longer one.
    pub fn checked_sub(self, other: Self) -> (difference: Option<Self>)
        ensures
            difference is Some <==> other@ <= self@,
            difference matches Some(d) ==> d@ == self@ - other@,
    {
        proof {
            use_type_invariant(self);
            use_type_invariant(other);
        }
        if self.is_less_than(other) {
            return None;
        }
        if self.nanos >= other.nanos {
            Some(Duration { secs: self.secs - other.secs, nanos: self.nanos - other.nanos })
        } else {
            Some(
                Duration {
                    secs: self.secs - other.secs - 1,
                    nanos: 1_000_000_000 - (other.nanos - self.nanos),
                },
            )
        }
    }

    /// The difference of two spans, or zero where `other` is the longer one.
    pub fn saturating_sub(self, other: Self) -> (difference: Self)
        ensures
            difference@ == if other@ <= self@ {
                (self@ - other@) as nat
            } else {
                0
            },
            difference@ <= longest(),
    {
        proof {
            use_type_invariant(self);
        }
        match self.checked_sub(other) {
            Some(difference) => difference,
            None => Duration::zero(),
        }
    }
}

} // verus!
