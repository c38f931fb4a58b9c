//! Plain-value representations of instants and spans of time.
use vstd::prelude::*;

verus! {

/// An instant in UTC, as seconds and nanoseconds since the Unix epoch.
///
/// The controller never computes with instants: it records them, copies them
/// and compares them for equality.
#[derive(Debug, Clone, Copy, PartialEq, Eq, Structural)]
pub struct Timestamp {
    pub secs: i64,
    pub nanos: u32,
}

impl DeepView for Timestamp {
    type V = Timestamp;

    open spec fn deep_view(&self) -> Timestamp {
        *self
    }
}

impl Timestamp {
    /// The instant `secs` whole seconds after the epoch.
    pub fn from_secs(secs: i64) -> (t: Timestamp)
        ensures
            t.secs == secs,
            t.nanos == 0,
    {
        Timestamp { secs, nanos: 0 }
    }
}

/// Number of nanoseconds in one second.
pub const NANOS_PER_SEC: u32 = 1_000_000_000;

/// A span of time: whole seconds and a sub-second part in nanoseconds.
#[derive(Debug, Clone, Copy, PartialEq, Eq, Structural)]
pub struct Duration {
    secs: u64,
    nanos: u32,
}

impl Duration {
    #[verifier::type_invariant]
    spec fn nanos_below_one_second(self) -> bool {
        self.nanos < NANOS_PER_SEC
    }

    /// The whole-second part.
    pub closed spec fn spec_secs(self) -> nat {
        self.secs as nat
    }

    /// The sub-second part, in nanoseconds.
    pub closed spec fn spec_subsec_nanos(self) -> nat {
        self.nanos as nat
    }

    /// The whole span in nanoseconds.
    pub open spec fn total_nanos(self) -> nat {
        self.spec_secs() * 1_000_000_000 + self.spec_subsec_nanos()
    }

    /// The span of `secs` whole seconds.
    pub fn from_secs(secs: u64) -> (d: Duration)
        ensures
            d.spec_secs() == secs,
            d.spec_subsec_nanos() == 0,
    {
        Duration { secs, nanos: 0 }
    }

    /// The span of `millis` milliseconds.
    pub fn from_millis(millis: u64) -> (d: Duration)
        ensures
            d.spec_secs() == millis / 1000,
            d.spec_subsec_nanos() == (millis % 1000) * 1_000_000,
    {
        let secs = millis / 1000;
        let rem = (millis % 1000) as u32;
        assert(rem * 1_000_000 < 1_000_000_000) by (nonlinear_arith)
            requires rem < 1000;
        Duration { secs, nanos: rem * 1_000_000 }
    }

    /// Number of whole seconds.
    pub fn as_secs(&self) -> (s: u64)
        ensures
            s == self.spec_secs(),
    {
        self.secs
    }

    /// The sub-second part in nanoseconds.
    pub fn subsec_nanos(&self) -> (n: u32)
        ensures
            n == self.spec_subsec_nanos(),
            n < NANOS_PER_SEC,
    {
        proof {
            use_type_invariant(self);
        }
        self.nanos
    }

    /// Whether the span is empty.
    pub fn is_zero(&self) -> (b: bool)
        ensures
            b == (self.total_nanos() == 0),
    {
        self.secs == 0 && self.nanos == 0
    }

    /// Number of whole milliseconds in the span.
    pub fn as_millis(&self) -> (m: u128)
        ensures
            m == self.total_nanos() / 1_000_000,
    {
        proof {
            use_type_invariant(self);
        }
        let s = self.secs as u128;
        let n = self.nanos as u128;
        assert(s * 1000 + n / 1_000_000 == (s * 1_000_000_000 + n) / 1_000_000
            && s * 1000 + n / 1_000_000 <= u128::MAX) by (nonlinear_arith)
            requires
                s <= u64::MAX,
                n < 1_000_000_000,
        ;
        s * 1000 + n / 1_000_000
    }

    /// Whether this span is at least as long as `other`.
    pub fn at_least(&self, other: &Duration) -> (b: bool)
        ensures
            b == (self.total_nanos() >= other.total_nanos()),
    {
        proof {
            use_type_invariant(self);
            use_type_invariant(other);
            lemma_lexicographic_order(self.secs as nat, self.nanos as nat, other.secs as nat, other.nanos as nat);
        }
        self.secs > other.secs || (self.secs == other.secs && self.nanos >= other.nanos)
    }
}

/// For sub-second parts below one second, comparing total nanoseconds is
/// comparing (seconds, nanoseconds) lexicographically.
proof fn lemma_lexicographic_order(s1: nat, n1: nat, s2: nat, n2: nat)
    requires
        n1 < 1_000_000_000,
        n2 < 1_000_000_000,
    ensures
        (s1 * 1_000_000_000 + n1 >= s2 * 1_000_000_000 + n2) == (s1 > s2 || (s1 == s2 && n1 >= n2)),
{
    if s1 > s2 {
        assert(s1 * 1_000_000_000 >= s2 * 1_000_000_000 + 1_000_000_000) by (nonlinear_arith)
            requires s1 >= s2 + 1;
    } else if s1 < s2 {
        assert(s2 * 1_000_000_000 >= s1 * 1_000_000_000 + 1_000_000_000) by (nonlinear_arith)
            requires s2 >= s1 + 1;
    }
}

} // verus!
