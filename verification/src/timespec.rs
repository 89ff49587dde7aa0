use vstd::arithmetic::div_mod::{
    lemma_div_pos_is_pos, lemma_fundamental_div_mod, lemma_mod_division_less_than_divisor,
};
use vstd::prelude::*;

verus! {

/// Number of nanoseconds in one second.
pub const NANOS_PER_SEC: i64 = 1_000_000_000;

/// Failure of a duration construction.
#[derive(Clone, Copy, Debug, PartialEq, Eq, Structural)]
pub enum Error {
    /// The requested value has no representation: negative durations are
    /// not supported.
    Unsupported,
}

/// The seconds part of a nanosecond count split at one second.
pub open spec fn spec_seconds_of(n: int) -> int {
    n / (NANOS_PER_SEC as int)
}

/// The nanosecond remainder of a nanosecond count split at one second.
pub open spec fn spec_nanos_of(n: int) -> int {
    n % (NANOS_PER_SEC as int)
}

/// A span of time as whole seconds plus a nanosecond remainder, the
/// memory layout of the platform's `timespec`: two consecutive signed
/// 64-bit integers.
#[derive(Clone, Copy, Debug, PartialEq, Eq, Structural)]
pub struct Timespec {
    /// Whole seconds; non-negative in every well-formed value.
    pub sec: i64,
    /// Nanosecond remainder; in [0, 1_000_000_000) in every well-formed value.
    pub nsec: i64,
}

impl Timespec {
    /// A well-formed duration: non-negative seconds and a normalized
    /// nanosecond remainder.
    pub open spec fn wf(self) -> bool {
        0 <= self.sec && 0 <= self.nsec < NANOS_PER_SEC
    }

    /// The duration as a total count of nanoseconds.
    pub open spec fn total_ns(self) -> int {
        self.sec * (NANOS_PER_SEC as int) + self.nsec
    }

    /// Build a duration from a total nanosecond count, normalizing the
    /// count into whole seconds and a remainder below one second.
    /// Negative counts are rejected.
    pub fn from_nanoseconds(ns: i64) -> (r: Result<Timespec, Error>)
        ensures
            ns >= 0 ==> (r matches Ok(t) && t.sec == spec_seconds_of(ns as int)
                && t.nsec == spec_nanos_of(ns as int) && t.wf() && t.total_ns() == ns),
            ns < 0 <==> r == Err::<Timespec, Error>(Error::Unsupported),
    {
        if ns < 0 {
            return Err(Error::Unsupported);
        }
        let sec: i64 = ns / NANOS_PER_SEC;
        let nsec: i64 = ns % NANOS_PER_SEC;
        proof {
            lemma_normalization(ns as int);
            lemma_round_trip(ns as int);
        }
        Ok(Timespec { sec, nsec })
    }

    /// The seconds component.
    pub fn seconds(&self) -> (r: i64)
        ensures
            r == self.sec,
    {
        self.sec
    }

    /// The nanosecond component.
    pub fn nanoseconds(&self) -> (r: i64)
        ensures
            r == self.nsec,
    {
        self.nsec
    }

    /// The duration as a total nanosecond count. The total must fit in a
    /// signed 64-bit integer; very large seconds values would overflow.
    pub fn as_total_nanoseconds(&self) -> (r: i64)
        requires
            self.wf(),
            self.total_ns() <= i64::MAX,
        ensures
            r == self.total_ns(),
    {
        self.sec * NANOS_PER_SEC + self.nsec
    }
}

/// Normalization invariant: splitting any non-negative nanosecond count at
/// one second yields a non-negative seconds part and a nanosecond remainder
/// in [0, 1_000_000_000) — the parts of a well-formed duration.
pub proof fn lemma_normalization(n: int)
    requires
        0 <= n,
    ensures
        0 <= spec_seconds_of(n),
        0 <= spec_nanos_of(n) < NANOS_PER_SEC as int,
{
    lemma_div_pos_is_pos(n, NANOS_PER_SEC as int);
    lemma_mod_division_less_than_divisor(n, NANOS_PER_SEC as int);
}

/// Round trip: for any non-negative nanosecond count, recombining the split
/// parts as seconds * 1_000_000_000 + remainder gives back the count, so a
/// duration built from the count converts back to it exactly.
pub proof fn lemma_round_trip(n: int)
    requires
        0 <= n,
    ensures
        spec_seconds_of(n) * (NANOS_PER_SEC as int) + spec_nanos_of(n) == n,
{
    lemma_fundamental_div_mod(n, NANOS_PER_SEC as int);
}

} // verus!
