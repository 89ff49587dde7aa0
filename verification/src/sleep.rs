use crate::timespec::{Timespec, NANOS_PER_SEC};
use vstd::prelude::*;

verus! {

/// Outcome of one call into the platform's relative-sleep facility.
#[derive(Clone, Copy, Debug, PartialEq, Eq, Structural)]
pub enum SleepOutcome {
    /// The full requested duration elapsed.
    Completed,
    /// The sleep was interrupted by a signal; the platform wrote back the
    /// unslept remainder as (seconds, nanoseconds).
    Interrupted(i64, i64),
    /// The platform call failed and wrote back no remainder.
    Failed,
}

/// The remainder reported for a sleep outcome: an interruption with a
/// non-zero well-formed written-back value yields that value; completion,
/// failure, and a zero or malformed write-back yield no remainder.
pub open spec fn spec_remainder_after(outcome: SleepOutcome) -> Option<Timespec> {
    match outcome {
        SleepOutcome::Completed => None,
        SleepOutcome::Failed => None,
        SleepOutcome::Interrupted(s, n) => if s == 0 && n == 0 {
            None
        } else if 0 <= s && 0 <= n && n < NANOS_PER_SEC {
            Some(Timespec { sec: s, nsec: n })
        } else {
            None
        },
    }
}

/// Turn the outcome of a platform sleep call into the optional unslept
/// remainder handed to the caller. An uninterrupted completion never
/// reports a remainder, and a reported remainder is always a well-formed,
/// strictly positive duration.
pub fn remainder_after(outcome: SleepOutcome) -> (r: Option<Timespec>)
    ensures
        r == spec_remainder_after(outcome),
        outcome is Completed ==> r is None,
        r matches Some(rem) ==> rem.wf() && rem.total_ns() > 0,
{
    match outcome {
        SleepOutcome::Completed => None,
        SleepOutcome::Failed => None,
        SleepOutcome::Interrupted(s, n) => {
            if s == 0 && n == 0 {
                None
            } else if 0 <= s && 0 <= n && n < NANOS_PER_SEC {
                Some(Timespec { sec: s, nsec: n })
            } else {
                None
            }
        },
    }
}

/// Relies on `rustix::thread::clock_nanosleep_relative` on the monotonic
/// clock: the `clock_nanosleep` syscall with relative-time semantics, which
/// blocks the calling thread for the requested time and, when a signal
/// interrupts the sleep, reports the unslept remainder the kernel wrote
/// back. Which outcome occurs depends on signal delivery, so none is
/// promised; of an interruption, the kernel documents that the write-back
/// is the remaining unslept time: a normalized timespec no larger than the
/// request.
#[verifier::external_body]
fn monotonic_sleep_relative(sec: i64, nsec: i64) -> (outcome: SleepOutcome)
    requires
        0 <= sec,
        0 <= nsec < NANOS_PER_SEC,
    ensures
        outcome matches SleepOutcome::Interrupted(s, n) ==> 0 <= s && 0 <= n < NANOS_PER_SEC
            && s * (NANOS_PER_SEC as int) + n <= sec * (NANOS_PER_SEC as int) + nsec,
{
    let request = rustix::thread::Timespec { tv_sec: sec, tv_nsec: nsec };
    match rustix::thread::clock_nanosleep_relative(rustix::thread::ClockId::Monotonic, &request) {
        rustix::thread::NanosleepRelativeResult::Ok => SleepOutcome::Completed,
        rustix::thread::NanosleepRelativeResult::Interrupted(rem) => SleepOutcome::Interrupted(
            rem.tv_sec,
            rem.tv_nsec,
        ),
        rustix::thread::NanosleepRelativeResult::Err(_) => SleepOutcome::Failed,
    }
}

/// Suspend the calling thread for `duration`, measured against the
/// monotonic clock, by exactly one relative-sleep call into the platform.
/// Returns `None` when the full duration elapsed without interruption, and
/// `Some(remainder)` with the non-zero unslept portion of the request when
/// the call was woken early by a signal. A failure of the platform call
/// writes back no remainder and is reported as `None`, as if the sleep had
/// completed.
pub fn sleep(duration: Timespec) -> (r: Option<Timespec>)
    requires
        duration.wf(),
    ensures
        r matches Some(rem) ==> rem.wf() && rem.total_ns() > 0 && rem.total_ns()
            <= duration.total_ns(),
{
    let outcome = monotonic_sleep_relative(duration.sec, duration.nsec);
    remainder_after(outcome)
}

} // verus!
