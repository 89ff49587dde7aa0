//! A minimal wrapper around the platform's high-resolution relative-sleep
//! primitive: a normalized duration value type, and a `sleep` function that
//! suspends the calling thread on the monotonic clock and reports any
//! unslept remainder when a signal interrupts the sleep.

mod sleep;
mod timespec;

pub use crate::sleep::remainder_after;
pub use crate::sleep::sleep;
pub use crate::sleep::SleepOutcome;
pub use crate::timespec::lemma_normalization;
pub use crate::timespec::lemma_round_trip;
pub use crate::timespec::spec_nanos_of;
pub use crate::timespec::spec_seconds_of;
pub use crate::timespec::Error;
pub use crate::timespec::Timespec;
pub use crate::timespec::NANOS_PER_SEC;
