//! The phase evaluator: the sale's temporal status, derived from the
//! configured window and the current time, never stored.

use vstd::prelude::*;

verus! {

/// The sale's phase at a point in time.
#[derive(PartialEq, Eq, Structural, Clone, Copy, Debug)]
pub enum Status {
    /// The current time is before the activation time.
    NotStarted,
    /// The current time is inside the half-open sale window.
    Started,
    /// The window is over (or was empty to begin with).
    Ended,
}

/// The phase at time `now` of a window opening at `activation_timestamp` and
/// lasting `duration_timestamp` seconds: `NotStarted` strictly before the
/// opening, `Started` inside the half-open window, `Ended` from
/// `activation_timestamp + duration_timestamp` on. A zero duration yields a
/// window that has ended the moment it opens.
pub open spec fn phase(now: u64, activation_timestamp: u64, duration_timestamp: u64) -> Status {
    if now < activation_timestamp {
        Status::NotStarted
    } else if (now as int) < activation_timestamp + duration_timestamp {
        Status::Started
    } else {
        Status::Ended
    }
}

/// Whether a purchase is admissible at time `now`: exactly the `Started` phase.
pub open spec fn is_active(now: u64, activation_timestamp: u64, duration_timestamp: u64) -> bool {
    phase(now, activation_timestamp, duration_timestamp) == Status::Started
}

} // verus!
