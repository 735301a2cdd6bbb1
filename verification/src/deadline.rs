//! A fixed wall-clock time budget: the only cancellation mechanism of a query.
//!
//! The remaining budget is always computed by saturating subtraction, so the
//! engine never hands a negative duration to the primitive it waits on, even
//! when elapsed time slightly exceeds the budget between an expiry check and
//! the wait call.

use vstd::prelude::*;

verus! {

#[verifier::external_type_specification]
#[verifier::external_body]
pub struct ExInstant(std::time::Instant);

/// Relies on std::time::Instant::now: reads the monotonic clock. The value
/// depends on when the call is made, so nothing is promised of it.
pub assume_specification[ std::time::Instant::now ]() -> std::time::Instant;

/// Relies on std::time::Instant::elapsed: the time since this instant was
/// taken. Monotonic and never panicking; the value depends on the clock, so
/// nothing is promised of it.
pub assume_specification[ std::time::Instant::elapsed ](
    start: &std::time::Instant,
) -> std::time::Duration;

/// Relies on std::time::Duration::as_millis: the whole number of milliseconds
/// in the duration. Opaque here, since nothing is known of the duration itself.
pub assume_specification[ std::time::Duration::as_millis ](d: &std::time::Duration) -> u128;

/// The milliseconds that remain of `budget_ms` once `elapsed_ms` have passed:
/// `budget_ms - elapsed_ms`, clamped at zero.
pub open spec fn spec_remaining(budget_ms: u64, elapsed_ms: u128) -> u64 {
    if elapsed_ms >= budget_ms as u128 {
        0u64
    } else {
        (budget_ms - elapsed_ms as u64) as u64
    }
}

/// A fixed timeout budget together with the instant at which it started.
pub struct Deadline {
    start: std::time::Instant,
    budget_ms: u64,
}

impl Deadline {
    /// The budget this deadline was created with, in milliseconds.
    pub closed spec fn budget(&self) -> u64 {
        self.budget_ms
    }

    /// Starts the budget now.
    pub fn new(budget_ms: u64) -> (d: Deadline)
        ensures
            d.budget() == budget_ms,
    {
        Deadline { start: std::time::Instant::now(), budget_ms }
    }

    /// `max(0, budget - elapsed)`: what remains of a budget after some elapsed
    /// time, for every elapsed value, including those past the budget. The
    /// subtraction saturates instead of underflowing.
    pub fn remaining_at(budget_ms: u64, elapsed_ms: u128) -> (r: u64)
        ensures
            r == spec_remaining(budget_ms, elapsed_ms),
            r as int == if elapsed_ms as int >= budget_ms as int {
                0int
            } else {
                budget_ms as int - elapsed_ms as int
            },
    {
        if elapsed_ms >= budget_ms as u128 {
            0
        } else {
            budget_ms - elapsed_ms as u64
        }
    }

    /// The remaining budget in milliseconds, clamped at zero. The exact value
    /// depends on the clock; it never exceeds the budget.
    pub fn remaining(&self) -> (r: u64)
        ensures
            r <= self.budget(),
    {
        let elapsed_ms = self.start.elapsed().as_millis();
        Deadline::remaining_at(self.budget_ms, elapsed_ms)
    }

    /// Whether the budget has fully elapsed. Depends on the clock.
    pub fn expired(&self) -> bool {
        self.remaining() == 0
    }
}

} // verus!
