//! The retrying primitive: a waiter bounded by a deadline, used wherever the
//! bring-up has to wait for the outside world.
//!
//! The waiter does not sleep or read a clock itself. After each attempt its
//! owner reports the outcome and the current time, and is told whether the
//! result is final or how long to sleep before the next attempt.

use crate::text::{decimal, push_decimal};
use vstd::prelude::*;
use vstd::string::*;

verus! {

/// One second, in the milliseconds that every time of this module is given in.
pub const SECOND: u64 = 1000;

/// One minute, in milliseconds.
pub const MINUTE: u64 = 60000;

/// The classified outcome of one attempt.
pub enum EventuallyResult<T, E> {
    /// The attempt succeeded.
    Success(T),
    /// The attempt failed, and a later one may succeed.
    TempErr(E),
    /// The attempt failed for good.
    PermErr(E),
}

/// What follows an attempt.
pub enum Eventually<T, E> {
    /// The wait is over, with this result.
    Finished(Result<T, E>),
    /// Sleep for `sleep` milliseconds, then make attempt number `attempt_no`.
    Retry { sleep: u64, attempt_no: u64 },
}

/// A wait in progress.
#[derive(Clone, Copy, Debug, PartialEq, Eq, Structural)]
pub struct Waiter {
    /// Pause between two attempts.
    pub sleep_between: u64,
    /// Time allowed from the start of the wait to the start of the last attempt.
    pub total_timeout: u64,
    /// When the wait began.
    pub started: u64,
    /// Number of the attempt that is under way, counted from 1.
    pub attempt_no: u64,
}

impl Waiter {
    /// Time that has passed since the wait began; a clock that went back
    /// counts as no time passed.
    pub open spec fn elapsed(self, now: u64) -> int {
        if now >= self.started {
            now - self.started
        } else {
            0
        }
    }

    /// Whether another attempt, after the pause, would still begin by the
    /// deadline.
    pub open spec fn another_fits(self, now: u64) -> bool {
        self.elapsed(now) + self.sleep_between <= self.total_timeout
    }

    /// The waiter once a failed attempt has been counted.
    pub open spec fn counted(self) -> Waiter {
        Waiter {
            attempt_no: if self.attempt_no < u64::MAX {
                (self.attempt_no + 1) as u64
            } else {
                self.attempt_no
            },
            ..self
        }
    }

    /// Begins a wait at time `now`; the first attempt has number 1.
    pub fn new(sleep_between: u64, total_timeout: u64, now: u64) -> (waiter: Waiter)
        ensures
            waiter == (Waiter { sleep_between, total_timeout, started: now, attempt_no: 1 }),
    {
        Waiter { sleep_between, total_timeout, started: now, attempt_no: 1 }
    }

    /// Decides whether another attempt still fits before the deadline.
    pub fn fits(&self, now: u64) -> (r: bool)
        ensures
            r == self.another_fits(now),
    {
        let elapsed: u64 = if now >= self.started {
            now - self.started
        } else {
            0
        };
        elapsed <= self.total_timeout && self.sleep_between <= self.total_timeout - elapsed
    }
}

/// What the retrying primitive answers to `outcome`, reported at time `now`.
pub open spec fn eventually_spec<T, E>(
    waiter: Waiter,
    now: u64,
    outcome: EventuallyResult<T, E>,
) -> (Waiter, Eventually<T, E>) {
    match outcome {
        EventuallyResult::Success(value) => (waiter, Eventually::Finished(Ok(value))),
        EventuallyResult::PermErr(error) => (waiter, Eventually::Finished(Err(error))),
        EventuallyResult::TempErr(error) => if waiter.another_fits(now) {
            (
                waiter.counted(),
                Eventually::Retry {
                    sleep: waiter.sleep_between,
                    attempt_no: waiter.counted().attempt_no,
                },
            )
        } else {
            (waiter, Eventually::Finished(Err(error)))
        },
    }
}

/// Takes the outcome of the attempt that just ended at time `now`.
///
/// A success and a permanent failure end the wait at once. A temporary
/// failure leads to a pause and another attempt while that attempt can still
/// begin by the deadline; otherwise the wait ends with the last error.
pub fn eventually<T, E>(waiter: &mut Waiter, now: u64, outcome: EventuallyResult<T, E>) -> (next:
    Eventually<T, E>)
    ensures
        (*final(waiter), next) == eventually_spec(*old(waiter), now, outcome),
{
    match outcome {
        EventuallyResult::Success(value) => Eventually::Finished(Ok(value)),
        EventuallyResult::PermErr(error) => Eventually::Finished(Err(error)),
        EventuallyResult::TempErr(error) => {
            if waiter.fits(now) {
                if waiter.attempt_no < u64::MAX {
                    waiter.attempt_no = waiter.attempt_no + 1;
                }
                Eventually::Retry { sleep: waiter.sleep_between, attempt_no: waiter.attempt_no }
            } else {
                Eventually::Finished(Err(error))
            }
        },
    }
}

/// No attempt begins after the deadline: whenever the primitive asks for
/// another attempt, the pause it prescribes ends by `started + total_timeout`.
/// The whole wait is therefore over within the deadline plus the length of
/// one attempt.
pub proof fn lemma_retry_begins_by_deadline<T, E>(
    waiter: Waiter,
    now: u64,
    outcome: EventuallyResult<T, E>,
)
    requires
        now >= waiter.started,
    ensures
        eventually_spec(waiter, now, outcome).1 matches Eventually::Retry { sleep, .. } ==> now
            + sleep <= waiter.started + waiter.total_timeout,
{
}

/// The first success ends the wait with its value, and a permanent failure
/// ends it with its error, whatever the time.
pub proof fn lemma_final_outcomes_end_the_wait<T, E>(waiter: Waiter, now: u64, value: T, error: E)
    ensures
        ({
            let good: EventuallyResult<T, E> = EventuallyResult::Success(value);
            let expected: Eventually<T, E> = Eventually::Finished(Ok(value));
            eventually_spec(waiter, now, good).1 == expected
        }),
        ({
            let bad: EventuallyResult<T, E> = EventuallyResult::PermErr(error);
            let expected: Eventually<T, E> = Eventually::Finished(Err(error));
            eventually_spec(waiter, now, bad).1 == expected
        }),
{
}

/// Attempts are numbered from 1 and each retry carries the next number.
pub proof fn lemma_attempts_are_counted<T, E>(waiter: Waiter, now: u64, error: E)
    requires
        waiter.attempt_no < u64::MAX,
        waiter.another_fits(now),
    ensures
        ({
            let failed: EventuallyResult<T, E> = EventuallyResult::TempErr(error);
            let attempt_no = (waiter.attempt_no + 1) as u64;
            let sleep = waiter.sleep_between;
            let expected: Eventually<T, E> = Eventually::Retry { sleep, attempt_no };
            eventually_spec(waiter, now, failed).1 == expected
        }),
{
}

/// The line that reports a failed attempt.
pub fn attempt_failed(attempt_no: u64, error: &str) -> (line: String)
    ensures
        line@ == "Attempt "@ + decimal(attempt_no as nat) + " failed: "@ + error@,
{
    let mut line = String::from_str("Attempt ");
    push_decimal(&mut line, attempt_no);
    line.append(" failed: ");
    line.append(error);
    line
}

} // verus!
