//! Retrying a fetch: three attempts at most, a short pause between them,
//! the first success kept, the last failure reported.

use vstd::prelude::*;

verus! {

/// What follows an attempt.
#[derive(Debug)]
pub enum RetryStep<T, E> {
    /// Stop with this outcome.
    Finish(Result<T, E>),
    /// Pause, then make the next attempt.
    PauseThenRetry,
}

/// The number of the last attempt (attempts count from 0).
pub open spec fn last_attempt() -> u32 {
    2
}

/// The step that follows attempt `attempt` with this outcome: a success
/// ends the fetch; a failure is retried until the last attempt, whose
/// failure ends it.
pub open spec fn retry_step<T, E>(attempt: u32, outcome: Result<T, E>) -> RetryStep<T, E> {
    match outcome {
        Ok(v) => RetryStep::Finish(Ok(v)),
        Err(e) => if attempt < last_attempt() {
            RetryStep::PauseThenRetry
        } else {
            RetryStep::Finish(Err(e))
        },
    }
}

/// Decides what follows attempt `attempt`.
pub fn next_step<T, E>(attempt: u32, outcome: Result<T, E>) -> (r: RetryStep<T, E>)
    requires
        attempt <= last_attempt(),
    ensures
        r == retry_step(attempt, outcome),
{
    match outcome {
        Ok(v) => RetryStep::Finish(Ok(v)),
        Err(e) => if attempt < 2 {
            RetryStep::PauseThenRetry
        } else {
            RetryStep::Finish(Err(e))
        },
    }
}

/// The pause between attempts, in milliseconds.
pub fn pause_millis() -> (r: u64)
    ensures
        r == 100,
{
    100
}

/// The outcome of a fetch whose attempts, from `attempt` on, would give
/// `outcomes[attempt]`, `outcomes[attempt + 1]`, ...
pub open spec fn run_from<T, E>(attempt: u32, outcomes: Seq<Result<T, E>>) -> Result<T, E>
    decreases last_attempt() - attempt,
{
    if attempt >= last_attempt() {
        outcomes[attempt as int]
    } else {
        match retry_step(attempt, outcomes[attempt as int]) {
            RetryStep::Finish(r) => r,
            RetryStep::PauseThenRetry => run_from((attempt + 1) as u32, outcomes),
        }
    }
}

/// The number of attempts made, from `attempt` on.
pub open spec fn attempts_from<T, E>(attempt: u32, outcomes: Seq<Result<T, E>>) -> nat
    decreases last_attempt() - attempt,
{
    if attempt >= last_attempt() {
        1
    } else {
        match retry_step(attempt, outcomes[attempt as int]) {
            RetryStep::Finish(_) => 1,
            RetryStep::PauseThenRetry => 1 + attempts_from((attempt + 1) as u32, outcomes),
        }
    }
}

/// Driving `next_step` from the first attempt makes at most three attempts
/// and gives the first success among them, or else the failure of the third.
pub proof fn lemma_retry_outcome<T, E>(outcomes: Seq<Result<T, E>>)
    requires
        outcomes.len() >= 3,
    ensures
        run_from(0, outcomes) == if outcomes[0] is Ok {
            outcomes[0]
        } else if outcomes[1] is Ok {
            outcomes[1]
        } else {
            outcomes[2]
        },
        attempts_from(0, outcomes) <= 3,
        outcomes[0] is Ok ==> attempts_from(0, outcomes) == 1,
{
    reveal_with_fuel(run_from, 3);
    reveal_with_fuel(attempts_from, 3);
}

} // verus!
