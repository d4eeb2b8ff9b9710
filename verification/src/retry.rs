//! The uniform would-block retry discipline.
//!
//! Every protocol phase of the session driver follows one pattern: attempt
//! the operation; on success advance; on a hard failure give up at once; on
//! the transient would-block signal compare the elapsed time against the
//! phase budget and either time out or retry.  This module states that
//! pattern once, as a step function the driver consults after every attempt
//! and as a replay over a recorded sequence of attempts, and proves that a
//! phase whose operation never succeeds still ends — with a timeout — as
//! soon as the clock passes the budget.

use crate::Attempt;
use vstd::prelude::*;

verus! {

/// One attempt together with the milliseconds elapsed since the phase began,
/// measured when the attempt returned.
#[derive(Clone, Copy, Debug, PartialEq, Eq, Structural)]
pub struct PollSample {
    pub elapsed: u64,
    pub attempt: Attempt,
}

/// How a phase ended.
#[derive(Clone, Copy, Debug, PartialEq, Eq, Structural)]
pub enum PhaseResult {
    /// The operation succeeded before the budget ran out.
    Completed,
    /// The operation was still blocked when the clock passed the budget.
    TimedOut,
    /// The operation reported a hard failure.
    Failed,
}

/// What the driver does after one attempt.
#[derive(Clone, Copy, Debug, PartialEq, Eq, Structural)]
pub enum RetryDecision {
    /// Advance to the next phase.
    Proceed,
    /// Attempt the operation again at once.
    Retry,
    /// Give up: the phase budget is spent.
    GiveUpTimedOut,
    /// Give up: the operation failed for good.
    GiveUpFailed,
}

/// The decision taken after one attempt: success advances, a hard failure
/// gives up, and the would-block signal retries unless the elapsed time has
/// passed the budget.
pub open spec fn spec_retry_step(attempt: Attempt, elapsed: u64, budget: u64) -> RetryDecision {
    match attempt {
        Attempt::Ready => RetryDecision::Proceed,
        Attempt::Failed => RetryDecision::GiveUpFailed,
        Attempt::Blocked => if elapsed > budget {
            RetryDecision::GiveUpTimedOut
        } else {
            RetryDecision::Retry
        },
    }
}

/// How a phase ends when its attempts come back as `samples`, in order:
/// the first attempt whose decision is not `Retry` settles the phase, and
/// `None` means the recording stopped while the operation was still blocked
/// within budget.
pub open spec fn spec_phase_outcome(samples: Seq<PollSample>, budget: u64) -> Option<PhaseResult>
    decreases samples.len(),
{
    if samples.len() == 0 {
        None
    } else {
        match spec_retry_step(samples[0].attempt, samples[0].elapsed, budget) {
            RetryDecision::Proceed => Some(PhaseResult::Completed),
            RetryDecision::GiveUpFailed => Some(PhaseResult::Failed),
            RetryDecision::GiveUpTimedOut => Some(PhaseResult::TimedOut),
            RetryDecision::Retry => spec_phase_outcome(samples.skip(1), budget),
        }
    }
}

/// One consultation of the retry discipline, taken by the live driver after
/// each attempt of a non-blocking operation.
pub fn retry_step(attempt: Attempt, elapsed: u64, budget: u64) -> (decision: RetryDecision)
    ensures
        decision == spec_retry_step(attempt, elapsed, budget),
{
    match attempt {
        Attempt::Ready => RetryDecision::Proceed,
        Attempt::Failed => RetryDecision::GiveUpFailed,
        Attempt::Blocked => if elapsed > budget {
            RetryDecision::GiveUpTimedOut
        } else {
            RetryDecision::Retry
        },
    }
}

/// Replays a recorded phase: runs the retry discipline over the attempts in
/// order and returns how the phase ended, or `None` if the recording ran out
/// while the operation was still blocked within budget.
pub fn drive_phase(samples: &Vec<PollSample>, budget: u64) -> (outcome: Option<PhaseResult>)
    ensures
        outcome == spec_phase_outcome(samples@, budget),
{
    let n = samples.len();
    let mut i: usize = 0;
    proof {
        assert(samples@.skip(0) =~= samples@);
    }
    while i < n
        invariant
            0 <= i <= n,
            n == samples@.len(),
            spec_phase_outcome(samples@, budget) == spec_phase_outcome(
                samples@.skip(i as int),
                budget,
            ),
        decreases n - i,
    {
        let s = samples[i];
        proof {
            assert(samples@.skip(i as int)[0] == samples@[i as int]);
        }
        match retry_step(s.attempt, s.elapsed, budget) {
            RetryDecision::Proceed => {
                return Some(PhaseResult::Completed);
            },
            RetryDecision::GiveUpFailed => {
                return Some(PhaseResult::Failed);
            },
            RetryDecision::GiveUpTimedOut => {
                return Some(PhaseResult::TimedOut);
            },
            RetryDecision::Retry => {
                proof {
                    assert(samples@.skip(i as int).skip(1) =~= samples@.skip(i + 1));
                }
                i = i + 1;
            },
        }
    }
    None
}

/// A phase whose operation never reports success cannot run forever: once
/// some attempt observes the clock past the budget, the phase is settled,
/// and settled with a timeout when every attempt merely blocked.
pub proof fn lemma_no_success_settles(samples: Seq<PollSample>, budget: u64)
    requires
        forall|i: int| 0 <= i < samples.len() ==> samples[i].attempt != Attempt::Ready,
        exists|i: int| 0 <= i < samples.len() && samples[i].elapsed > budget,
    ensures
        spec_phase_outcome(samples, budget) is Some,
        (forall|i: int| 0 <= i < samples.len() ==> samples[i].attempt == Attempt::Blocked)
            ==> spec_phase_outcome(samples, budget) == Some(PhaseResult::TimedOut),
    decreases samples.len(),
{
    let j = choose|i: int| 0 <= i < samples.len() && samples[i].elapsed > budget;
    if samples[0].attempt == Attempt::Failed {
    } else if samples[0].elapsed > budget {
    } else {
        assert(0 < j < samples.len());
        assert(samples.skip(1)[j - 1].elapsed > budget);
        lemma_no_success_settles(samples.skip(1), budget);
    }
}

/// The timeout is prompt: at the first attempt that observes the clock past
/// the budget, a still-blocked operation is abandoned — the phase consumes
/// the budget plus at most the one attempt in flight, never more.
pub proof fn lemma_timeout_at_first_overrun(samples: Seq<PollSample>, budget: u64, j: int)
    requires
        0 <= j < samples.len(),
        forall|i: int| 0 <= i <= j ==> samples[i].attempt == Attempt::Blocked,
        forall|i: int| 0 <= i < j ==> samples[i].elapsed <= budget,
        samples[j].elapsed > budget,
    ensures
        spec_phase_outcome(samples.take(j + 1), budget) == Some(PhaseResult::TimedOut),
        spec_phase_outcome(samples, budget) == Some(PhaseResult::TimedOut),
    decreases j,
{
    if j == 0 {
    } else {
        assert(forall|i: int|
            0 <= i <= j - 1 ==> samples.skip(1)[i].attempt == Attempt::Blocked);
        lemma_timeout_at_first_overrun(samples.skip(1), budget, j - 1);
        assert(samples.take(j + 1).skip(1) =~= samples.skip(1).take(j));
    }
}

} // verus!
