use aws_ec2::retry::{drive_phase, retry_step, PhaseResult, PollSample, RetryDecision};
use aws_ec2::Attempt;

fn sample(elapsed: u64, attempt: Attempt) -> PollSample {
    PollSample { elapsed, attempt }
}

#[test]
fn step_proceeds_on_ready() {
    assert_eq!(retry_step(Attempt::Ready, 0, 10), RetryDecision::Proceed);
    assert_eq!(retry_step(Attempt::Ready, 999, 10), RetryDecision::Proceed);
}

#[test]
fn step_gives_up_on_failure() {
    assert_eq!(retry_step(Attempt::Failed, 0, 10), RetryDecision::GiveUpFailed);
}

#[test]
fn step_retries_within_budget() {
    assert_eq!(retry_step(Attempt::Blocked, 10, 10), RetryDecision::Retry);
    assert_eq!(retry_step(Attempt::Blocked, 0, 0), RetryDecision::Retry);
}

#[test]
fn step_times_out_past_budget() {
    assert_eq!(retry_step(Attempt::Blocked, 11, 10), RetryDecision::GiveUpTimedOut);
    assert_eq!(retry_step(Attempt::Blocked, 1, 0), RetryDecision::GiveUpTimedOut);
}

#[test]
fn phase_completes_on_first_success() {
    let samples = vec![
        sample(1, Attempt::Blocked),
        sample(2, Attempt::Ready),
        sample(3, Attempt::Failed),
    ];
    assert_eq!(drive_phase(&samples, 10), Some(PhaseResult::Completed));
}

#[test]
fn phase_fails_on_hard_error() {
    let samples = vec![sample(1, Attempt::Blocked), sample(2, Attempt::Failed)];
    assert_eq!(drive_phase(&samples, 10), Some(PhaseResult::Failed));
}

#[test]
fn never_successful_phase_times_out_at_first_overrun() {
    // The operation never reports success; the first attempt past the
    // budget settles the phase, attempts recorded after it are not needed.
    let samples = vec![
        sample(4, Attempt::Blocked),
        sample(8, Attempt::Blocked),
        sample(11, Attempt::Blocked),
        sample(12, Attempt::Ready),
    ];
    assert_eq!(drive_phase(&samples, 10), Some(PhaseResult::TimedOut));
}

#[test]
fn zero_budget_times_out_after_one_late_attempt() {
    let samples = vec![sample(1, Attempt::Blocked)];
    assert_eq!(drive_phase(&samples, 0), Some(PhaseResult::TimedOut));
}

#[test]
fn undecided_recording_is_reported_as_such() {
    let samples = vec![sample(1, Attempt::Blocked), sample(2, Attempt::Blocked)];
    assert_eq!(drive_phase(&samples, 10), None);
}
