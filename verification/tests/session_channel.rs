use aws_ec2::errors::{ExecOutcome, Phase, TargetError};
use aws_ec2::retry::PollSample;
use aws_ec2::session::{
    close_channel, close_step, drain_step, drain_stream, establish_session, exec_phase,
    session_step, CloseAttempt, CloseSample, CloseStep, DrainEnd, DrainStep, ExecTrace, ReadEvent,
    ReadSample, SessionEvent, SessionPhase, SessionTrace,
};
use aws_ec2::Attempt;

fn poll(elapsed: u64, attempt: Attempt) -> PollSample {
    PollSample { elapsed, attempt }
}

fn read(elapsed: u64, event: ReadEvent) -> ReadSample {
    ReadSample { elapsed, event }
}

fn close(elapsed: u64, attempt: CloseAttempt) -> CloseSample {
    CloseSample { elapsed, attempt }
}

fn quick_exec(exit_code: i32) -> ExecTrace {
    ExecTrace {
        open_attempts: vec![poll(1, Attempt::Ready)],
        exec_attempts: vec![poll(2, Attempt::Ready)],
        stdout_reads: vec![read(3, ReadEvent::Chunk { len: 64 }), read(4, ReadEvent::Eof)],
        stderr_reads: vec![read(3, ReadEvent::Eof)],
        close_attempts: vec![close(5, CloseAttempt::Closed { exit_code: Some(exit_code) })],
    }
}

#[test]
fn session_advances_only_through_its_own_successes() {
    let p = session_step(SessionPhase::Connecting, SessionEvent::ConnectOk);
    assert_eq!(p, SessionPhase::Handshaking);
    let p = session_step(p, SessionEvent::HandshakeOk);
    assert_eq!(p, SessionPhase::Authenticating);
    let p = session_step(p, SessionEvent::AuthOk { verified: true });
    assert_eq!(p, SessionPhase::Authenticated);
}

#[test]
fn unverified_auth_discards_the_session() {
    // A non-error return from authentication is not sufficient proof: the
    // session must also report itself authenticated.
    let p = session_step(SessionPhase::Authenticating, SessionEvent::AuthOk { verified: false });
    assert_eq!(p, SessionPhase::Discarded);
}

#[test]
fn discarded_sessions_stay_discarded() {
    let p = session_step(SessionPhase::Handshaking, SessionEvent::HandshakeFailed);
    assert_eq!(p, SessionPhase::Discarded);
    let p = session_step(p, SessionEvent::AuthOk { verified: true });
    assert_eq!(p, SessionPhase::Discarded);
}

#[test]
fn out_of_order_events_discard_the_session() {
    let p = session_step(SessionPhase::Connecting, SessionEvent::AuthOk { verified: true });
    assert_eq!(p, SessionPhase::Discarded);
}

#[test]
fn drain_step_accounts_for_every_event() {
    assert_eq!(
        drain_step(ReadEvent::Chunk { len: 100 }, 1, 10, 24),
        DrainStep::Continue { total: 124 }
    );
    assert_eq!(drain_step(ReadEvent::Blocked, 2, 10, 124), DrainStep::Continue { total: 124 });
    assert_eq!(
        drain_step(ReadEvent::Eof, 3, 10, 124),
        DrainStep::Stop(DrainEnd::Eof { total: 124 })
    );
    assert_eq!(
        drain_step(ReadEvent::Failed, 3, 10, 124),
        DrainStep::Stop(DrainEnd::ReadFailed)
    );
    assert_eq!(
        drain_step(ReadEvent::Chunk { len: 1 }, 11, 10, 124),
        DrainStep::Stop(DrainEnd::DeadlineElapsed { total: 124 })
    );
}

#[test]
fn close_step_judges_every_attempt() {
    assert_eq!(
        close_step(CloseAttempt::Closed { exit_code: Some(9) }, 1, 10),
        CloseStep::Settle(Ok(ExecOutcome::Code(9)))
    );
    assert_eq!(close_step(CloseAttempt::Blocked, 1, 10), CloseStep::Retry);
    assert_eq!(
        close_step(CloseAttempt::Closed { exit_code: None }, 1, 10),
        CloseStep::Settle(Err(TargetError::ExitStatusUnavailable))
    );
    assert_eq!(
        close_step(CloseAttempt::Failed, 1, 10),
        CloseStep::Settle(Err(TargetError::Transport(Phase::ChannelClose)))
    );
    // Past the deadline every attempt settles as indeterminate — even one
    // that would have carried a code.
    assert_eq!(
        close_step(CloseAttempt::Closed { exit_code: Some(0) }, 11, 10),
        CloseStep::Settle(Ok(ExecOutcome::Indeterminate))
    );
}

#[test]
fn drain_accumulates_until_eof() {
    let reads = vec![
        read(1, ReadEvent::Chunk { len: 1024 }),
        read(2, ReadEvent::Blocked),
        read(3, ReadEvent::Chunk { len: 100 }),
        read(4, ReadEvent::Eof),
    ];
    assert_eq!(drain_stream(&reads, 10), Some(DrainEnd::Eof { total: 1124 }));
}

#[test]
fn drain_stops_at_the_deadline_without_failing() {
    let reads = vec![read(5, ReadEvent::Chunk { len: 10 }), read(11, ReadEvent::Blocked)];
    assert_eq!(
        drain_stream(&reads, 10),
        Some(DrainEnd::DeadlineElapsed { total: 10 })
    );
}

#[test]
fn drain_surfaces_read_failures() {
    let reads = vec![read(1, ReadEvent::Failed)];
    assert_eq!(drain_stream(&reads, 10), Some(DrainEnd::ReadFailed));
}

#[test]
fn exit_code_is_reported_exactly() {
    let samples = vec![
        close(1, CloseAttempt::Blocked),
        close(2, CloseAttempt::Closed { exit_code: Some(42) }),
    ];
    assert_eq!(close_channel(&samples, 10), Some(Ok(ExecOutcome::Code(42))));
}

#[test]
fn missed_exit_status_is_indeterminate_not_zero() {
    // The deadline elapses before the close succeeds: the result is the
    // recorded "unknown", never a fabricated exit code.
    let samples = vec![
        close(4, CloseAttempt::Blocked),
        close(11, CloseAttempt::Closed { exit_code: Some(0) }),
    ];
    assert_eq!(close_channel(&samples, 10), Some(Ok(ExecOutcome::Indeterminate)));
}

#[test]
fn failed_exit_status_query_is_its_own_error() {
    let samples = vec![close(1, CloseAttempt::Closed { exit_code: None })];
    assert_eq!(
        close_channel(&samples, 10),
        Some(Err(TargetError::ExitStatusUnavailable))
    );
}

#[test]
fn failed_close_is_a_transport_error() {
    let samples = vec![close(1, CloseAttempt::Failed)];
    assert_eq!(
        close_channel(&samples, 10),
        Some(Err(TargetError::Transport(Phase::ChannelClose)))
    );
}

#[test]
fn execution_yields_the_remote_exit_code() {
    let trace = quick_exec(7);
    assert_eq!(exec_phase(&trace, 10), Some(Ok(ExecOutcome::Code(7))));
}

#[test]
fn execution_names_the_phase_that_timed_out() {
    let trace = ExecTrace {
        open_attempts: vec![poll(4, Attempt::Blocked), poll(11, Attempt::Blocked)],
        exec_attempts: vec![],
        stdout_reads: vec![],
        stderr_reads: vec![],
        close_attempts: vec![],
    };
    assert_eq!(
        exec_phase(&trace, 10),
        Some(Err(TargetError::Timeout(Phase::ChannelOpen)))
    );
}

#[test]
fn one_streams_eof_does_not_stop_the_other() {
    // Standard error ends at once; standard output keeps draining to its
    // own end-of-stream and the execution still completes.
    let trace = ExecTrace {
        open_attempts: vec![poll(1, Attempt::Ready)],
        exec_attempts: vec![poll(1, Attempt::Ready)],
        stdout_reads: vec![
            read(2, ReadEvent::Eof),
        ],
        stderr_reads: vec![
            read(2, ReadEvent::Chunk { len: 5 }),
            read(3, ReadEvent::Chunk { len: 5 }),
            read(4, ReadEvent::Eof),
        ],
        close_attempts: vec![close(5, CloseAttempt::Closed { exit_code: Some(0) })],
    };
    assert_eq!(exec_phase(&trace, 10), Some(Ok(ExecOutcome::Code(0))));
}

#[test]
fn stderr_failure_is_distinct_from_stdout_failure() {
    let trace = ExecTrace {
        open_attempts: vec![poll(1, Attempt::Ready)],
        exec_attempts: vec![poll(1, Attempt::Ready)],
        stdout_reads: vec![read(2, ReadEvent::Eof)],
        stderr_reads: vec![read(2, ReadEvent::Failed)],
        close_attempts: vec![],
    };
    assert_eq!(
        exec_phase(&trace, 10),
        Some(Err(TargetError::Transport(Phase::StderrDrain)))
    );
}

#[test]
fn establishing_a_session_checks_the_authenticated_flag() {
    let trace = SessionTrace {
        connect_ok: true,
        handshake_attempts: vec![poll(1, Attempt::Blocked), poll(2, Attempt::Ready)],
        auth_attempts: vec![poll(3, Attempt::Ready)],
        auth_verified: false,
    };
    assert_eq!(establish_session(&trace, 10), Some(Err(TargetError::AuthRejected)));
    let trace = SessionTrace { auth_verified: true, ..trace };
    assert_eq!(establish_session(&trace, 10), Some(Ok(())));
}

#[test]
fn a_failed_connect_ends_the_session_at_once() {
    let trace = SessionTrace {
        connect_ok: false,
        handshake_attempts: vec![],
        auth_attempts: vec![],
        auth_verified: false,
    };
    assert_eq!(establish_session(&trace, 10), Some(Err(TargetError::Connect)));
}

#[test]
fn handshake_timeout_is_named() {
    let trace = SessionTrace {
        connect_ok: true,
        handshake_attempts: vec![poll(12, Attempt::Blocked)],
        auth_attempts: vec![],
        auth_verified: true,
    };
    assert_eq!(
        establish_session(&trace, 10),
        Some(Err(TargetError::Timeout(Phase::Handshake)))
    );
}
