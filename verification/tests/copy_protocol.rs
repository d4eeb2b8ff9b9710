use aws_ec2::copy::{
    drive_copy_write, extraction_verdict, transfer_phase, write_step, CopyTrace, WriteEvent,
    WriteSample, WriteStep,
};
use aws_ec2::errors::{ExecOutcome, Phase, TargetError};
use aws_ec2::retry::PollSample;
use aws_ec2::session::{CloseAttempt, CloseSample, ExecTrace, ReadEvent, ReadSample};
use aws_ec2::Attempt;

fn poll(elapsed: u64, attempt: Attempt) -> PollSample {
    PollSample { elapsed, attempt }
}

fn wrote(elapsed: u64, len: usize) -> WriteSample {
    WriteSample { elapsed, event: WriteEvent::Wrote { len } }
}

fn extraction_trace(exit_code: i32) -> ExecTrace {
    ExecTrace {
        open_attempts: vec![poll(1, Attempt::Ready)],
        exec_attempts: vec![poll(1, Attempt::Ready)],
        stdout_reads: vec![ReadSample { elapsed: 2, event: ReadEvent::Eof }],
        stderr_reads: vec![ReadSample { elapsed: 2, event: ReadEvent::Eof }],
        close_attempts: vec![
            CloseSample { elapsed: 3, attempt: CloseAttempt::Closed { exit_code: Some(exit_code) } },
        ],
    }
}

fn delivery_trace(archive_len: usize, exit_code: i32) -> CopyTrace {
    CopyTrace {
        open_attempts: vec![poll(1, Attempt::Ready)],
        writes: vec![wrote(2, archive_len / 2), wrote(3, archive_len - archive_len / 2), wrote(4, 0)],
        send_eof_ok: true,
        wait_eof_attempts: vec![poll(5, Attempt::Blocked), poll(6, Attempt::Ready)],
        close_attempts: vec![poll(7, Attempt::Ready)],
        wait_close_attempts: vec![poll(8, Attempt::Ready)],
        extraction: extraction_trace(exit_code),
    }
}

#[test]
fn write_step_accounts_for_every_event() {
    assert_eq!(
        write_step(WriteEvent::Wrote { len: 400 }, 1, 10, 0, 1000),
        WriteStep::Continue { sent: 400 }
    );
    assert_eq!(
        write_step(WriteEvent::Blocked, 2, 10, 400, 1000),
        WriteStep::Continue { sent: 400 }
    );
    assert_eq!(write_step(WriteEvent::Wrote { len: 0 }, 3, 10, 1000, 1000), WriteStep::Done);
    assert_eq!(
        write_step(WriteEvent::Wrote { len: 700 }, 3, 10, 400, 1000),
        WriteStep::Fail(TargetError::Transport(Phase::CopyWrite))
    );
    assert_eq!(
        write_step(WriteEvent::Blocked, 11, 10, 400, 1000),
        WriteStep::Fail(TargetError::Timeout(Phase::CopyWrite))
    );
    assert_eq!(
        write_step(WriteEvent::Failed, 1, 10, 0, 1000),
        WriteStep::Fail(TargetError::Transport(Phase::CopyWrite))
    );
}

#[test]
fn partial_writes_accumulate_to_the_declared_length() {
    let writes = vec![wrote(1, 400), wrote(2, 600), wrote(3, 0)];
    assert_eq!(drive_copy_write(&writes, 1000, 10), Some(Ok(())));
}

#[test]
fn a_zero_write_before_full_delivery_keeps_polling() {
    let writes = vec![wrote(1, 400), wrote(2, 0), wrote(3, 600), wrote(4, 0)];
    assert_eq!(drive_copy_write(&writes, 1000, 10), Some(Ok(())));
}

#[test]
fn write_loop_times_out_when_delivery_stalls() {
    let writes = vec![wrote(1, 400), WriteSample { elapsed: 11, event: WriteEvent::Blocked }];
    assert_eq!(
        drive_copy_write(&writes, 1000, 10),
        Some(Err(TargetError::Timeout(Phase::CopyWrite)))
    );
}

#[test]
fn overrunning_the_declared_length_is_a_transport_error() {
    let writes = vec![wrote(1, 1200)];
    assert_eq!(
        drive_copy_write(&writes, 1000, 10),
        Some(Err(TargetError::Transport(Phase::CopyWrite)))
    );
}

#[test]
fn failed_write_is_a_transport_error() {
    let writes = vec![WriteSample { elapsed: 1, event: WriteEvent::Failed }];
    assert_eq!(
        drive_copy_write(&writes, 1000, 10),
        Some(Err(TargetError::Transport(Phase::CopyWrite)))
    );
}

#[test]
fn extraction_verdicts_map_exit_codes_exactly() {
    assert_eq!(extraction_verdict(ExecOutcome::Code(0)), Ok(()));
    assert_eq!(
        extraction_verdict(ExecOutcome::Code(2)),
        Err(TargetError::ExtractionFailed(2))
    );
    assert_eq!(
        extraction_verdict(ExecOutcome::Indeterminate),
        Err(TargetError::ExtractionTimedOut)
    );
}

#[test]
fn a_full_delivery_with_clean_extraction_succeeds() {
    let trace = delivery_trace(1000, 0);
    assert_eq!(transfer_phase(&trace, 1000, 10), Some(Ok(())));
}

#[test]
fn a_nonzero_extraction_code_is_an_extraction_failure() {
    let trace = delivery_trace(1000, 2);
    assert_eq!(
        transfer_phase(&trace, 1000, 10),
        Some(Err(TargetError::ExtractionFailed(2)))
    );
}

#[test]
fn a_failed_end_of_input_signal_is_named() {
    let trace = CopyTrace { send_eof_ok: false, ..delivery_trace(1000, 0) };
    assert_eq!(
        transfer_phase(&trace, 1000, 10),
        Some(Err(TargetError::Transport(Phase::CopySendEof)))
    );
}

#[test]
fn a_stalled_acknowledgement_times_out_with_its_phase_named() {
    let trace = CopyTrace {
        wait_eof_attempts: vec![poll(5, Attempt::Blocked), poll(11, Attempt::Blocked)],
        ..delivery_trace(1000, 0)
    };
    assert_eq!(
        transfer_phase(&trace, 1000, 10),
        Some(Err(TargetError::Timeout(Phase::CopyWaitEof)))
    );
}
