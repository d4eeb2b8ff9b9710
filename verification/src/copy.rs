//! The copy sub-protocol: delivering the archive to a target.
//!
//! A copy opens a channel declaring the exact byte length of the archive up
//! front, writes the bytes while retrying partial writes under the
//! would-block discipline, signals end-of-input, waits for the peer's
//! acknowledgement, closes the channel, and waits for the peer to
//! acknowledge the close — each sub-phase with its own timeout check.  The
//! bytes delivered, the driver issues the extraction command through the
//! channel-execution phase and inspects its exit code: a nonzero code is a
//! distinct, explicit failure, not conflated with a transport failure.

use crate::errors::{ExecOutcome, Phase, TargetError};
use crate::retry::{spec_phase_outcome, drive_phase, PhaseResult, PollSample};
use crate::session::{spec_exec_phase, exec_phase, ExecTrace};
use vstd::prelude::*;

verus! {

/// One attempt to write a slice of the remaining archive bytes.
#[derive(Clone, Copy, Debug, PartialEq, Eq, Structural)]
pub enum WriteEvent {
    /// The write accepted this many bytes.
    Wrote { len: usize },
    /// The write would block.
    Blocked,
    /// The write failed.
    Failed,
}

/// One write attempt with the milliseconds elapsed since the phase began.
#[derive(Clone, Copy, Debug, PartialEq, Eq, Structural)]
pub struct WriteSample {
    pub elapsed: u64,
    pub event: WriteEvent,
}

/// What the write loop does after one attempt.
#[derive(Clone, Copy, Debug, PartialEq, Eq, Structural)]
pub enum WriteStep {
    /// Keep writing, with this many bytes accepted so far.
    Continue { sent: usize },
    /// The whole archive has been accepted.
    Done,
    /// The write loop fails now with this error.
    Fail(TargetError),
}

/// The decision after one write attempt, with `sent` of the declared
/// `total` bytes already accepted.  The deadline is checked at the top of
/// each cycle; partial writes accumulate; the loop completes at the write
/// of zero bytes once the whole archive has been accepted.  A report of
/// more bytes than remain outstanding would overrun the declared length
/// and is treated as a transport failure.
pub open spec fn spec_write_step(
    event: WriteEvent,
    elapsed: u64,
    budget: u64,
    sent: usize,
    total: usize,
) -> WriteStep {
    if elapsed > budget {
        WriteStep::Fail(TargetError::Timeout(Phase::CopyWrite))
    } else {
        match event {
            WriteEvent::Failed => WriteStep::Fail(TargetError::Transport(Phase::CopyWrite)),
            WriteEvent::Blocked => WriteStep::Continue { sent },
            WriteEvent::Wrote { len } => if len == 0 && sent == total {
                WriteStep::Done
            } else if len + sent > total {
                WriteStep::Fail(TargetError::Transport(Phase::CopyWrite))
            } else {
                WriteStep::Continue { sent: (sent + len) as usize }
            },
        }
    }
}

/// One consultation of the write discipline, taken by the live driver
/// after each attempt to write a slice of the archive.
pub fn write_step(event: WriteEvent, elapsed: u64, budget: u64, sent: usize, total: usize) -> (step:
    WriteStep)
    ensures
        step == spec_write_step(event, elapsed, budget, sent, total),
{
    if elapsed > budget {
        WriteStep::Fail(TargetError::Timeout(Phase::CopyWrite))
    } else {
        match event {
            WriteEvent::Failed => WriteStep::Fail(TargetError::Transport(Phase::CopyWrite)),
            WriteEvent::Blocked => WriteStep::Continue { sent },
            WriteEvent::Wrote { len } => if len == 0 && sent == total {
                WriteStep::Done
            } else if sent > total || len > total - sent {
                WriteStep::Fail(TargetError::Transport(Phase::CopyWrite))
            } else {
                WriteStep::Continue { sent: sent + len }
            },
        }
    }
}

/// How the write loop ends when its attempts come back as `samples`, in
/// order, with `acc` of the declared `total` bytes already accepted: each
/// attempt goes through [`spec_write_step`], and the first completing or
/// failing step settles the loop.  `None` means the recording stopped
/// while the delivery was still in progress within budget.
pub open spec fn spec_write_outcome(
    samples: Seq<WriteSample>,
    total: usize,
    budget: u64,
    acc: usize,
) -> Option<Result<(), TargetError>>
    decreases samples.len(),
{
    if samples.len() == 0 {
        None
    } else {
        match spec_write_step(samples[0].event, samples[0].elapsed, budget, acc, total) {
            WriteStep::Done => Some(Ok(())),
            WriteStep::Fail(err) => Some(Err(err)),
            WriteStep::Continue { sent } => spec_write_outcome(
                samples.skip(1),
                total,
                budget,
                sent,
            ),
        }
    }
}

/// Replays the archive write loop against the declared byte length.
pub fn drive_copy_write(samples: &Vec<WriteSample>, total: usize, budget: u64) -> (outcome: Option<
    Result<(), TargetError>,
>)
    ensures
        outcome == spec_write_outcome(samples@, total, budget, 0),
{
    let n = samples.len();
    let mut i: usize = 0;
    let mut acc: usize = 0;
    proof {
        assert(samples@.skip(0) =~= samples@);
    }
    while i < n
        invariant
            0 <= i <= n,
            n == samples@.len(),
            spec_write_outcome(samples@, total, budget, 0) == spec_write_outcome(
                samples@.skip(i as int),
                total,
                budget,
                acc,
            ),
        decreases n - i,
    {
        let s = samples[i];
        proof {
            assert(samples@.skip(i as int)[0] == samples@[i as int]);
            assert(samples@.skip(i as int).skip(1) =~= samples@.skip(i + 1));
        }
        match write_step(s.event, s.elapsed, budget, acc, total) {
            WriteStep::Done => {
                return Some(Ok(()));
            },
            WriteStep::Fail(err) => {
                return Some(Err(err));
            },
            WriteStep::Continue { sent } => {
                acc = sent;
                i = i + 1;
            },
        }
    }
    None
}

/// A write loop whose writes only ever block still stops: once some cycle
/// starts after the budget is spent, the loop is settled with the
/// copy-write timeout.
pub proof fn lemma_write_never_hangs(
    samples: Seq<WriteSample>,
    total: usize,
    budget: u64,
    acc: usize,
)
    requires
        forall|i: int| 0 <= i < samples.len() ==> samples[i].event == WriteEvent::Blocked,
        exists|i: int| 0 <= i < samples.len() && samples[i].elapsed > budget,
    ensures
        spec_write_outcome(samples, total, budget, acc) == Some(
            Result::<(), TargetError>::Err(TargetError::Timeout(Phase::CopyWrite)),
        ),
    decreases samples.len(),
{
    let j = choose|i: int| 0 <= i < samples.len() && samples[i].elapsed > budget;
    if samples[0].elapsed > budget {
    } else {
        assert(0 < j < samples.len());
        assert(samples.skip(1)[j - 1].elapsed > budget);
        lemma_write_never_hangs(samples.skip(1), total, budget, acc);
    }
}

/// The write loop completes only once every declared byte was accepted:
/// completion demands a final zero-length write at exactly the declared
/// total, so a short delivery can never be reported as success.
pub proof fn lemma_write_completes_only_in_full(
    samples: Seq<WriteSample>,
    total: usize,
    budget: u64,
    acc: usize,
)
    requires
        spec_write_outcome(samples, total, budget, acc) == Some(
            Result::<(), TargetError>::Ok(()),
        ),
        acc <= total,
    ensures
        exists|i: int|
            0 <= i < samples.len() && samples[i].event == (WriteEvent::Wrote { len: 0 }),
        total - acc <= sum_written(samples),
    decreases samples.len(),
{
    lemma_sum_written_nonneg(samples);
    if samples.len() == 0 {
    } else if samples[0].elapsed > budget {
    } else {
        match samples[0].event {
            WriteEvent::Blocked => {
                lemma_write_completes_only_in_full(samples.skip(1), total, budget, acc);
                let i = choose|i: int|
                    0 <= i < samples.skip(1).len() && samples.skip(1)[i].event
                        == (WriteEvent::Wrote { len: 0 });
                assert(samples[i + 1].event == (WriteEvent::Wrote { len: 0 }));
            },
            WriteEvent::Wrote { len } => {
                if len == 0 && acc == total {
                    assert(samples[0].event == (WriteEvent::Wrote { len: 0 }));
                } else {
                    lemma_write_completes_only_in_full(
                        samples.skip(1),
                        total,
                        budget,
                        (acc + len) as usize,
                    );
                    let i = choose|i: int|
                        0 <= i < samples.skip(1).len() && samples.skip(1)[i].event
                            == (WriteEvent::Wrote { len: 0 });
                    assert(samples[i + 1].event == (WriteEvent::Wrote { len: 0 }));
                }
            },
            WriteEvent::Failed => {},
        }
    }
}

/// The bytes the write attempts accepted, in all.
pub open spec fn sum_written(samples: Seq<WriteSample>) -> int
    decreases samples.len(),
{
    if samples.len() == 0 {
        0
    } else {
        (match samples[0].event {
            WriteEvent::Wrote { len } => len as int,
            _ => 0,
        }) + sum_written(samples.skip(1))
    }
}

proof fn lemma_sum_written_nonneg(samples: Seq<WriteSample>)
    ensures
        sum_written(samples) >= 0,
    decreases samples.len(),
{
    if samples.len() == 0 {
    } else {
        lemma_sum_written_nonneg(samples.skip(1));
    }
}

/// The verdict on the remote extraction command: only a zero exit code is
/// success; a nonzero code is the explicit extraction failure carrying that
/// code; an indeterminate outcome is the extraction timeout.
pub open spec fn spec_extraction_verdict(outcome: ExecOutcome) -> Result<(), TargetError> {
    match outcome {
        ExecOutcome::Code(code) => if code == 0 {
            Ok(())
        } else {
            Err(TargetError::ExtractionFailed(code))
        },
        ExecOutcome::Indeterminate => Err(TargetError::ExtractionTimedOut),
    }
}

/// Judges the extraction command's outcome.
pub fn extraction_verdict(outcome: ExecOutcome) -> (r: Result<(), TargetError>)
    ensures
        r == spec_extraction_verdict(outcome),
{
    match outcome {
        ExecOutcome::Code(code) => if code == 0 {
            Ok(())
        } else {
            Err(TargetError::ExtractionFailed(code))
        },
        ExecOutcome::Indeterminate => Err(TargetError::ExtractionTimedOut),
    }
}

/// Everything one copy observed: the attempts of each would-block-retried
/// sub-phase, the single end-of-input signal, and the trace of the
/// extraction command that follows the delivery.
#[derive(Clone, Debug, PartialEq, Eq)]
pub struct CopyTrace {
    pub open_attempts: Vec<PollSample>,
    pub writes: Vec<WriteSample>,
    pub send_eof_ok: bool,
    pub wait_eof_attempts: Vec<PollSample>,
    pub close_attempts: Vec<PollSample>,
    pub wait_close_attempts: Vec<PollSample>,
    pub extraction: ExecTrace,
}

/// Maps a retried sub-phase's result onto the copy error for that phase.
pub open spec fn spec_copy_subphase(
    result: Option<PhaseResult>,
    phase: Phase,
) -> Option<Result<(), TargetError>> {
    match result {
        None => None,
        Some(PhaseResult::Completed) => Some(Ok(())),
        Some(PhaseResult::TimedOut) => Some(Err(TargetError::Timeout(phase))),
        Some(PhaseResult::Failed) => Some(Err(TargetError::Transport(phase))),
    }
}

/// How one whole copy ends: open, write in full, signal end-of-input, await
/// the acknowledgement, close, await the close's acknowledgement, then run
/// the extraction command and judge its exit code.  The first sub-phase to
/// fail settles the copy, with that sub-phase named.  `None` means the
/// recording stopped before the copy was settled.
pub open spec fn spec_transfer_outcome(trace: CopyTrace, archive_len: usize, budget: u64) -> Option<
    Result<(), TargetError>,
> {
    match spec_copy_subphase(spec_phase_outcome(trace.open_attempts@, budget), Phase::CopyOpen) {
        None => None,
        Some(Err(e)) => Some(Err(e)),
        Some(Ok(())) => match spec_write_outcome(trace.writes@, archive_len, budget, 0) {
            None => None,
            Some(Err(e)) => Some(Err(e)),
            Some(Ok(())) => if !trace.send_eof_ok {
                Some(Err(TargetError::Transport(Phase::CopySendEof)))
            } else {
                match spec_copy_subphase(
                    spec_phase_outcome(trace.wait_eof_attempts@, budget),
                    Phase::CopyWaitEof,
                ) {
                    None => None,
                    Some(Err(e)) => Some(Err(e)),
                    Some(Ok(())) => match spec_copy_subphase(
                        spec_phase_outcome(trace.close_attempts@, budget),
                        Phase::CopyClose,
                    ) {
                        None => None,
                        Some(Err(e)) => Some(Err(e)),
                        Some(Ok(())) => match spec_copy_subphase(
                            spec_phase_outcome(trace.wait_close_attempts@, budget),
                            Phase::CopyWaitClose,
                        ) {
                            None => None,
                            Some(Err(e)) => Some(Err(e)),
                            Some(Ok(())) => match spec_exec_phase(trace.extraction, budget) {
                                None => None,
                                Some(Err(e)) => Some(Err(e)),
                                Some(Ok(outcome)) => Some(spec_extraction_verdict(outcome)),
                            },
                        },
                    },
                }
            },
        },
    }
}

/// Replays one whole copy — delivery and extraction — against the recorded
/// trace.
pub fn transfer_phase(trace: &CopyTrace, archive_len: usize, budget: u64) -> (outcome: Option<
    Result<(), TargetError>,
>)
    ensures
        outcome == spec_transfer_outcome(*trace, archive_len, budget),
{
    match drive_phase(&trace.open_attempts, budget) {
        None => {
            return None;
        },
        Some(PhaseResult::Failed) => {
            return Some(Err(TargetError::Transport(Phase::CopyOpen)));
        },
        Some(PhaseResult::TimedOut) => {
            return Some(Err(TargetError::Timeout(Phase::CopyOpen)));
        },
        Some(PhaseResult::Completed) => {},
    }
    match drive_copy_write(&trace.writes, archive_len, budget) {
        None => {
            return None;
        },
        Some(Err(e)) => {
            return Some(Err(e));
        },
        Some(Ok(())) => {},
    }
    if !trace.send_eof_ok {
        return Some(Err(TargetError::Transport(Phase::CopySendEof)));
    }
    match drive_phase(&trace.wait_eof_attempts, budget) {
        None => {
            return None;
        },
        Some(PhaseResult::Failed) => {
            return Some(Err(TargetError::Transport(Phase::CopyWaitEof)));
        },
        Some(PhaseResult::TimedOut) => {
            return Some(Err(TargetError::Timeout(Phase::CopyWaitEof)));
        },
        Some(PhaseResult::Completed) => {},
    }
    match drive_phase(&trace.close_attempts, budget) {
        None => {
            return None;
        },
        Some(PhaseResult::Failed) => {
            return Some(Err(TargetError::Transport(Phase::CopyClose)));
        },
        Some(PhaseResult::TimedOut) => {
            return Some(Err(TargetError::Timeout(Phase::CopyClose)));
        },
        Some(PhaseResult::Completed) => {},
    }
    match drive_phase(&trace.wait_close_attempts, budget) {
        None => {
            return None;
        },
        Some(PhaseResult::Failed) => {
            return Some(Err(TargetError::Transport(Phase::CopyWaitClose)));
        },
        Some(PhaseResult::TimedOut) => {
            return Some(Err(TargetError::Timeout(Phase::CopyWaitClose)));
        },
        Some(PhaseResult::Completed) => {},
    }
    match exec_phase(&trace.extraction, budget) {
        None => None,
        Some(Err(e)) => Some(Err(e)),
        Some(Ok(outcome)) => Some(extraction_verdict(outcome)),
    }
}

} // verus!
