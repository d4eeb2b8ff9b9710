//! The transport session driver: one non-blocking network session, driven
//! through a strict protocol under the uniform would-block retry discipline.
//!
//! A session advances through ordered phases — connected, handshaken,
//! authenticated — and from the authenticated phase any number of channel
//! executions may run.  There is no phase re-entry: a session that fails its
//! handshake or its authentication is discarded, never retried.  A channel
//! execution opens a channel, issues the command, drains the two output
//! streams independently until end-of-stream or the deadline, then closes
//! the channel and retrieves the numeric exit status — or, when the deadline
//! has already elapsed at that point, records the indeterminate outcome
//! rather than failing the run over a missed exit code.

use crate::errors::{ExecOutcome, Phase, TargetError};
use crate::retry::{spec_phase_outcome, drive_phase, PhaseResult, PollSample};
use vstd::prelude::*;

verus! {

/// The ordered phases of one session.  `Discarded` is the sink for every
/// failure: such a session must not be reused for execution or copy.
#[derive(Clone, Copy, Debug, PartialEq, Eq, Structural)]
pub enum SessionPhase {
    /// Opening the raw connection.
    Connecting,
    /// Negotiating the session protocol.
    Handshaking,
    /// Presenting the in-memory private key.
    Authenticating,
    /// Ready: channel executions may run.
    Authenticated,
    /// Unusable; no event leads out of this phase.
    Discarded,
}

/// What the driver observed while advancing a session.
#[derive(Clone, Copy, Debug, PartialEq, Eq, Structural)]
pub enum SessionEvent {
    /// The raw connection opened.
    ConnectOk,
    /// The raw connection could not be opened.
    ConnectFailed,
    /// The handshake completed.
    HandshakeOk,
    /// The handshake failed or timed out.
    HandshakeFailed,
    /// The authentication call returned without error; `verified` records
    /// whether the session additionally reports itself authenticated.
    AuthOk { verified: bool },
    /// The authentication call failed or timed out.
    AuthFailed,
}

/// The session transition relation.  Each phase accepts exactly its own
/// success event; every failure, and every out-of-order event, discards the
/// session.  An authentication that returned without error is still not
/// enough: the session must also report itself authenticated.
pub open spec fn spec_session_step(phase: SessionPhase, event: SessionEvent) -> SessionPhase {
    match phase {
        SessionPhase::Connecting => match event {
            SessionEvent::ConnectOk => SessionPhase::Handshaking,
            _ => SessionPhase::Discarded,
        },
        SessionPhase::Handshaking => match event {
            SessionEvent::HandshakeOk => SessionPhase::Authenticating,
            _ => SessionPhase::Discarded,
        },
        SessionPhase::Authenticating => match event {
            SessionEvent::AuthOk { verified } => if verified {
                SessionPhase::Authenticated
            } else {
                SessionPhase::Discarded
            },
            _ => SessionPhase::Discarded,
        },
        SessionPhase::Authenticated => SessionPhase::Authenticated,
        SessionPhase::Discarded => SessionPhase::Discarded,
    }
}

/// Advances a session by one observed event.
pub fn session_step(phase: SessionPhase, event: SessionEvent) -> (next: SessionPhase)
    ensures
        next == spec_session_step(phase, event),
{
    match phase {
        SessionPhase::Connecting => match event {
            SessionEvent::ConnectOk => SessionPhase::Handshaking,
            _ => SessionPhase::Discarded,
        },
        SessionPhase::Handshaking => match event {
            SessionEvent::HandshakeOk => SessionPhase::Authenticating,
            _ => SessionPhase::Discarded,
        },
        SessionPhase::Authenticating => match event {
            SessionEvent::AuthOk { verified } => if verified {
                SessionPhase::Authenticated
            } else {
                SessionPhase::Discarded
            },
            _ => SessionPhase::Discarded,
        },
        SessionPhase::Authenticated => SessionPhase::Authenticated,
        SessionPhase::Discarded => SessionPhase::Discarded,
    }
}

/// A discarded session stays discarded: no sequence of events revives it.
pub proof fn lemma_discarded_is_final(event: SessionEvent)
    ensures
        spec_session_step(SessionPhase::Discarded, event) == SessionPhase::Discarded,
{
}

/// The only way into the authenticated phase is an authentication that both
/// returned without error and left the session reporting itself
/// authenticated; in particular no failed or out-of-order event reaches it.
pub proof fn lemma_authenticated_needs_verified_auth(phase: SessionPhase, event: SessionEvent)
    ensures
        spec_session_step(phase, event) == SessionPhase::Authenticated ==> (phase
            == SessionPhase::Authenticated || (phase == SessionPhase::Authenticating && event
            == (SessionEvent::AuthOk { verified: true }))),
{
}

/// Everything the driver observed while establishing one session: the
/// single connect call, the attempts of the two retried phases, and whether
/// the session reported itself authenticated after the authentication call
/// returned.
#[derive(Clone, Debug, PartialEq, Eq)]
pub struct SessionTrace {
    pub connect_ok: bool,
    pub handshake_attempts: Vec<PollSample>,
    pub auth_attempts: Vec<PollSample>,
    pub auth_verified: bool,
}

/// How establishing a session ends: connect, handshake under the retry
/// discipline, authenticate likewise, and then — a non-error return being
/// insufficient proof — verify that the session reports itself
/// authenticated.  `None` means the recording stopped while a phase was
/// still blocked within budget.
pub open spec fn spec_establish_outcome(trace: SessionTrace, budget: u64) -> Option<
    Result<(), TargetError>,
> {
    if !trace.connect_ok {
        Some(Err(TargetError::Connect))
    } else {
        match spec_phase_outcome(trace.handshake_attempts@, budget) {
            None => None,
            Some(PhaseResult::Failed) => Some(Err(TargetError::Transport(Phase::Handshake))),
            Some(PhaseResult::TimedOut) => Some(Err(TargetError::Timeout(Phase::Handshake))),
            Some(PhaseResult::Completed) => match spec_phase_outcome(
                trace.auth_attempts@,
                budget,
            ) {
                None => None,
                Some(PhaseResult::Failed) => Some(Err(TargetError::Transport(Phase::Auth))),
                Some(PhaseResult::TimedOut) => Some(Err(TargetError::Timeout(Phase::Auth))),
                Some(PhaseResult::Completed) => if trace.auth_verified {
                    Some(Ok(()))
                } else {
                    Some(Err(TargetError::AuthRejected))
                },
            },
        }
    }
}

/// Replays the establishment of one session against the recorded trace.
pub fn establish_session(trace: &SessionTrace, budget: u64) -> (outcome: Option<
    Result<(), TargetError>,
>)
    ensures
        outcome == spec_establish_outcome(*trace, budget),
{
    if !trace.connect_ok {
        return Some(Err(TargetError::Connect));
    }
    match drive_phase(&trace.handshake_attempts, budget) {
        None => {
            return None;
        },
        Some(PhaseResult::Failed) => {
            return Some(Err(TargetError::Transport(Phase::Handshake)));
        },
        Some(PhaseResult::TimedOut) => {
            return Some(Err(TargetError::Timeout(Phase::Handshake)));
        },
        Some(PhaseResult::Completed) => {},
    }
    match drive_phase(&trace.auth_attempts, budget) {
        None => {
            return None;
        },
        Some(PhaseResult::Failed) => {
            return Some(Err(TargetError::Transport(Phase::Auth)));
        },
        Some(PhaseResult::TimedOut) => {
            return Some(Err(TargetError::Timeout(Phase::Auth)));
        },
        Some(PhaseResult::Completed) => {},
    }
    if trace.auth_verified {
        Some(Ok(()))
    } else {
        Some(Err(TargetError::AuthRejected))
    }
}

/// The driver and the transition relation agree: a trace the driver
/// accepts, fed event by event into the session machine, ends in the
/// authenticated phase, and a trace whose authentication was not verified
/// ends discarded.
pub proof fn lemma_establish_matches_machine(trace: SessionTrace, budget: u64)
    ensures
        spec_establish_outcome(trace, budget) == Some(Result::<(), TargetError>::Ok(()))
            ==> spec_session_step(
            spec_session_step(
                spec_session_step(SessionPhase::Connecting, SessionEvent::ConnectOk),
                SessionEvent::HandshakeOk,
            ),
            SessionEvent::AuthOk { verified: trace.auth_verified },
        ) == SessionPhase::Authenticated,
        !trace.auth_verified ==> spec_session_step(
            spec_session_step(
                spec_session_step(SessionPhase::Connecting, SessionEvent::ConnectOk),
                SessionEvent::HandshakeOk,
            ),
            SessionEvent::AuthOk { verified: trace.auth_verified },
        ) == SessionPhase::Discarded,
{
}

/// One read attempt on an output stream.
#[derive(Clone, Copy, Debug, PartialEq, Eq, Structural)]
pub enum ReadEvent {
    /// A chunk of this many bytes arrived.
    Chunk { len: u64 },
    /// The stream reported end-of-stream.
    Eof,
    /// The read would block.
    Blocked,
    /// The read failed.
    Failed,
}

/// One read attempt with the milliseconds elapsed since the phase began.
#[derive(Clone, Copy, Debug, PartialEq, Eq, Structural)]
pub struct ReadSample {
    pub elapsed: u64,
    pub event: ReadEvent,
}

/// How one stream's drain loop ended.
#[derive(Clone, Copy, Debug, PartialEq, Eq, Structural)]
pub enum DrainEnd {
    /// The stream reported end-of-stream after `total` bytes.
    Eof { total: u64 },
    /// The deadline elapsed after `total` bytes; only this stream stops.
    DeadlineElapsed { total: u64 },
    /// A read failed.
    ReadFailed,
}

/// Addition that stops at the largest representable count rather than
/// wrapping.
pub open spec fn spec_saturating_add(a: u64, b: u64) -> u64 {
    if a + b > u64::MAX {
        u64::MAX
    } else {
        (a + b) as u64
    }
}

/// What a drain loop does after one read attempt.
#[derive(Clone, Copy, Debug, PartialEq, Eq, Structural)]
pub enum DrainStep {
    /// Keep reading, having consumed this many bytes so far.
    Continue { total: u64 },
    /// The drain is over.
    Stop(DrainEnd),
}

/// The decision after one read attempt: the deadline is checked first —
/// reaching it stops the stream without an error — then end-of-stream and
/// a failed read each stop it, a blocked read retries, and a chunk
/// accumulates.
pub open spec fn spec_drain_step(event: ReadEvent, elapsed: u64, budget: u64, acc: u64) -> DrainStep {
    if elapsed > budget {
        DrainStep::Stop(DrainEnd::DeadlineElapsed { total: acc })
    } else {
        match event {
            ReadEvent::Eof => DrainStep::Stop(DrainEnd::Eof { total: acc }),
            ReadEvent::Failed => DrainStep::Stop(DrainEnd::ReadFailed),
            ReadEvent::Blocked => DrainStep::Continue { total: acc },
            ReadEvent::Chunk { len } => DrainStep::Continue {
                total: spec_saturating_add(acc, len),
            },
        }
    }
}

/// One consultation of the drain discipline, taken by the live driver
/// after each read attempt on an output stream.
pub fn drain_step(event: ReadEvent, elapsed: u64, budget: u64, drained: u64) -> (step: DrainStep)
    ensures
        step == spec_drain_step(event, elapsed, budget, drained),
{
    if elapsed > budget {
        DrainStep::Stop(DrainEnd::DeadlineElapsed { total: drained })
    } else {
        match event {
            ReadEvent::Eof => DrainStep::Stop(DrainEnd::Eof { total: drained }),
            ReadEvent::Failed => DrainStep::Stop(DrainEnd::ReadFailed),
            ReadEvent::Blocked => DrainStep::Continue { total: drained },
            ReadEvent::Chunk { len } => DrainStep::Continue {
                total: if len > u64::MAX - drained {
                    u64::MAX
                } else {
                    drained + len
                },
            },
        }
    }
}

/// How a drain loop ends when its read attempts come back as `samples`, in
/// order, having already consumed `acc` bytes: each attempt goes through
/// [`spec_drain_step`], and the first stopping step settles the drain.
/// `None` means the recording stopped while the stream was still open
/// within budget.
pub open spec fn spec_drain_outcome(samples: Seq<ReadSample>, budget: u64, acc: u64) -> Option<
    DrainEnd,
>
    decreases samples.len(),
{
    if samples.len() == 0 {
        None
    } else {
        match spec_drain_step(samples[0].event, samples[0].elapsed, budget, acc) {
            DrainStep::Stop(end) => Some(end),
            DrainStep::Continue { total } => spec_drain_outcome(samples.skip(1), budget, total),
        }
    }
}

/// Replays one stream's drain loop.  Each stream is drained independently
/// of the other: this function sees only its own stream's reads, so an
/// end-of-stream on one stream can never stop the other.
pub fn drain_stream(samples: &Vec<ReadSample>, budget: u64) -> (end: Option<DrainEnd>)
    ensures
        end == spec_drain_outcome(samples@, budget, 0),
{
    let n = samples.len();
    let mut i: usize = 0;
    let mut acc: u64 = 0;
    proof {
        assert(samples@.skip(0) =~= samples@);
    }
    while i < n
        invariant
            0 <= i <= n,
            n == samples@.len(),
            spec_drain_outcome(samples@, budget, 0) == spec_drain_outcome(
                samples@.skip(i as int),
                budget,
                acc,
            ),
        decreases n - i,
    {
        let s = samples[i];
        proof {
            assert(samples@.skip(i as int)[0] == samples@[i as int]);
            assert(samples@.skip(i as int).skip(1) =~= samples@.skip(i + 1));
        }
        match drain_step(s.event, s.elapsed, budget, acc) {
            DrainStep::Stop(end) => {
                return Some(end);
            },
            DrainStep::Continue { total } => {
                acc = total;
                i = i + 1;
            },
        }
    }
    None
}

/// A drain loop whose stream never ends and never fails still stops: once
/// some read attempt observes the clock past the budget, the drain is
/// settled, and settled by the deadline — not by an error.
pub proof fn lemma_drain_never_hangs(samples: Seq<ReadSample>, budget: u64, acc: u64)
    requires
        forall|i: int|
            0 <= i < samples.len() ==> samples[i].event != ReadEvent::Eof && samples[i].event
                != ReadEvent::Failed,
        exists|i: int| 0 <= i < samples.len() && samples[i].elapsed > budget,
    ensures
        spec_drain_outcome(samples, budget, acc) matches Some(end) && end matches
            DrainEnd::DeadlineElapsed { total: _ },
    decreases samples.len(),
{
    let j = choose|i: int| 0 <= i < samples.len() && samples[i].elapsed > budget;
    if samples[0].elapsed > budget {
    } else {
        assert(0 < j < samples.len());
        assert(samples.skip(1)[j - 1].elapsed > budget);
        match samples[0].event {
            ReadEvent::Blocked => {
                lemma_drain_never_hangs(samples.skip(1), budget, acc);
            },
            ReadEvent::Chunk { len } => {
                lemma_drain_never_hangs(samples.skip(1), budget, spec_saturating_add(acc, len));
            },
            _ => {},
        }
    }
}

/// One attempt to close the channel and retrieve the exit status.
#[derive(Clone, Copy, Debug, PartialEq, Eq, Structural)]
pub enum CloseAttempt {
    /// The close completed; `exit_code` is the queried numeric exit status,
    /// or `None` when the query itself failed.
    Closed { exit_code: Option<i32> },
    /// The close would block.
    Blocked,
    /// The close failed.
    Failed,
}

/// One close attempt with the milliseconds elapsed since the phase began.
#[derive(Clone, Copy, Debug, PartialEq, Eq, Structural)]
pub struct CloseSample {
    pub elapsed: u64,
    pub attempt: CloseAttempt,
}

/// What the close loop does after one attempt.
#[derive(Clone, Copy, Debug, PartialEq, Eq)]
pub enum CloseStep {
    /// Attempt the close again at once.
    Retry,
    /// The execution is settled with this result.
    Settle(Result<ExecOutcome, TargetError>),
}

/// The decision after one close attempt.  An attempt that starts after
/// the budget is spent settles with the indeterminate outcome — a
/// recorded "unknown", deliberately not an error and never a fabricated
/// code.  A completed close settles with exactly the code the remote side
/// reported, and the failure of the status query itself is its own error.
pub open spec fn spec_close_step(attempt: CloseAttempt, elapsed: u64, budget: u64) -> CloseStep {
    if elapsed > budget {
        CloseStep::Settle(Ok(ExecOutcome::Indeterminate))
    } else {
        match attempt {
            CloseAttempt::Closed { exit_code } => match exit_code {
                Some(code) => CloseStep::Settle(Ok(ExecOutcome::Code(code))),
                None => CloseStep::Settle(Err(TargetError::ExitStatusUnavailable)),
            },
            CloseAttempt::Failed => CloseStep::Settle(
                Err(TargetError::Transport(Phase::ChannelClose)),
            ),
            CloseAttempt::Blocked => CloseStep::Retry,
        }
    }
}

/// One consultation of the close discipline, taken by the live driver
/// after each attempt to close the channel.
pub fn close_step(attempt: CloseAttempt, elapsed: u64, budget: u64) -> (step: CloseStep)
    ensures
        step == spec_close_step(attempt, elapsed, budget),
{
    if elapsed > budget {
        CloseStep::Settle(Ok(ExecOutcome::Indeterminate))
    } else {
        match attempt {
            CloseAttempt::Closed { exit_code } => match exit_code {
                Some(code) => CloseStep::Settle(Ok(ExecOutcome::Code(code))),
                None => CloseStep::Settle(Err(TargetError::ExitStatusUnavailable)),
            },
            CloseAttempt::Failed => CloseStep::Settle(
                Err(TargetError::Transport(Phase::ChannelClose)),
            ),
            CloseAttempt::Blocked => CloseStep::Retry,
        }
    }
}

/// How the close-and-fetch-exit-status loop ends: each attempt goes
/// through [`spec_close_step`], and the first settling step decides.
/// `None` means the recording stopped while the close was still blocked
/// within budget.
pub open spec fn spec_close_outcome(samples: Seq<CloseSample>, budget: u64) -> Option<
    Result<ExecOutcome, TargetError>,
>
    decreases samples.len(),
{
    if samples.len() == 0 {
        None
    } else {
        match spec_close_step(samples[0].attempt, samples[0].elapsed, budget) {
            CloseStep::Settle(result) => Some(result),
            CloseStep::Retry => spec_close_outcome(samples.skip(1), budget),
        }
    }
}

/// Replays the close-and-fetch-exit-status loop.
pub fn close_channel(samples: &Vec<CloseSample>, budget: u64) -> (outcome: Option<
    Result<ExecOutcome, TargetError>,
>)
    ensures
        outcome == spec_close_outcome(samples@, budget),
{
    let n = samples.len();
    let mut i: usize = 0;
    proof {
        assert(samples@.skip(0) =~= samples@);
    }
    while i < n
        invariant
            0 <= i <= n,
            n == samples@.len(),
            spec_close_outcome(samples@, budget) == spec_close_outcome(
                samples@.skip(i as int),
                budget,
            ),
        decreases n - i,
    {
        let s = samples[i];
        proof {
            assert(samples@.skip(i as int)[0] == samples@[i as int]);
            assert(samples@.skip(i as int).skip(1) =~= samples@.skip(i + 1));
        }
        match close_step(s.attempt, s.elapsed, budget) {
            CloseStep::Settle(result) => {
                return Some(result);
            },
            CloseStep::Retry => {
                i = i + 1;
            },
        }
    }
    None
}

/// A remote process that exits before the deadline yields the exact code it
/// reported: with the close attempts before `j` blocked within budget and
/// attempt `j` completing within budget with code `code`, the execution's
/// outcome is exactly that code.
pub proof fn lemma_exit_code_exact(samples: Seq<CloseSample>, budget: u64, j: int, code: i32)
    requires
        0 <= j < samples.len(),
        samples[j].attempt == (CloseAttempt::Closed { exit_code: Some(code) }),
        samples[j].elapsed <= budget,
        forall|i: int|
            0 <= i < j ==> samples[i].attempt == CloseAttempt::Blocked && samples[i].elapsed
                <= budget,
    ensures
        spec_close_outcome(samples, budget) == Some(
            Result::<ExecOutcome, TargetError>::Ok(ExecOutcome::Code(code)),
        ),
    decreases j,
{
    if j == 0 {
    } else {
        assert(forall|i: int|
            0 <= i < j - 1 ==> samples.skip(1)[i].attempt == CloseAttempt::Blocked && samples.skip(
                1,
            )[i].elapsed <= budget);
        lemma_exit_code_exact(samples.skip(1), budget, j - 1, code);
    }
}

/// An execution whose deadline elapses before the exit status is
/// retrievable yields the indeterminate outcome: when every close attempt
/// merely blocked and some attempt observed the clock past the budget, the
/// outcome is the recorded "unknown" — not an error, and not a code.
pub proof fn lemma_indeterminate_at_deadline(samples: Seq<CloseSample>, budget: u64)
    requires
        forall|i: int| 0 <= i < samples.len() ==> samples[i].attempt == CloseAttempt::Blocked,
        exists|i: int| 0 <= i < samples.len() && samples[i].elapsed > budget,
    ensures
        spec_close_outcome(samples, budget) == Some(
            Result::<ExecOutcome, TargetError>::Ok(ExecOutcome::Indeterminate),
        ),
    decreases samples.len(),
{
    let j = choose|i: int| 0 <= i < samples.len() && samples[i].elapsed > budget;
    if samples[0].elapsed > budget {
    } else {
        assert(0 < j < samples.len());
        assert(samples.skip(1)[j - 1].elapsed > budget);
        lemma_indeterminate_at_deadline(samples.skip(1), budget);
    }
}

/// An exit code is never invented: the outcome carries code `code` only if
/// some close attempt actually completed reporting that very code.
pub proof fn lemma_exit_code_provenance(samples: Seq<CloseSample>, budget: u64, code: i32)
    requires
        spec_close_outcome(samples, budget) == Some(
            Result::<ExecOutcome, TargetError>::Ok(ExecOutcome::Code(code)),
        ),
    ensures
        exists|i: int|
            0 <= i < samples.len() && samples[i].attempt == (CloseAttempt::Closed {
                exit_code: Some(code),
            }),
    decreases samples.len(),
{
    if samples[0].elapsed > budget {
    } else {
        match samples[0].attempt {
            CloseAttempt::Blocked => {
                lemma_exit_code_provenance(samples.skip(1), budget, code);
                let i = choose|i: int|
                    0 <= i < samples.skip(1).len() && samples.skip(1)[i].attempt
                        == (CloseAttempt::Closed { exit_code: Some(code) });
                assert(samples[i + 1].attempt == (CloseAttempt::Closed {
                    exit_code: Some(code),
                }));
            },
            _ => {},
        }
    }
}

/// Everything one channel execution observed: the attempts to open the
/// channel, the attempts to issue the command, each stream's reads, and the
/// attempts to close the channel.
#[derive(Clone, Debug, PartialEq, Eq)]
pub struct ExecTrace {
    pub open_attempts: Vec<PollSample>,
    pub exec_attempts: Vec<PollSample>,
    pub stdout_reads: Vec<ReadSample>,
    pub stderr_reads: Vec<ReadSample>,
    pub close_attempts: Vec<CloseSample>,
}

/// How one channel execution ends: open the channel under the retry
/// discipline, issue the command likewise, drain both streams — each
/// stopping only on its own end-of-stream or the deadline — and then close
/// and fetch the exit status.  A failure settles the execution at the first
/// phase that failed, with that phase named.  `None` means the recording
/// stopped before the execution was settled.
pub open spec fn spec_exec_phase(trace: ExecTrace, budget: u64) -> Option<
    Result<ExecOutcome, TargetError>,
> {
    match spec_phase_outcome(trace.open_attempts@, budget) {
        None => None,
        Some(PhaseResult::Failed) => Some(Err(TargetError::Transport(Phase::ChannelOpen))),
        Some(PhaseResult::TimedOut) => Some(Err(TargetError::Timeout(Phase::ChannelOpen))),
        Some(PhaseResult::Completed) => match spec_phase_outcome(trace.exec_attempts@, budget) {
            None => None,
            Some(PhaseResult::Failed) => Some(Err(TargetError::Transport(Phase::ChannelExec))),
            Some(PhaseResult::TimedOut) => Some(Err(TargetError::Timeout(Phase::ChannelExec))),
            Some(PhaseResult::Completed) => match spec_drain_outcome(
                trace.stdout_reads@,
                budget,
                0,
            ) {
                None => None,
                Some(DrainEnd::ReadFailed) => Some(Err(TargetError::Transport(Phase::StdoutDrain))),
                Some(_) => match spec_drain_outcome(trace.stderr_reads@, budget, 0) {
                    None => None,
                    Some(DrainEnd::ReadFailed) => Some(
                        Err(TargetError::Transport(Phase::StderrDrain)),
                    ),
                    Some(_) => spec_close_outcome(trace.close_attempts@, budget),
                },
            },
        },
    }
}

/// Replays one whole channel execution against the recorded trace.
pub fn exec_phase(trace: &ExecTrace, budget: u64) -> (outcome: Option<
    Result<ExecOutcome, TargetError>,
>)
    ensures
        outcome == spec_exec_phase(*trace, budget),
{
    match drive_phase(&trace.open_attempts, budget) {
        None => {
            return None;
        },
        Some(PhaseResult::Failed) => {
            return Some(Err(TargetError::Transport(Phase::ChannelOpen)));
        },
        Some(PhaseResult::TimedOut) => {
            return Some(Err(TargetError::Timeout(Phase::ChannelOpen)));
        },
        Some(PhaseResult::Completed) => {},
    }
    match drive_phase(&trace.exec_attempts, budget) {
        None => {
            return None;
        },
        Some(PhaseResult::Failed) => {
            return Some(Err(TargetError::Transport(Phase::ChannelExec)));
        },
        Some(PhaseResult::TimedOut) => {
            return Some(Err(TargetError::Timeout(Phase::ChannelExec)));
        },
        Some(PhaseResult::Completed) => {},
    }
    match drain_stream(&trace.stdout_reads, budget) {
        None => {
            return None;
        },
        Some(DrainEnd::ReadFailed) => {
            return Some(Err(TargetError::Transport(Phase::StdoutDrain)));
        },
        Some(_) => {},
    }
    match drain_stream(&trace.stderr_reads, budget) {
        None => {
            return None;
        },
        Some(DrainEnd::ReadFailed) => {
            return Some(Err(TargetError::Transport(Phase::StderrDrain)));
        },
        Some(_) => {},
    }
    close_channel(&trace.close_attempts, budget)
}

} // verus!
