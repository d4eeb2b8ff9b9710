//! Deadline-bounded remote execution driver.
//!
//! The library models the logic of a disposable remote-execution sandbox:
//! provision a compute instance, push a local source tree to it, run one
//! command under a wall-clock budget, and tear the instance down.  Every
//! decision the driver takes — when a polling phase times out, how a
//! non-blocking session advances, which entries of the source tree enter the
//! archive, how per-target results are aggregated — is verified here.  The
//! surrounding process performs the network and filesystem calls and feeds
//! their results back as plain values.
//!
//! Deadlines are per phase: every phase — handshake, authentication, one
//! channel execution, each copy sub-step — measures its own elapsed time
//! against the same caller-supplied budget, from that phase's own start.
//! There is no run-wide budget, so a target's total wall-clock time can
//! exceed the nominal timeout severalfold.
//!
//! The modules, leaves first:
//! - [`errors`] — the failure taxonomy and the execution outcome, which
//!   distinguishes a real exit code from a recorded "unknown".
//! - [`retry`] — the uniform would-block retry discipline every phase runs
//!   under.
//! - [`archive`] — the source archiver: ignore-set filtering, tar and gzip
//!   encoding, the build-once cache.
//! - [`lifecycle`] — provisioning-response checks and the poll until the
//!   instance runs.
//! - [`session`] — the transport session: phase machine, output drains,
//!   close and exit-status retrieval, whole channel executions.
//! - [`copy`] — the copy sub-protocol that delivers the archive and judges
//!   the remote extraction.
//! - [`orchestrator`] — one run end to end: setup once, independent
//!   targets, best-effort cleanup.

pub mod archive;
pub mod copy;
pub mod errors;
pub mod lifecycle;
pub mod orchestrator;
pub mod retry;
pub mod session;

use vstd::prelude::*;

verus! {

/// One attempt of a non-blocking operation, as its caller observed it.
#[derive(Clone, Copy, Debug, PartialEq, Eq, Structural)]
pub enum Attempt {
    /// The operation succeeded.
    Ready,
    /// The operation reported the transient "not ready yet" signal.
    Blocked,
    /// The operation reported a hard failure.
    Failed,
}

} // verus!
