//! The error taxonomy of the driver.
//!
//! Every failure a run can report is enumerated here, specific enough that a
//! caller can tell a provisioning misconfiguration from a transient network
//! failure from a remote command failure.  The indeterminate outcome — the
//! deadline elapsed exactly at exit-status retrieval — is deliberately not an
//! error: it is a recorded "unknown" result.

use vstd::prelude::*;

verus! {

/// A protocol phase of the transport session driver.  Each phase is bounded
/// by its own deadline and can fail on its own.
#[derive(Clone, Copy, Debug, PartialEq, Eq, Structural)]
pub enum Phase {
    /// Negotiating the session protocol on the fresh connection.
    Handshake,
    /// Presenting the in-memory private key.
    Auth,
    /// Opening a command channel.
    ChannelOpen,
    /// Issuing the command string on the channel.
    ChannelExec,
    /// Draining the channel's standard-output stream.
    StdoutDrain,
    /// Draining the channel's standard-error stream.
    StderrDrain,
    /// Closing the command channel.
    ChannelClose,
    /// Opening the copy channel with the declared byte length.
    CopyOpen,
    /// Writing the archive bytes to the copy channel.
    CopyWrite,
    /// Signalling end-of-input on the copy channel.
    CopySendEof,
    /// Awaiting the peer's acknowledgement of end-of-input.
    CopyWaitEof,
    /// Closing the copy channel.
    CopyClose,
    /// Awaiting the peer's acknowledgement of the close.
    CopyWaitClose,
}

/// A failure of one call against the cloud provisioning collaborator, or a
/// missing field in one of its responses.
#[derive(Clone, Copy, Debug, PartialEq, Eq, Structural)]
pub enum ProvisionError {
    /// The create-key-pair call failed.
    CreateKeyPair,
    /// The created key pair came back without key material.
    MissingKeyMaterial,
    /// The create-security-group call failed.
    CreateSecurityGroup,
    /// The created security group came back without an identifier.
    MissingGroupId,
    /// The ingress-rule authorization call failed.
    AuthorizeIngress,
    /// The run-instances call failed.
    RunInstances,
    /// The run-instances response did not carry exactly one instance id.
    MissingInstanceId,
    /// The instance did not reach the running state before the deadline.
    StartupTimeout,
    /// The describe-instance-status call failed.
    DescribeStatus,
    /// The status response omitted a decodable state field.
    MissingStatusState,
    /// The describe-instances call failed.
    DescribeInstances,
    /// The running instance's description carried no public address.
    MissingAddress,
    /// The supplied address could not be parsed.
    AddressParse,
    /// The terminate-instances call failed.
    TerminateInstances,
    /// The delete-key-pair call failed.
    DeleteKeyPair,
    /// The delete-security-group call failed.
    DeleteSecurityGroup,
}

/// A failure while building the source archive.  Each filesystem step gets a
/// distinct kind, so a caller can log precisely which step failed.
#[derive(Clone, Copy, Debug, PartialEq, Eq, Structural)]
pub enum ArchiveError {
    /// The root directory could not be listed.
    ReadDir,
    /// A directory entry could not be read.
    ReadEntry,
    /// An entry's metadata (its file type) could not be read.
    ReadFileType,
    /// An entry was neither a regular file nor a directory; the archiver
    /// must fail explicitly rather than silently skip or follow it.
    UnsupportedEntry,
    /// An entry could not be appended to the container stream.
    Append,
    /// The compressed stream could not be finalized.
    Finalize,
}

/// A fatal failure of one target's pipeline.
#[derive(Clone, Copy, Debug, PartialEq, Eq, Structural)]
pub enum TargetError {
    /// A cloud-provisioning call failed or answered with a malformed shape.
    Provision(ProvisionError),
    /// Opening the raw connection to the target failed.
    Connect,
    /// A session phase exceeded its deadline.
    Timeout(Phase),
    /// A session phase failed with a non-timeout transport error.
    Transport(Phase),
    /// Authentication returned without error, yet the session did not report
    /// itself authenticated.
    AuthRejected,
    /// The channel closed, but the numeric exit status could not be queried.
    ExitStatusUnavailable,
    /// The remote unpack command's outcome was indeterminate.
    ExtractionTimedOut,
    /// The remote unpack command exited with this nonzero code.
    ExtractionFailed(i32),
}

/// The result of one channel execution.  It is never invented: when the
/// remote process's true exit status could not be retrieved before the
/// deadline, the driver says so rather than guessing a code.
#[derive(Clone, Copy, Debug, PartialEq, Eq, Structural)]
pub enum ExecOutcome {
    /// The exact numeric exit code the remote side reported.
    Code(i32),
    /// The session closed or the deadline elapsed before an exit status
    /// could be retrieved.
    Indeterminate,
}

} // verus!
