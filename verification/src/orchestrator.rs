//! The execution orchestrator: one run, many targets.
//!
//! A run performs its provisioning setup — key pair, access policy,
//! ingress rule — exactly once, shared by every target; a failure there
//! aborts the run before any instance is created.  Each target then runs
//! its own pipeline — launch, wait until running, resolve the address,
//! establish the session, optionally deliver and extract the source
//! archive, execute the command, terminate the instance — and reports
//! independently: one target's failure does not cancel its siblings.

use crate::copy::{spec_transfer_outcome, transfer_phase, CopyTrace};
use crate::errors::{ExecOutcome, ProvisionError, TargetError};
use crate::lifecycle::{
    parse_launch_response, resolve_address, spec_wait_outcome, wait_until_running, StatusSample,
};
use crate::session::{
    establish_session, exec_phase, spec_establish_outcome, spec_exec_phase, ExecTrace,
    SessionTrace,
};
use vstd::prelude::*;
use vstd::string::StringExecFns;

verus! {

/// What the run-wide setup calls reported: whether each provisioning call
/// succeeded, and the fields its response carried.
#[derive(Clone, Debug)]
pub struct SetupReport {
    /// The create-key-pair call returned without error.
    pub key_call_ok: bool,
    /// The key material of the created pair, if the response carried any.
    pub key_material: Option<String>,
    /// The create-security-group call returned without error.
    pub group_call_ok: bool,
    /// The identifier of the created group, if the response carried one.
    pub group_id: Option<String>,
    /// The ingress-rule authorization call returned without error.  The
    /// group and the rule are two calls, not a transaction: a failure here
    /// leaves a policy with no working rule and must abort the run.
    pub ingress_ok: bool,
}

/// How the run-wide setup ends: the first failing step decides, in call
/// order — key pair created and carrying material, group created and
/// carrying an identifier, ingress rule authorized.
pub open spec fn spec_setup_outcome(report: SetupReport) -> Result<(), ProvisionError> {
    if !report.key_call_ok {
        Err(ProvisionError::CreateKeyPair)
    } else if report.key_material is None {
        Err(ProvisionError::MissingKeyMaterial)
    } else if !report.group_call_ok {
        Err(ProvisionError::CreateSecurityGroup)
    } else if report.group_id is None {
        Err(ProvisionError::MissingGroupId)
    } else if !report.ingress_ok {
        Err(ProvisionError::AuthorizeIngress)
    } else {
        Ok(())
    }
}

/// The run-scoped credentials, created once and read-only thereafter.
#[derive(Clone, Debug)]
pub struct RunCredentials {
    /// The private half of the key pair, held only in memory.
    pub key_material: String,
    /// The access policy's identifier.
    pub group_id: String,
}

/// Judges the run-wide setup: success hands back the credentials every
/// target shares; the first failing step aborts with its own error.
pub fn setup_run(report: SetupReport) -> (r: Result<RunCredentials, ProvisionError>)
    ensures
        r is Ok <==> spec_setup_outcome(report) is Ok,
        r matches Err(e) ==> spec_setup_outcome(report) == Err::<(), ProvisionError>(e),
        r matches Ok(c) ==> ({
            &&& report.key_material matches Some(m) && c.key_material == m
            &&& report.group_id matches Some(g) && c.group_id == g
        }),
{
    if !report.key_call_ok {
        return Err(ProvisionError::CreateKeyPair);
    }
    let key_material = match report.key_material {
        Some(m) => m,
        None => {
            return Err(ProvisionError::MissingKeyMaterial);
        },
    };
    if !report.group_call_ok {
        return Err(ProvisionError::CreateSecurityGroup);
    }
    let group_id = match report.group_id {
        Some(g) => g,
        None => {
            return Err(ProvisionError::MissingGroupId);
        },
    };
    if !report.ingress_ok {
        return Err(ProvisionError::AuthorizeIngress);
    }
    Ok(RunCredentials { key_material, group_id })
}

/// Everything one target's pipeline observed, in pipeline order.
#[derive(Clone, Debug)]
pub struct TargetTrace {
    /// The run-instances call returned without error.
    pub launch_call_ok: bool,
    /// The instance identifiers its response carried, one per instance.
    pub instance_ids: Vec<Option<String>>,
    /// The status poll cycles while waiting for the running state.
    pub status_samples: Vec<StatusSample>,
    /// The describe-instances call returned without error.
    pub describe_call_ok: bool,
    /// Per reservation, the optional public address of each instance.
    pub reservations: Vec<Vec<Option<String>>>,
    /// The resolved address parsed as a network address.
    pub address_parse_ok: bool,
    /// What establishing the session observed.
    pub session: SessionTrace,
    /// What the copy observed, when a source tree was to be delivered.
    pub copy: Option<CopyTrace>,
    /// What the command execution observed.
    pub execution: ExecTrace,
    /// The terminate-instances call returned without error.  Terminating
    /// the instance is cleanup: issued only after the execution phase has
    /// returned, best-effort, and never part of the target's result.
    pub terminate_call_ok: bool,
}

/// How one target's pipeline ends: the phases run strictly in order and
/// the first failure settles the pipeline.  Cleanup — terminating the
/// instance — runs only after the execution phase has returned and is
/// best-effort: its success or failure never enters the result.  `None`
/// means the recording stopped before the pipeline was settled.
pub open spec fn spec_target_outcome(
    trace: TargetTrace,
    has_source: bool,
    archive_len: usize,
    budget: u64,
) -> Option<Result<ExecOutcome, TargetError>> {
    if !trace.launch_call_ok {
        Some(Err(TargetError::Provision(ProvisionError::RunInstances)))
    } else if !(trace.instance_ids@.len() == 1 && trace.instance_ids@[0] is Some) {
        Some(Err(TargetError::Provision(ProvisionError::MissingInstanceId)))
    } else {
        match spec_wait_outcome(trace.status_samples@, budget) {
            None => None,
            Some(Err(e)) => Some(Err(TargetError::Provision(e))),
            Some(Ok(())) => if !trace.describe_call_ok {
                Some(Err(TargetError::Provision(ProvisionError::DescribeInstances)))
            } else if !(trace.reservations@.len() == 1 && trace.reservations@[0]@.len() == 1
                && trace.reservations@[0]@[0] is Some) {
                Some(Err(TargetError::Provision(ProvisionError::MissingAddress)))
            } else if !trace.address_parse_ok {
                Some(Err(TargetError::Provision(ProvisionError::AddressParse)))
            } else {
                match spec_establish_outcome(trace.session, budget) {
                    None => None,
                    Some(Err(e)) => Some(Err(e)),
                    Some(Ok(())) => {
                        let after_copy: Option<Result<(), TargetError>> = if has_source {
                            match trace.copy {
                                None => None,
                                Some(copy_trace) => spec_transfer_outcome(
                                    copy_trace,
                                    archive_len,
                                    budget,
                                ),
                            }
                        } else {
                            Some(Ok(()))
                        };
                        match after_copy {
                            None => None,
                            Some(Err(e)) => Some(Err(e)),
                            Some(Ok(())) => spec_exec_phase(trace.execution, budget),
                        }
                    },
                }
            },
        }
    }
}

/// Replays one target's whole pipeline against the recorded trace.
pub fn target_pipeline(
    trace: &TargetTrace,
    has_source: bool,
    archive_len: usize,
    budget: u64,
) -> (outcome: Option<Result<ExecOutcome, TargetError>>)
    ensures
        outcome == spec_target_outcome(*trace, has_source, archive_len, budget),
{
    if !trace.launch_call_ok {
        return Some(Err(TargetError::Provision(ProvisionError::RunInstances)));
    }
    if parse_launch_response(&trace.instance_ids).is_err() {
        return Some(Err(TargetError::Provision(ProvisionError::MissingInstanceId)));
    }
    match wait_until_running(&trace.status_samples, budget) {
        None => {
            return None;
        },
        Some(Err(e)) => {
            return Some(Err(TargetError::Provision(e)));
        },
        Some(Ok(())) => {},
    }
    if !trace.describe_call_ok {
        return Some(Err(TargetError::Provision(ProvisionError::DescribeInstances)));
    }
    if resolve_address(&trace.reservations).is_err() {
        return Some(Err(TargetError::Provision(ProvisionError::MissingAddress)));
    }
    if !trace.address_parse_ok {
        return Some(Err(TargetError::Provision(ProvisionError::AddressParse)));
    }
    match establish_session(&trace.session, budget) {
        None => {
            return None;
        },
        Some(Err(e)) => {
            return Some(Err(e));
        },
        Some(Ok(())) => {},
    }
    if has_source {
        match &trace.copy {
            None => {
                return None;
            },
            Some(copy_trace) => match transfer_phase(copy_trace, archive_len, budget) {
                None => {
                    return None;
                },
                Some(Err(e)) => {
                    return Some(Err(e));
                },
                Some(Ok(())) => {},
            },
        }
    }
    exec_phase(&trace.execution, budget)
}

/// Cleanup is best-effort: whether the terminate call succeeded has no
/// bearing on the target's recorded result.
pub proof fn lemma_cleanup_never_decides(
    trace: TargetTrace,
    terminated: bool,
    has_source: bool,
    archive_len: usize,
    budget: u64,
)
    ensures
        spec_target_outcome(
            TargetTrace { terminate_call_ok: terminated, ..trace },
            has_source,
            archive_len,
            budget,
        ) == spec_target_outcome(trace, has_source, archive_len, budget),
{
}

/// What the run-wide cleanup checklist reported.  Every item is attempted
/// regardless of how the targets fared, each independently and
/// best-effort: a cleanup failure is recorded here, never raised as the
/// run's failure.
#[derive(Clone, Copy, Debug, PartialEq, Eq, Structural)]
pub struct CleanupReport {
    /// The key pair was revoked.
    pub delete_key_ok: bool,
    /// The access policy was deleted.
    pub delete_policy_ok: bool,
}

/// How one run ends: aborted by a setup failure before any instance was
/// created, or completed with one independent result per target and the
/// cleanup checklist's record.
#[derive(Clone, Debug, PartialEq, Eq)]
pub enum RunOutcome {
    /// The run-wide setup failed; no target was started.
    Aborted(ProvisionError),
    /// Every target's pipeline returned.
    Completed {
        results: Vec<Option<Result<ExecOutcome, TargetError>>>,
        cleanup: CleanupReport,
    },
}

/// The orchestrator of one process: it counts the runs' setups, so that a
/// whole run — however many targets it drives — is seen to perform its
/// provisioning setup exactly once.
pub struct Orchestrator {
    pub setup_calls: u64,
}

impl Orchestrator {
    /// A fresh orchestrator that has set nothing up.
    pub fn new() -> (orchestrator: Orchestrator)
        ensures
            orchestrator.setup_calls == 0,
    {
        Orchestrator { setup_calls: 0 }
    }

    /// How many times this orchestrator has performed the run-wide setup.
    pub fn setup_count(&self) -> (count: u64)
        ensures
            count == self.setup_calls,
    {
        self.setup_calls
    }

    /// Drives one whole run: performs the setup exactly once — a failure
    /// there aborts before any target starts — then replays every
    /// target's pipeline, each reporting independently, and records the
    /// cleanup checklist without letting it fail the run.
    pub fn run(
        &mut self,
        setup: SetupReport,
        targets: &Vec<TargetTrace>,
        has_source: bool,
        archive_len: usize,
        budget: u64,
        cleanup: CleanupReport,
    ) -> (outcome: RunOutcome)
        requires
            old(self).setup_calls < u64::MAX,
        ensures
            final(self).setup_calls == old(self).setup_calls + 1,
            spec_setup_outcome(setup) matches Err(e) ==> outcome == RunOutcome::Aborted(e),
            spec_setup_outcome(setup) is Ok ==> (outcome matches RunOutcome::Completed {
                results,
                cleanup: recorded,
            } && ({
                &&& results@.len() == targets@.len()
                &&& forall|i: int|
                    0 <= i < targets@.len() ==> results@[i] == spec_target_outcome(
                        targets@[i],
                        has_source,
                        archive_len,
                        budget,
                    )
                &&& recorded == cleanup
            })),
    {
        self.setup_calls = self.setup_calls + 1;
        match setup_run(setup) {
            Ok(_) => {},
            Err(e) => {
                return RunOutcome::Aborted(e);
            },
        }
        let mut results: Vec<Option<Result<ExecOutcome, TargetError>>> = Vec::new();
        let n = targets.len();
        let mut i: usize = 0;
        while i < n
            invariant
                0 <= i <= n,
                n == targets@.len(),
                results@.len() == i,
                forall|j: int|
                    0 <= j < i ==> results@[j] == spec_target_outcome(
                        targets@[j],
                        has_source,
                        archive_len,
                        budget,
                    ),
            decreases n - i,
        {
            let outcome = target_pipeline(&targets[i], has_source, archive_len, budget);
            results.push(outcome);
            i = i + 1;
        }
        RunOutcome::Completed { results, cleanup }
    }
}

/// Relies on uuid::Uuid::new_v4 and its hyphenated text form: 36
/// characters.  Nothing more is promised of a freshly drawn random
/// identifier.
#[verifier::external_body]
fn fresh_token() -> (token: String)
    ensures
        token@.len() == 36,
{
    uuid::Uuid::new_v4().to_string()
}

/// A fresh path under the temporary directory for the delivered archive:
/// the fixed prefix followed by a random 36-character identifier.
pub fn fresh_remote_path() -> (path: String)
    ensures
        path@.len() == 41,
        path@.subrange(0, 5) == "/tmp/"@,
{
    let token = fresh_token();
    let mut path: String = String::from_str("/tmp/");
    proof {
        reveal_strlit("/tmp/");
    }
    path.append(token.as_str());
    proof {
        assert(path@.subrange(0, 5) =~= "/tmp/"@);
    }
    path
}

} // verus!
