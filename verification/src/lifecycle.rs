//! The instance lifecycle: create, poll until running, resolve an address.
//!
//! The provisioning collaborator answers each call with a response whose
//! shape must be checked before the run may proceed.  This module holds the
//! verified decisions: which response shapes are acceptable, and how the
//! fixed-interval status poll ends — success at the first cycle that reports
//! the running state, a distinct error when the response omits a decodable
//! state, a timeout when the deadline passes first.

use crate::errors::ProvisionError;
use vstd::prelude::*;

verus! {

/// What one status query reported.
#[derive(Clone, Copy, Debug, PartialEq, Eq, Structural)]
pub enum StatusReport {
    /// The status query itself failed.
    QueryFailed,
    /// The query succeeded but its response held no decodable state field.
    MissingState,
    /// The query reported whether the instance is in the running state.
    Observed { running: bool },
}

/// One poll cycle: the milliseconds elapsed since the wait began, measured
/// at the top of the cycle, and what the status query then reported.
#[derive(Clone, Copy, Debug, PartialEq, Eq, Structural)]
pub struct StatusSample {
    pub elapsed: u64,
    pub report: StatusReport,
}

/// What the waiter does after one poll cycle.
#[derive(Clone, Copy, Debug, PartialEq, Eq, Structural)]
pub enum WaitStep {
    /// The instance is running: the wait succeeds now.
    Ready,
    /// Not running yet and within budget: poll again after the interval.
    Again,
    /// The wait fails now with this error.
    Fail(ProvisionError),
}

/// The decision of one poll cycle.  The deadline is checked first, at the
/// top of the cycle; then a failed query, a response without a decodable
/// state, and the running state each settle the wait.
pub open spec fn spec_wait_step(elapsed: u64, budget: u64, report: StatusReport) -> WaitStep {
    if elapsed > budget {
        WaitStep::Fail(ProvisionError::StartupTimeout)
    } else {
        match report {
            StatusReport::QueryFailed => WaitStep::Fail(ProvisionError::DescribeStatus),
            StatusReport::MissingState => WaitStep::Fail(ProvisionError::MissingStatusState),
            StatusReport::Observed { running } => if running {
                WaitStep::Ready
            } else {
                WaitStep::Again
            },
        }
    }
}

/// How the wait ends when its poll cycles come back as `samples`, in order.
/// `None` means the recording stopped while the instance was still pending
/// within budget.
pub open spec fn spec_wait_outcome(samples: Seq<StatusSample>, budget: u64) -> Option<
    Result<(), ProvisionError>,
>
    decreases samples.len(),
{
    if samples.len() == 0 {
        None
    } else {
        match spec_wait_step(samples[0].elapsed, budget, samples[0].report) {
            WaitStep::Ready => Some(Ok(())),
            WaitStep::Fail(e) => Some(Err(e)),
            WaitStep::Again => spec_wait_outcome(samples.skip(1), budget),
        }
    }
}

/// One consultation of the wait discipline, taken by the live waiter after
/// each status query.
pub fn wait_step(elapsed: u64, budget: u64, report: &StatusReport) -> (step: WaitStep)
    ensures
        step == spec_wait_step(elapsed, budget, *report),
{
    if elapsed > budget {
        WaitStep::Fail(ProvisionError::StartupTimeout)
    } else {
        match report {
            StatusReport::QueryFailed => WaitStep::Fail(ProvisionError::DescribeStatus),
            StatusReport::MissingState => WaitStep::Fail(ProvisionError::MissingStatusState),
            StatusReport::Observed { running } => if *running {
                WaitStep::Ready
            } else {
                WaitStep::Again
            },
        }
    }
}

/// Replays a recorded wait: runs the poll discipline over the cycles in
/// order and returns how the wait ended, or `None` if the recording ran out
/// while the instance was still pending within budget.
pub fn wait_until_running(samples: &Vec<StatusSample>, budget: u64) -> (outcome: Option<
    Result<(), ProvisionError>,
>)
    ensures
        outcome == spec_wait_outcome(samples@, budget),
{
    let n = samples.len();
    let mut i: usize = 0;
    proof {
        assert(samples@.skip(0) =~= samples@);
    }
    while i < n
        invariant
            0 <= i <= n,
            n == samples@.len(),
            spec_wait_outcome(samples@, budget) == spec_wait_outcome(
                samples@.skip(i as int),
                budget,
            ),
        decreases n - i,
    {
        let s = samples[i];
        proof {
            assert(samples@.skip(i as int)[0] == samples@[i as int]);
        }
        match wait_step(s.elapsed, budget, &s.report) {
            WaitStep::Ready => {
                return Some(Ok(()));
            },
            WaitStep::Fail(e) => {
                return Some(Err(e));
            },
            WaitStep::Again => {
                proof {
                    assert(samples@.skip(i as int).skip(1) =~= samples@.skip(i + 1));
                }
                i = i + 1;
            },
        }
    }
    None
}

/// The wait succeeds at the first poll cycle that reports the running
/// state: with the cycles before `j` pending within budget and cycle `j`
/// reporting running within budget, the wait ends in success, and already
/// the first `j + 1` cycles settle it.
pub proof fn lemma_wait_success_at_first_running(samples: Seq<StatusSample>, budget: u64, j: int)
    requires
        0 <= j < samples.len(),
        samples[j].report == (StatusReport::Observed { running: true }),
        samples[j].elapsed <= budget,
        forall|i: int|
            0 <= i < j ==> samples[i].report == (StatusReport::Observed { running: false })
                && samples[i].elapsed <= budget,
    ensures
        spec_wait_outcome(samples, budget) == Some(Result::<(), ProvisionError>::Ok(())),
        spec_wait_outcome(samples.take(j + 1), budget) == Some(
            Result::<(), ProvisionError>::Ok(()),
        ),
    decreases j,
{
    if j == 0 {
    } else {
        assert(forall|i: int|
            0 <= i < j - 1 ==> samples.skip(1)[i].report == (StatusReport::Observed {
                running: false,
            }) && samples.skip(1)[i].elapsed <= budget);
        lemma_wait_success_at_first_running(samples.skip(1), budget, j - 1);
        assert(samples.take(j + 1).skip(1) =~= samples.skip(1).take(j));
    }
}

/// A wait whose queries never report the running state does not hang: once
/// some cycle starts after the budget is spent, the wait ends, and ends in
/// the startup timeout when every earlier report was merely "pending".
pub proof fn lemma_wait_timeout_when_never_running(samples: Seq<StatusSample>, budget: u64)
    requires
        forall|i: int|
            0 <= i < samples.len() ==> samples[i].report == (StatusReport::Observed {
                running: false,
            }),
        exists|i: int| 0 <= i < samples.len() && samples[i].elapsed > budget,
    ensures
        spec_wait_outcome(samples, budget) == Some(
            Result::<(), ProvisionError>::Err(ProvisionError::StartupTimeout),
        ),
    decreases samples.len(),
{
    let j = choose|i: int| 0 <= i < samples.len() && samples[i].elapsed > budget;
    if samples[0].elapsed > budget {
    } else {
        assert(0 < j < samples.len());
        assert(samples.skip(1)[j - 1].elapsed > budget);
        lemma_wait_timeout_when_never_running(samples.skip(1), budget);
    }
}

/// A status response that omits a decodable state is fatal at once: with
/// the cycles before `j` pending within budget, cycle `j` reporting the
/// undecodable shape within budget ends the wait with the shape error.
pub proof fn lemma_wait_shape_error(samples: Seq<StatusSample>, budget: u64, j: int)
    requires
        0 <= j < samples.len(),
        samples[j].report == StatusReport::MissingState,
        samples[j].elapsed <= budget,
        forall|i: int|
            0 <= i < j ==> samples[i].report == (StatusReport::Observed { running: false })
                && samples[i].elapsed <= budget,
    ensures
        spec_wait_outcome(samples, budget) == Some(
            Result::<(), ProvisionError>::Err(ProvisionError::MissingStatusState),
        ),
    decreases j,
{
    if j == 0 {
    } else {
        assert(forall|i: int|
            0 <= i < j - 1 ==> samples.skip(1)[i].report == (StatusReport::Observed {
                running: false,
            }) && samples.skip(1)[i].elapsed <= budget);
        lemma_wait_shape_error(samples.skip(1), budget, j - 1);
    }
}

/// Accepts the created key pair's material, which the provider may omit.
pub fn require_key_material(material: Option<String>) -> (r: Result<String, ProvisionError>)
    ensures
        material is Some <==> r is Ok,
        r matches Ok(m) ==> material == Some(m),
        r matches Err(e) ==> e == ProvisionError::MissingKeyMaterial,
{
    match material {
        Some(m) => Ok(m),
        None => Err(ProvisionError::MissingKeyMaterial),
    }
}

/// Accepts the created security group's identifier, which the provider may
/// omit.
pub fn require_group_id(group_id: Option<String>) -> (r: Result<String, ProvisionError>)
    ensures
        group_id is Some <==> r is Ok,
        r matches Ok(g) ==> group_id == Some(g),
        r matches Err(e) ==> e == ProvisionError::MissingGroupId,
{
    match group_id {
        Some(g) => Ok(g),
        None => Err(ProvisionError::MissingGroupId),
    }
}

/// Accepts a run-instances response: the request asked for exactly one
/// instance, so the response must carry exactly one instance, and that
/// instance must carry an identifier.
pub fn parse_launch_response(instance_ids: &Vec<Option<String>>) -> (r: Result<
    String,
    ProvisionError,
>)
    ensures
        r is Ok <==> (instance_ids@.len() == 1 && instance_ids@[0] is Some),
        r matches Ok(id) ==> id@ == instance_ids@[0]->Some_0@,
        r matches Err(e) ==> e == ProvisionError::MissingInstanceId,
{
    if instance_ids.len() == 1 {
        match &instance_ids[0] {
            Some(id) => Ok(id.clone()),
            None => Err(ProvisionError::MissingInstanceId),
        }
    } else {
        Err(ProvisionError::MissingInstanceId)
    }
}

/// Accepts a describe-instances response, given as the per-reservation
/// lists of optional public addresses: exactly one reservation holding
/// exactly one instance, which must carry an address.  A running instance
/// is not guaranteed an address, so the miss is a distinct error and is not
/// retried here — surfacing it lets the orchestrator decide.
pub fn resolve_address(reservations: &Vec<Vec<Option<String>>>) -> (r: Result<
    String,
    ProvisionError,
>)
    ensures
        r is Ok <==> (reservations@.len() == 1 && reservations@[0]@.len() == 1
            && reservations@[0]@[0] is Some),
        r matches Ok(a) ==> a@ == reservations@[0]@[0]->Some_0@,
        r matches Err(e) ==> e == ProvisionError::MissingAddress,
{
    if reservations.len() == 1 {
        let instances = &reservations[0];
        if instances.len() == 1 {
            match &instances[0] {
                Some(addr) => Ok(addr.clone()),
                None => Err(ProvisionError::MissingAddress),
            }
        } else {
            Err(ProvisionError::MissingAddress)
        }
    } else {
        Err(ProvisionError::MissingAddress)
    }
}

} // verus!
