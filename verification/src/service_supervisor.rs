//! Parent-owned concurrent startup bookkeeping for persistent services.
//!
//! The supervisor's job, cleanup and claim-resolution futures run outside
//! this module.  The bookkeeping they report to, the capacity it guards and
//! every decision the jobs take are here.
use vstd::prelude::*;
use crate::http_checks::{authority_valid, http_authority_parses};
use crate::ident::{
    GatewayServiceInstanceLease, GatewayServiceInstanceState, GatewayServiceOwner, GatewayServiceOwnershipError,
    NIL_UUID, random_uuid, service_vm_id, spec_service_vm_id,
};
use crate::service_boot_recovery::copy_lease;
use crate::service_capacity::{
    CapacityReservation, GatewayServiceCapacity, GatewayServiceCapacityError, GatewayServiceCapacitySnapshot,
    GatewayServiceCapacityToken, GatewayServiceSupervisorPolicy, spec_has_token, spec_reserve_error, spec_snapshot,
    spec_unique,
};
use crate::service_cleanup::{GatewayServiceCleanup, spec_cleanup_input_valid};
use crate::service_cleanup_driver::{
    GatewayServiceCleanupDriverError, GatewayServiceCleanupDriverOutcome, map_ownership_error,
    spec_map_ownership_error,
};
use crate::service_coordinator::{
    GatewayServiceCoordinatorFailure, GatewayServiceCoordinatorFailureReason, GatewayServiceCoordinatorStatus,
    GatewayServiceStartupIntent,
};
use crate::service_failure::GatewayServiceFailure;
use crate::text::text_eq;

verus! {

/// Reads the wall clock as Unix nanoseconds.
///
/// Trusted: `time::OffsetDateTime::now_utc` and `unix_timestamp_nanos`.
/// The value depends on the clock, so nothing is stated of it.
#[verifier::external_body]
fn now_unix_nanos() -> (now: i128) {
    time::OffsetDateTime::now_utc().unix_timestamp_nanos()
}

/// A startup request selected by an already-running reconciliation caller.
#[derive(Debug, Clone, Copy, PartialEq, Eq, Structural)]
pub struct GatewayServiceStartupRequest {
    /// Gateway whose service revision is being started.
    pub gateway_id: u128,
    /// Exact immutable service revision.
    pub revision_id: u128,
    /// Whether readiness should activate or restore this revision.
    pub intent: GatewayServiceStartupIntent,
}

/// Public lifecycle state for one parent-owned startup job.
#[derive(Debug, Clone, Copy, PartialEq, Eq, Structural)]
pub enum GatewayServiceSupervisorJobStatus {
    /// Capacity is reserved and the durable claim is in flight.
    Claiming,
    /// A claim exists and coordinator preparation is in flight.
    Starting,
    /// The coordinator reached readiness and startup capacity was released.
    Ready,
    /// The job ended with all physical and durable cleanup complete.
    Settled,
    /// The job ended while retaining an exact claim or cleanup responsibility.
    Failed,
    /// The claim operation may have committed but did not return a result.
    Uncertain,
    /// The caller requested cancellation and the job retained cleanup state.
    Cancelled,
    /// A parent-owned cleanup retry is currently running.
    CleanupPending,
}

/// Completion notification for one job.
#[derive(Debug, Clone, Copy, PartialEq, Eq, Structural)]
pub struct GatewayServiceSupervisorEvent {
    /// Completed job identifier.
    pub job_id: u128,
    /// Terminal public status.
    pub status: GatewayServiceSupervisorJobStatus,
    /// Whether the capacity reservation has been released.
    pub capacity_released: bool,
}

/// Construction and start failures which do not transfer ownership.
#[derive(Debug, Clone, Copy, PartialEq, Eq, Structural)]
pub enum GatewayServiceSupervisorError {
    /// Context, request, or deadline input was malformed.
    InvalidInput,
    /// Capacity was unavailable before any durable claim was attempted.
    Capacity(GatewayServiceCapacityError),
    /// A job for this exact gateway and revision already exists.
    Duplicate,
    /// No terminal coordinator cleanup exists for this job.
    RetryNotEligible,
    /// The requested cleanup job no longer exists.
    RetryNotFound,
    /// A cleanup retry is already parent-owned and running.
    RetryAlreadyInFlight,
    /// The claim-resolution store could not complete its bounded read.
    ClaimResolutionUnavailable,
}

/// Cleanup state a retry carries across attempts.
#[derive(Debug, Clone, PartialEq, Eq)]
pub struct GatewayServiceCleanupRetryState {
    /// Physical and materializer cleanup progress.
    pub cleanup: GatewayServiceCleanup,
    /// Latest known lease.
    pub lease: GatewayServiceInstanceLease,
    /// Failure report still awaiting durable recording.
    pub pending_failure: Option<GatewayServiceFailure>,
    /// Original coordinator termination reason.
    pub reason: Option<GatewayServiceCoordinatorFailureReason>,
}

/// What a job left behind when it ended.
#[derive(Debug, Clone, PartialEq, Eq)]
pub struct GatewayServiceJobTerminal {
    /// Late durable claim, when one was returned.
    pub lease: Option<GatewayServiceInstanceLease>,
    /// Whether the claim operation ended without an authoritative result.
    pub claim_uncertain: bool,
    /// Coordinator failure retaining any VM or materialization responsibility.
    pub coordinator_failure: Option<GatewayServiceCoordinatorFailure>,
    /// Why a claim that never reached a coordinator must be cleaned.
    pub claim_cleanup_reason: Option<GatewayServiceCoordinatorFailureReason>,
}

/// The supervisor's record of one job.
#[derive(Debug, Clone, PartialEq, Eq)]
pub struct GatewayServiceSupervisorJobRecord {
    /// Job identifier.
    pub job_id: u128,
    /// Exact gateway/revision request.
    pub request: GatewayServiceStartupRequest,
    /// Capacity reservation of the job.
    pub token: GatewayServiceCapacityToken,
    /// Last published status.
    pub status: GatewayServiceSupervisorJobStatus,
    /// Whether the reservation is still held.
    pub capacity_retained: bool,
    /// What the job left behind, once it ended.
    pub completion: Option<GatewayServiceJobTerminal>,
    /// Cleanup state kept for the next retry.
    pub cleanup_retry: Option<GatewayServiceCleanupRetryState>,
    /// Whether a cleanup retry is running.
    pub cleanup_in_flight: bool,
    /// Whether a claim resolution is running.
    pub claim_resolution_in_flight: bool,
}

/// Exact unresolved state returned when the supervisor is consumed.
#[derive(Debug, Clone, PartialEq, Eq)]
pub struct GatewayServiceSupervisorUnresolved {
    /// Job that still owns this state.
    pub job_id: u128,
    /// Exact gateway/revision request needed by later reconciliation.
    pub request: GatewayServiceStartupRequest,
    /// Exact capacity reservation retained for later reconciliation.
    pub capacity_token: GatewayServiceCapacityToken,
    /// Late durable claim, when one was returned.
    pub lease: Option<GatewayServiceInstanceLease>,
    /// Whether the claim operation ended without an authoritative result.
    pub claim_uncertain: bool,
    /// Coordinator failure retaining any VM or materialization responsibility.
    pub coordinator_failure: Option<GatewayServiceCoordinatorFailure>,
    /// Physical and materializer cleanup progress retained for retry.
    pub cleanup: Option<GatewayServiceCleanup>,
    /// Failure report still awaiting durable recording.
    pub pending_failure: Option<GatewayServiceFailure>,
    /// Original coordinator termination reason.
    pub original_reason: Option<GatewayServiceCoordinatorFailureReason>,
}

/// Result of consuming a supervisor after its jobs settled.
#[derive(Debug, Clone, PartialEq, Eq)]
pub struct GatewayServiceSupervisorShutdown {
    /// Jobs whose capacity and cleanup responsibility remain unresolved.
    pub unresolved: Vec<GatewayServiceSupervisorUnresolved>,
}

// ---------------------------------------------------------------------------
// Claim identity checks.

/// A claim has a complete identity, a positive fence, its deterministic VM
/// ID, and an expiry after its heartbeat.
pub open spec fn spec_valid_claim_identity(lease: GatewayServiceInstanceLease) -> bool {
    &&& lease.identity.spec_complete()
    &&& lease.fencing_token > 0
    &&& lease.vm_id@ == spec_service_vm_id(lease.identity.instance_id)
    &&& lease.lease_expires_at_nanos > lease.heartbeat_at_nanos
}

/// Returns whether a claim is well formed.
pub fn valid_claim_identity(lease: &GatewayServiceInstanceLease) -> (valid: bool)
    ensures
        valid == spec_valid_claim_identity(*lease),
{
    if !lease.identity.is_complete() || lease.fencing_token <= 0 {
        return false;
    }
    let expected = service_vm_id(lease.identity.instance_id);
    text_eq(lease.vm_id.as_str(), expected.as_str()) && lease.lease_expires_at_nanos > lease.heartbeat_at_nanos
}

/// Two leases are the same claim: identity, VM, owner and fence.
pub open spec fn spec_same_claim(left: GatewayServiceInstanceLease, right: GatewayServiceInstanceLease) -> bool {
    &&& left.identity == right.identity
    &&& left.vm_id@ == right.vm_id@
    &&& left.owner_host_id@ == right.owner_host_id@
    &&& left.owner_uuid == right.owner_uuid
    &&& left.fencing_token == right.fencing_token
}

/// Returns whether two leases are the same claim.
pub fn same_claim(left: &GatewayServiceInstanceLease, right: &GatewayServiceInstanceLease) -> (same: bool)
    ensures
        same == spec_same_claim(*left, *right),
{
    left.identity == right.identity && text_eq(left.vm_id.as_str(), right.vm_id.as_str())
        && text_eq(left.owner_host_id.as_str(), right.owner_host_id.as_str()) && left.owner_uuid == right.owner_uuid
        && left.fencing_token == right.fencing_token
}

/// A successor of an expired claim: both well formed, same identity and
/// VM, this owner, the very next fence, and `Stopping` (or `Cleaned` once
/// physical cleanup is confirmed) with an expiry after its heartbeat.
pub open spec fn spec_valid_expired_recovery_successor(
    previous: GatewayServiceInstanceLease,
    candidate: GatewayServiceInstanceLease,
    owner: GatewayServiceOwner,
    physical_confirmed: bool,
) -> bool {
    &&& previous.fencing_token < i64::MAX
    &&& spec_valid_claim_identity(previous)
    &&& spec_valid_claim_identity(candidate)
    &&& candidate.identity == previous.identity
    &&& candidate.vm_id@ == previous.vm_id@
    &&& candidate.owner_host_id@ == owner.host_id@
    &&& previous.owner_host_id@ == owner.host_id@
    &&& candidate.owner_uuid == owner.owner_uuid
    &&& candidate.fencing_token == previous.fencing_token + 1
    &&& (candidate.state == GatewayServiceInstanceState::Stopping
        || (physical_confirmed && candidate.state == GatewayServiceInstanceState::Cleaned))
    &&& candidate.lease_expires_at_nanos > candidate.heartbeat_at_nanos
}

/// Returns whether a candidate is a valid successor of an expired claim.
pub fn valid_expired_recovery_successor(
    previous: &GatewayServiceInstanceLease,
    candidate: &GatewayServiceInstanceLease,
    owner: &GatewayServiceOwner,
    physical_confirmed: bool,
) -> (valid: bool)
    ensures
        valid == spec_valid_expired_recovery_successor(*previous, *candidate, *owner, physical_confirmed),
{
    let same_host = text_eq(candidate.owner_host_id.as_str(), owner.host_id.as_str())
        && text_eq(previous.owner_host_id.as_str(), owner.host_id.as_str());
    match previous.fencing_token.checked_add(1) {
        None => false,
        Some(next_fence) => {
            valid_claim_identity(previous) && valid_claim_identity(candidate) && candidate.identity == previous.identity
                && text_eq(candidate.vm_id.as_str(), previous.vm_id.as_str()) && same_host
                && candidate.owner_uuid == owner.owner_uuid && candidate.fencing_token == next_fence
                && (candidate.state == GatewayServiceInstanceState::Stopping
                    || (physical_confirmed && candidate.state == GatewayServiceInstanceState::Cleaned))
                && candidate.lease_expires_at_nanos > candidate.heartbeat_at_nanos
        },
    }
}

/// Maps an ownership error met during expired-claim recovery.
pub fn map_recovery_ownership_error(error: GatewayServiceOwnershipError) -> (mapped: GatewayServiceCleanupDriverError)
    ensures
        mapped == spec_map_ownership_error(error),
{
    map_ownership_error(error)
}

/// A recovered candidate may be adopted: a valid successor, or — once
/// physical cleanup is confirmed — the very same claim already cleaned.
pub open spec fn spec_recovered_candidate_valid(
    previous: GatewayServiceInstanceLease,
    candidate: GatewayServiceInstanceLease,
    owner: GatewayServiceOwner,
    physical_confirmed: bool,
) -> bool {
    ||| spec_valid_expired_recovery_successor(previous, candidate, owner, physical_confirmed)
    ||| (spec_valid_claim_identity(previous) && spec_valid_claim_identity(candidate) && physical_confirmed
        && candidate.state == GatewayServiceInstanceState::Cleaned && spec_same_claim(candidate, previous))
}

/// Decides whether a recovered candidate may be adopted.
pub fn recovered_candidate(
    previous: &GatewayServiceInstanceLease,
    candidate: GatewayServiceInstanceLease,
    owner: &GatewayServiceOwner,
    physical_confirmed: bool,
) -> (adopted: Result<GatewayServiceInstanceLease, GatewayServiceCleanupDriverError>)
    ensures
        spec_recovered_candidate_valid(*previous, candidate, *owner, physical_confirmed) ==> adopted == Ok::<GatewayServiceInstanceLease, GatewayServiceCleanupDriverError>(candidate),
        !spec_recovered_candidate_valid(*previous, candidate, *owner, physical_confirmed) ==> adopted == Err::<GatewayServiceInstanceLease, GatewayServiceCleanupDriverError>(GatewayServiceCleanupDriverError::Stale),
{
    let successor = valid_expired_recovery_successor(previous, &candidate, owner, physical_confirmed);
    let cleaned = valid_claim_identity(previous) && valid_claim_identity(&candidate) && physical_confirmed
        && candidate.state == GatewayServiceInstanceState::Cleaned && same_claim(&candidate, previous);
    if successor || cleaned {
        Ok(candidate)
    } else {
        Err(GatewayServiceCleanupDriverError::Stale)
    }
}

/// What follows the exact takeover call of an expired claim.
#[derive(Debug, Clone, PartialEq, Eq)]
pub enum GatewayServiceTakeoverStep {
    /// Check this candidate.
    Candidate(GatewayServiceInstanceLease),
    /// The answer was ambiguous: resolve the exact instance instead.
    Resolve,
    /// Stop with this error.
    Fail(GatewayServiceCleanupDriverError),
}

/// Decides the takeover answer: a stale or unavailable answer, or a
/// timeout (`Err(())`), is resolved through the exact-instance read.
pub fn takeover_step(result: Result<Result<GatewayServiceInstanceLease, GatewayServiceOwnershipError>, ()>) -> (step: GatewayServiceTakeoverStep)
    ensures
        step == (match result {
            Ok(Ok(lease)) => GatewayServiceTakeoverStep::Candidate(lease),
            Ok(Err(GatewayServiceOwnershipError::StaleLease)) | Ok(Err(GatewayServiceOwnershipError::Unavailable)) | Err(()) =>
                GatewayServiceTakeoverStep::Resolve,
            Ok(Err(e)) => GatewayServiceTakeoverStep::Fail(spec_map_ownership_error(e)),
        }),
{
    match result {
        Ok(Ok(lease)) => GatewayServiceTakeoverStep::Candidate(lease),
        Ok(Err(GatewayServiceOwnershipError::StaleLease)) | Ok(Err(GatewayServiceOwnershipError::Unavailable)) | Err(()) =>
            GatewayServiceTakeoverStep::Resolve,
        Ok(Err(e)) => GatewayServiceTakeoverStep::Fail(map_recovery_ownership_error(e)),
    }
}

/// Decides the exact-instance read after an ambiguous takeover: a timeout
/// (`Err(())`) or an absent row is unavailable.
pub fn resolved_candidate(result: Result<Result<Option<GatewayServiceInstanceLease>, GatewayServiceOwnershipError>, ()>) -> (candidate: Result<GatewayServiceInstanceLease, GatewayServiceCleanupDriverError>)
    ensures
        candidate == (match result {
            Err(()) => Err(GatewayServiceCleanupDriverError::Unavailable),
            Ok(Err(e)) => Err(spec_map_ownership_error(e)),
            Ok(Ok(None)) => Err(GatewayServiceCleanupDriverError::Unavailable),
            Ok(Ok(Some(lease))) => Ok(lease),
        }),
{
    match result {
        Err(()) => Err(GatewayServiceCleanupDriverError::Unavailable),
        Ok(Err(e)) => Err(map_recovery_ownership_error(e)),
        Ok(Ok(None)) => Err(GatewayServiceCleanupDriverError::Unavailable),
        Ok(Ok(Some(lease))) => Ok(lease),
    }
}

/// What a cleanup retry does next.
#[derive(Debug, Clone, Copy, PartialEq, Eq)]
pub enum GatewayServiceRetryStep {
    /// The retry ended with this result.
    Done(Result<(), GatewayServiceCleanupDriverError>),
    /// Renew the claim and prepare `Stopping`.
    Renew,
    /// Recover the expired claim through the exact-instance barrier.
    Recover,
    /// Run the monitored cleanup attempt.
    Attempt,
}

/// Decides a retry after the read-only confirmation: a confirmed cleanup is
/// done; an unconfirmed or unavailable one renews; a stale one recovers
/// when a recovery port is present.
pub fn retry_after_confirmation(confirmed: Result<bool, GatewayServiceCleanupDriverError>, with_recovery: bool) -> (step: GatewayServiceRetryStep)
    ensures
        step == (match confirmed {
            Ok(true) => GatewayServiceRetryStep::Done(Ok(())),
            Ok(false) | Err(GatewayServiceCleanupDriverError::Unavailable) => GatewayServiceRetryStep::Renew,
            Err(GatewayServiceCleanupDriverError::Stale) => if with_recovery {
                GatewayServiceRetryStep::Recover
            } else {
                GatewayServiceRetryStep::Done(Err(GatewayServiceCleanupDriverError::Stale))
            },
            Err(e) => GatewayServiceRetryStep::Done(Err(e)),
        }),
{
    match confirmed {
        Ok(true) => GatewayServiceRetryStep::Done(Ok(())),
        Ok(false) | Err(GatewayServiceCleanupDriverError::Unavailable) => GatewayServiceRetryStep::Renew,
        Err(GatewayServiceCleanupDriverError::Stale) => {
            if with_recovery {
                GatewayServiceRetryStep::Recover
            } else {
                GatewayServiceRetryStep::Done(Err(GatewayServiceCleanupDriverError::Stale))
            }
        },
        Err(e) => GatewayServiceRetryStep::Done(Err(e)),
    }
}

/// Decides a retry after renewal: a renewed claim runs the attempt; a stale
/// one recovers when a recovery port is present.
pub fn retry_after_renewal(renewal: Result<(), GatewayServiceCleanupDriverError>, with_recovery: bool) -> (step: GatewayServiceRetryStep)
    ensures
        step == (match renewal {
            Ok(()) => GatewayServiceRetryStep::Attempt,
            Err(GatewayServiceCleanupDriverError::Stale) => if with_recovery {
                GatewayServiceRetryStep::Recover
            } else {
                GatewayServiceRetryStep::Done(Err(GatewayServiceCleanupDriverError::Stale))
            },
            Err(e) => GatewayServiceRetryStep::Done(Err(e)),
        }),
{
    match renewal {
        Ok(()) => GatewayServiceRetryStep::Attempt,
        Err(GatewayServiceCleanupDriverError::Stale) => {
            if with_recovery {
                GatewayServiceRetryStep::Recover
            } else {
                GatewayServiceRetryStep::Done(Err(GatewayServiceCleanupDriverError::Stale))
            }
        },
        Err(e) => GatewayServiceRetryStep::Done(Err(e)),
    }
}

/// A retry attempt succeeds only when cleanup is confirmed; a pending
/// attempt is reported unavailable.
pub fn retry_attempt_result(attempt: Result<GatewayServiceCleanupDriverOutcome, GatewayServiceCleanupDriverError>) -> (result: Result<(), GatewayServiceCleanupDriverError>)
    ensures
        result == (match attempt {
            Ok(GatewayServiceCleanupDriverOutcome::Cleaned) => Ok(()),
            Ok(GatewayServiceCleanupDriverOutcome::Pending { .. }) => Err(GatewayServiceCleanupDriverError::Unavailable),
            Err(e) => Err(e),
        }),
{
    match attempt {
        Ok(GatewayServiceCleanupDriverOutcome::Cleaned) => Ok(()),
        Ok(GatewayServiceCleanupDriverOutcome::Pending { .. }) => Err(GatewayServiceCleanupDriverError::Unavailable),
        Err(e) => Err(e),
    }
}

/// Decides a recovered claim that is already `Cleaned`: it is done only when
/// physical cleanup is confirmed and the read-only check confirms the row.
pub fn recovered_cleaned_result(physical_confirmed: bool, confirmed: Result<bool, GatewayServiceCleanupDriverError>) -> (result: Result<(), GatewayServiceCleanupDriverError>)
    ensures
        result == (if !physical_confirmed {
            Err(GatewayServiceCleanupDriverError::Unavailable)
        } else {
            match confirmed {
                Ok(true) => Ok(()),
                Ok(false) => Err(GatewayServiceCleanupDriverError::Unavailable),
                Err(e) => Err(e),
            }
        }),
{
    if !physical_confirmed {
        return Err(GatewayServiceCleanupDriverError::Unavailable);
    }
    match confirmed {
        Ok(true) => Ok(()),
        Ok(false) => Err(GatewayServiceCleanupDriverError::Unavailable),
        Err(e) => Err(e),
    }
}

/// The coordinator failure a cleanup retry state stands for.
pub open spec fn spec_failure_from_retry(state: GatewayServiceCleanupRetryState) -> GatewayServiceCoordinatorFailure {
    GatewayServiceCoordinatorFailure {
        identity: state.cleanup.spec_identity(),
        lease: state.lease,
        reason: match state.reason {
            Some(r) => r,
            None => GatewayServiceCoordinatorFailureReason::Ownership,
        },
        vm: None,
        materialization_owned: !state.cleanup.spec_materializer_cleanup_confirmed(),
        physical_cleanup_complete: state.cleanup.spec_vm_teardown_confirmed()
            && state.cleanup.spec_materializer_cleanup_confirmed(),
        durable_cleanup_complete: false,
        pending_failure: state.pending_failure,
    }
}

/// Returns the coordinator failure a cleanup retry state stands for; its
/// retained VM ID is carried as the failure's VM.
pub fn failure_from_retry(state: &GatewayServiceCleanupRetryState) -> (failure: GatewayServiceCoordinatorFailure)
    requires
        state.cleanup.wf(),
    ensures
        spec_failure_matches_retry(failure, *state),
{
    GatewayServiceCoordinatorFailure {
        identity: state.cleanup.identity(),
        lease: copy_lease(&state.lease),
        reason: match state.reason {
            Some(r) => r,
            None => GatewayServiceCoordinatorFailureReason::Ownership,
        },
        vm: state.cleanup.retained_vm(),
        materialization_owned: !state.cleanup.materializer_cleanup_confirmed(),
        physical_cleanup_complete: state.cleanup.vm_teardown_confirmed() && state.cleanup.materializer_cleanup_confirmed(),
        durable_cleanup_complete: false,
        pending_failure: state.pending_failure,
    }
}

// ---------------------------------------------------------------------------
// Claim resolution.

/// What the serialized claim barrier found for a job.
#[derive(Debug, Clone, PartialEq, Eq)]
pub enum GatewayServiceClaimResolution {
    /// No claim exists: the reservation may be released.
    Absent,
    /// The claim is still this owner's: clean it up.
    Owned(GatewayServiceCleanupRetryState),
    /// The claim is foreign, expired, dead or unexpected: keep everything.
    Retained(Option<GatewayServiceInstanceLease>),
}

/// Whether a resolved claim is this owner's live, well-formed claim for
/// the request, and the same claim as any known lease (the clock aside).
pub open spec fn spec_claim_owned_untimed(
    request: GatewayServiceStartupRequest,
    known_lease: Option<GatewayServiceInstanceLease>,
    lease: GatewayServiceInstanceLease,
    owner: GatewayServiceOwner,
) -> bool {
    &&& spec_valid_claim_identity(lease)
    &&& lease.identity.gateway_id == request.gateway_id
    &&& lease.identity.revision_id == request.revision_id
    &&& lease.owner_host_id@ == owner.host_id@
    &&& lease.owner_uuid == owner.owner_uuid
    &&& lease.state.spec_is_live()
    &&& known_lease matches Some(known) ==> spec_same_claim(known, lease)
}

/// Whether a resolved claim is still owned at time `now_nanos`: owned and
/// not yet expired.
pub open spec fn spec_claim_still_owned(
    request: GatewayServiceStartupRequest,
    known_lease: Option<GatewayServiceInstanceLease>,
    lease: GatewayServiceInstanceLease,
    owner: GatewayServiceOwner,
    now_nanos: i128,
) -> bool {
    spec_claim_owned_untimed(request, known_lease, lease, owner) && lease.lease_expires_at_nanos > now_nanos
}

/// Decides a resolved claim at a given time: an owned claim gets fresh
/// cleanup state (with no VM handle), anything else is retained as seen.
pub fn resolve_claim_result_at(
    request: GatewayServiceStartupRequest,
    known_lease: &Option<GatewayServiceInstanceLease>,
    reason: Option<GatewayServiceCoordinatorFailureReason>,
    lease: GatewayServiceInstanceLease,
    owner: &GatewayServiceOwner,
    shutdown_timeout_nanos: u128,
    now_nanos: i128,
) -> (result: Result<GatewayServiceClaimResolution, GatewayServiceSupervisorError>)
    ensures
        !spec_claim_still_owned(request, *known_lease, lease, *owner, now_nanos)
            ==> result == Ok::<GatewayServiceClaimResolution, GatewayServiceSupervisorError>(GatewayServiceClaimResolution::Retained(Some(lease))),
        spec_claim_still_owned(request, *known_lease, lease, *owner, now_nanos) ==> {
            if spec_cleanup_input_valid(lease.identity, None, shutdown_timeout_nanos) {
                result matches Ok(GatewayServiceClaimResolution::Owned(state)) && {
                    &&& state.lease == lease
                    &&& state.pending_failure is None
                    &&& state.reason == reason
                    &&& state.cleanup.wf()
                    &&& state.cleanup.spec_identity() == lease.identity
                    &&& state.cleanup.spec_retained_vm_id() is None
                    &&& !state.cleanup.spec_vm_teardown_confirmed()
                    &&& !state.cleanup.spec_materializer_cleanup_confirmed()
                }
            } else {
                result == Err::<GatewayServiceClaimResolution, GatewayServiceSupervisorError>(GatewayServiceSupervisorError::InvalidInput)
            }
        },
{
    if !valid_claim_identity(&lease) || lease.identity.gateway_id != request.gateway_id
        || lease.identity.revision_id != request.revision_id
        || !text_eq(lease.owner_host_id.as_str(), owner.host_id.as_str()) || lease.owner_uuid != owner.owner_uuid
        || lease.lease_expires_at_nanos <= now_nanos || !lease.state.is_live() {
        return Ok(GatewayServiceClaimResolution::Retained(Some(lease)));
    }
    if let Some(known) = known_lease {
        if !same_claim(known, &lease) {
            return Ok(GatewayServiceClaimResolution::Retained(Some(lease)));
        }
    }
    match GatewayServiceCleanup::new(lease.identity, None, shutdown_timeout_nanos) {
        Ok(cleanup) => Ok(GatewayServiceClaimResolution::Owned(GatewayServiceCleanupRetryState {
            cleanup,
            lease,
            pending_failure: None,
            reason,
        })),
        Err(_) => Err(GatewayServiceSupervisorError::InvalidInput),
    }
}

/// Decides a resolved claim now, reading the wall clock for the expiry
/// check.  Whatever the clock reads, a claim that is not this owner's live
/// claim is retained as seen, and an owned claim gets fresh cleanup state.
pub fn resolve_claim_result(
    request: GatewayServiceStartupRequest,
    known_lease: &Option<GatewayServiceInstanceLease>,
    reason: Option<GatewayServiceCoordinatorFailureReason>,
    lease: GatewayServiceInstanceLease,
    owner: &GatewayServiceOwner,
    shutdown_timeout_nanos: u128,
) -> (result: Result<GatewayServiceClaimResolution, GatewayServiceSupervisorError>)
    ensures
        !spec_claim_owned_untimed(request, *known_lease, lease, *owner)
            ==> result == Ok::<GatewayServiceClaimResolution, GatewayServiceSupervisorError>(GatewayServiceClaimResolution::Retained(Some(lease))),
        result matches Ok(GatewayServiceClaimResolution::Retained(seen)) ==> seen == Some(lease),
        result matches Ok(GatewayServiceClaimResolution::Owned(state)) ==> {
            &&& spec_claim_owned_untimed(request, *known_lease, lease, *owner)
            &&& state.lease == lease
            &&& state.reason == reason
            &&& state.pending_failure is None
            &&& state.cleanup.wf()
            &&& state.cleanup.spec_identity() == lease.identity
            &&& !state.cleanup.spec_vm_teardown_confirmed()
            &&& !state.cleanup.spec_materializer_cleanup_confirmed()
        },
        result is Err ==> result == Err::<GatewayServiceClaimResolution, GatewayServiceSupervisorError>(GatewayServiceSupervisorError::InvalidInput)
            && !spec_cleanup_input_valid(lease.identity, None, shutdown_timeout_nanos),
{
    let now = now_unix_nanos();
    resolve_claim_result_at(request, known_lease, reason, lease, owner, shutdown_timeout_nanos, now)
}

// ---------------------------------------------------------------------------
// Job decisions.

/// How a startup job ends: its status, what it retains, and whether its
/// reservation may be released.
#[derive(Debug, Clone, PartialEq, Eq)]
pub struct GatewayServiceJobTerminalPlan {
    /// Terminal public status.
    pub status: GatewayServiceSupervisorJobStatus,
    /// Durable claim the job holds, if any.
    pub lease: Option<GatewayServiceInstanceLease>,
    /// Whether the startup allowance was already released.
    pub startup_finished: bool,
    /// Whether cleanup is complete so the reservation may be released.
    pub release_capacity: bool,
    /// Coordinator failure retaining cleanup responsibility.
    pub coordinator_failure: Option<GatewayServiceCoordinatorFailure>,
    /// Why a claim that never reached a coordinator must be cleaned.
    pub claim_cleanup_reason: Option<GatewayServiceCoordinatorFailureReason>,
}

/// A plan that ends a job before or without a coordinator.
pub open spec fn spec_plan(
    status: GatewayServiceSupervisorJobStatus,
    lease: Option<GatewayServiceInstanceLease>,
    release_capacity: bool,
    claim_cleanup_reason: Option<GatewayServiceCoordinatorFailureReason>,
) -> GatewayServiceJobTerminalPlan {
    GatewayServiceJobTerminalPlan {
        status,
        lease,
        startup_finished: false,
        release_capacity,
        coordinator_failure: None,
        claim_cleanup_reason,
    }
}

/// Decides a job before its claim: a cancelled or expired job ends at once
/// and releases its reservation.
pub fn job_before_claim(cancelled: bool, deadline_passed: bool) -> (plan: Option<GatewayServiceJobTerminalPlan>)
    ensures
        plan == (if cancelled {
            Some(spec_plan(GatewayServiceSupervisorJobStatus::Cancelled, None, true, None))
        } else if deadline_passed {
            Some(spec_plan(GatewayServiceSupervisorJobStatus::Failed, None, true, None))
        } else {
            None
        }),
{
    if !cancelled && !deadline_passed {
        return None;
    }
    let status = if cancelled { GatewayServiceSupervisorJobStatus::Cancelled } else { GatewayServiceSupervisorJobStatus::Failed };
    Some(GatewayServiceJobTerminalPlan {
        status,
        lease: None,
        startup_finished: false,
        release_capacity: true,
        coordinator_failure: None,
        claim_cleanup_reason: None,
    })
}

/// Decides the claim's answer: a definite refusal releases the reservation;
/// an unavailable answer may have committed and keeps it as uncertain; a
/// claim for another gateway or revision is kept as a failure.
pub fn job_after_claim(
    request: GatewayServiceStartupRequest,
    claim: Result<GatewayServiceInstanceLease, GatewayServiceOwnershipError>,
) -> (next: Result<GatewayServiceInstanceLease, GatewayServiceJobTerminalPlan>)
    ensures
        next == (match claim {
            Err(GatewayServiceOwnershipError::Unavailable) =>
                Err(spec_plan(GatewayServiceSupervisorJobStatus::Uncertain, None, false, None)),
            Err(_) => Err(spec_plan(GatewayServiceSupervisorJobStatus::Failed, None, true, None)),
            Ok(lease) => if lease.identity.gateway_id != request.gateway_id || lease.identity.revision_id != request.revision_id {
                Err(spec_plan(GatewayServiceSupervisorJobStatus::Failed, Some(lease), false, None))
            } else {
                Ok(lease)
            },
        }),
{
    match claim {
        Err(GatewayServiceOwnershipError::Unavailable) => Err(GatewayServiceJobTerminalPlan {
            status: GatewayServiceSupervisorJobStatus::Uncertain,
            lease: None,
            startup_finished: false,
            release_capacity: false,
            coordinator_failure: None,
            claim_cleanup_reason: None,
        }),
        Err(_) => Err(GatewayServiceJobTerminalPlan {
            status: GatewayServiceSupervisorJobStatus::Failed,
            lease: None,
            startup_finished: false,
            release_capacity: true,
            coordinator_failure: None,
            claim_cleanup_reason: None,
        }),
        Ok(lease) => {
            if lease.identity.gateway_id != request.gateway_id || lease.identity.revision_id != request.revision_id {
                Err(GatewayServiceJobTerminalPlan {
                    status: GatewayServiceSupervisorJobStatus::Failed,
                    lease: Some(lease),
                    startup_finished: false,
                    release_capacity: false,
                    coordinator_failure: None,
                    claim_cleanup_reason: None,
                })
            } else {
                Ok(lease)
            }
        },
    }
}

/// Decides a claimed job before its coordinator starts: a cancelled or
/// expired job keeps the claim and records why it must be cleaned.
pub fn job_before_coordinator(
    lease: GatewayServiceInstanceLease,
    cancelled: bool,
    deadline_passed: bool,
) -> (plan: Option<GatewayServiceJobTerminalPlan>)
    ensures
        plan == (if cancelled || deadline_passed {
            Some(spec_plan(GatewayServiceSupervisorJobStatus::Cancelled, Some(lease), false, Some(if cancelled {
                GatewayServiceCoordinatorFailureReason::Cancelled
            } else {
                GatewayServiceCoordinatorFailureReason::StartupDeadline
            })))
        } else {
            None
        }),
{
    if !cancelled && !deadline_passed {
        return None;
    }
    let reason = if cancelled {
        GatewayServiceCoordinatorFailureReason::Cancelled
    } else {
        GatewayServiceCoordinatorFailureReason::StartupDeadline
    };
    Some(GatewayServiceJobTerminalPlan {
        status: GatewayServiceSupervisorJobStatus::Cancelled,
        lease: Some(lease),
        startup_finished: false,
        release_capacity: false,
        coordinator_failure: None,
        claim_cleanup_reason: Some(reason),
    })
}

/// Decides a job whose coordinator could not be constructed: the claim is
/// kept as a failure.
pub fn job_coordinator_rejected(lease: GatewayServiceInstanceLease) -> (plan: GatewayServiceJobTerminalPlan)
    ensures
        plan == spec_plan(GatewayServiceSupervisorJobStatus::Failed, Some(lease), false, None),
{
    GatewayServiceJobTerminalPlan {
        status: GatewayServiceSupervisorJobStatus::Failed,
        lease: Some(lease),
        startup_finished: false,
        release_capacity: false,
        coordinator_failure: None,
        claim_cleanup_reason: None,
    }
}

/// Decides a coordinator status change: the first `Ready` releases the
/// startup allowance and publishes `Ready`; the startup phases publish
/// `Starting`; anything else publishes nothing.
pub fn job_status_update(
    current: GatewayServiceCoordinatorStatus,
    startup_finished: bool,
) -> (update: (bool, Option<GatewayServiceSupervisorJobStatus>))
    ensures
        update == (if current == GatewayServiceCoordinatorStatus::Ready {
            if !startup_finished {
                (true, Some(GatewayServiceSupervisorJobStatus::Ready))
            } else {
                (false, None)
            }
        } else if current == GatewayServiceCoordinatorStatus::Starting || current == GatewayServiceCoordinatorStatus::Preparing
            || current == GatewayServiceCoordinatorStatus::Probing {
            (false, Some(GatewayServiceSupervisorJobStatus::Starting))
        } else {
            (false, None)
        }),
{
    if current == GatewayServiceCoordinatorStatus::Ready {
        if !startup_finished {
            (true, Some(GatewayServiceSupervisorJobStatus::Ready))
        } else {
            (false, None)
        }
    } else if current == GatewayServiceCoordinatorStatus::Starting || current == GatewayServiceCoordinatorStatus::Preparing
        || current == GatewayServiceCoordinatorStatus::Probing {
        (false, Some(GatewayServiceSupervisorJobStatus::Starting))
    } else {
        (false, None)
    }
}

/// Decides how a job ends from its coordinator's result: a clean stop
/// settles and releases; a failure releases only when both physical and
/// durable cleanup are confirmed.
pub fn job_after_run(
    result: Result<(), GatewayServiceCoordinatorFailure>,
    cancelled: bool,
    startup_finished: bool,
) -> (plan: GatewayServiceJobTerminalPlan)
    ensures
        plan == (match result {
            Ok(()) => GatewayServiceJobTerminalPlan {
                status: GatewayServiceSupervisorJobStatus::Settled,
                lease: None,
                startup_finished,
                release_capacity: true,
                coordinator_failure: None,
                claim_cleanup_reason: None,
            },
            Err(f) => GatewayServiceJobTerminalPlan {
                status: if cancelled { GatewayServiceSupervisorJobStatus::Cancelled } else { GatewayServiceSupervisorJobStatus::Failed },
                lease: Some(f.lease),
                startup_finished,
                release_capacity: f.physical_cleanup_complete && f.durable_cleanup_complete,
                coordinator_failure: Some(f),
                claim_cleanup_reason: None,
            },
        }),
{
    match result {
        Ok(()) => GatewayServiceJobTerminalPlan {
            status: GatewayServiceSupervisorJobStatus::Settled,
            lease: None,
            startup_finished,
            release_capacity: true,
            coordinator_failure: None,
            claim_cleanup_reason: None,
        },
        Err(f) => {
            let released = f.physical_cleanup_complete && f.durable_cleanup_complete;
            let status = if cancelled { GatewayServiceSupervisorJobStatus::Cancelled } else { GatewayServiceSupervisorJobStatus::Failed };
            let lease = copy_lease(&f.lease);
            GatewayServiceJobTerminalPlan {
                status,
                lease: Some(lease),
                startup_finished,
                release_capacity: released,
                coordinator_failure: Some(f),
                claim_cleanup_reason: None,
            }
        },
    }
}

// ---------------------------------------------------------------------------
// Bookkeeping.

/// Capacity after releasing a token's startup allowance, if it has one.
pub open spec fn spec_finish_effect(s: Seq<CapacityReservation>, token: u128) -> Seq<CapacityReservation> {
    if exists|i: int| 0 <= i < s.len() && s[i].token == token && !s[i].startup_complete {
        let i = choose|i: int| 0 <= i < s.len() && s[i].token == token && !s[i].startup_complete;
        s.update(i, CapacityReservation { startup_complete: true, ..s[i] })
    } else {
        s
    }
}

/// Capacity after releasing a token's reservation, if it has one.
pub open spec fn spec_complete_effect(s: Seq<CapacityReservation>, token: u128) -> Seq<CapacityReservation> {
    if spec_has_token(s, token) {
        s.remove(choose|i: int| 0 <= i < s.len() && s[i].token == token)
    } else {
        s
    }
}

/// A record's retained cleanup state, if any, is well formed.
pub open spec fn spec_retry_wf(record: GatewayServiceSupervisorJobRecord) -> bool {
    match record.cleanup_retry {
        Some(st) => st.cleanup.wf(),
        None => true,
    }
}

/// A failure report stands for a cleanup retry state: the state's fields,
/// with the retained VM's ID as its VM.
pub open spec fn spec_failure_matches_retry(f: GatewayServiceCoordinatorFailure, state: GatewayServiceCleanupRetryState) -> bool {
    &&& f == (GatewayServiceCoordinatorFailure { vm: f.vm, ..spec_failure_from_retry(state) })
    &&& f.vm matches Some(id) ==> state.cleanup.spec_retained_vm_id() == Some(id@)
    &&& f.vm is None ==> state.cleanup.spec_retained_vm_id() is None
}

/// A job's record after a retry that did not release its reservation: it
/// keeps the state for the next retry and reports failure; a failed retry
/// also becomes the job's coordinator failure on its latest lease.
pub open spec fn spec_record_after_cleanup(
    r: GatewayServiceSupervisorJobRecord,
    state: GatewayServiceCleanupRetryState,
    succeeded: bool,
    after: GatewayServiceSupervisorJobRecord,
) -> bool {
    &&& after.job_id == r.job_id
    &&& after.request == r.request
    &&& after.token == r.token
    &&& after.claim_resolution_in_flight == r.claim_resolution_in_flight
    &&& after.status == GatewayServiceSupervisorJobStatus::Failed
    &&& after.capacity_retained
    &&& !after.cleanup_in_flight
    &&& after.cleanup_retry == Some(state)
    &&& if succeeded {
        after.completion == r.completion
    } else {
        match r.completion {
            None => after.completion is None,
            Some(t) => after.completion matches Some(t2) && {
                &&& t2.claim_uncertain == t.claim_uncertain
                &&& t2.claim_cleanup_reason == t.claim_cleanup_reason
                &&& t2.lease == Some(state.lease)
                &&& t2.coordinator_failure matches Some(f) && spec_failure_matches_retry(f, state)
            },
        }
    }
}

/// Whether a job with retained capacity already serves the request's
/// exact gateway and revision.
pub open spec fn spec_duplicate_request(records: Seq<GatewayServiceSupervisorJobRecord>, request: GatewayServiceStartupRequest) -> bool {
    exists|i: int| 0 <= i < records.len() && #[trigger] records[i].request.gateway_id == request.gateway_id
        && records[i].request.revision_id == request.revision_id && records[i].capacity_retained
}

/// A job's record after its claim resolved as still owned: the cleanup
/// retry starts now, and the claim becomes the job's coordinator failure.
pub open spec fn spec_record_after_owned_claim(
    r: GatewayServiceSupervisorJobRecord,
    st: GatewayServiceCleanupRetryState,
    after: GatewayServiceSupervisorJobRecord,
) -> bool {
    &&& after.job_id == r.job_id
    &&& after.request == r.request
    &&& after.token == r.token
    &&& after.capacity_retained == r.capacity_retained
    &&& !after.claim_resolution_in_flight
    &&& after.cleanup_in_flight
    &&& after.cleanup_retry is None
    &&& after.status == GatewayServiceSupervisorJobStatus::CleanupPending
    &&& match r.completion {
        None => after.completion is None,
        Some(t) => after.completion matches Some(t2) && {
            &&& !t2.claim_uncertain
            &&& t2.claim_cleanup_reason == t.claim_cleanup_reason
            &&& t2.lease == Some(st.lease)
            &&& t2.coordinator_failure matches Some(f) && spec_failure_matches_retry(f, st)
        },
    }
}

/// What shutdown hands back for one ended job that keeps its reservation.
pub open spec fn spec_unresolved_of(r: GatewayServiceSupervisorJobRecord) -> GatewayServiceSupervisorUnresolved {
    let t = r.completion->Some_0;
    GatewayServiceSupervisorUnresolved {
        job_id: r.job_id,
        request: r.request,
        capacity_token: r.token,
        lease: t.lease,
        claim_uncertain: t.claim_uncertain,
        coordinator_failure: t.coordinator_failure,
        cleanup: match r.cleanup_retry { Some(st) => Some(st.cleanup), None => None },
        pending_failure: match r.cleanup_retry { Some(st) => st.pending_failure, None => None },
        original_reason: match r.cleanup_retry {
            Some(st) => match st.reason { Some(reason) => Some(reason), None => t.claim_cleanup_reason },
            None => t.claim_cleanup_reason,
        },
    }
}

/// Everything shutdown hands back, in record order.
pub open spec fn spec_unresolved(records: Seq<GatewayServiceSupervisorJobRecord>) -> Seq<GatewayServiceSupervisorUnresolved>
    decreases records.len(),
{
    if records.len() == 0 {
        Seq::empty()
    } else {
        let rest = spec_unresolved(records.drop_last());
        let r = records.last();
        if r.capacity_retained && r.completion is Some {
            rest.push(spec_unresolved_of(r))
        } else {
            rest
        }
    }
}

fn unresolved_of(record: GatewayServiceSupervisorJobRecord) -> (u: GatewayServiceSupervisorUnresolved)
    requires
        record.completion is Some,
    ensures
        u == spec_unresolved_of(record),
{
    let GatewayServiceSupervisorJobRecord { job_id, request, token, completion, cleanup_retry, .. } = record;
    let t = match completion {
        Some(t) => t,
        None => {
            assert(false);
            return GatewayServiceSupervisorUnresolved {
                job_id,
                request,
                capacity_token: token,
                lease: None,
                claim_uncertain: false,
                coordinator_failure: None,
                cleanup: None,
                pending_failure: None,
                original_reason: None,
            };
        },
    };
    let (cleanup, pending_failure, retry_reason) = match cleanup_retry {
        Some(st) => (Some(st.cleanup), st.pending_failure, st.reason),
        None => (None, None, None),
    };
    let original_reason = match retry_reason {
        Some(reason) => Some(reason),
        None => t.claim_cleanup_reason,
    };
    GatewayServiceSupervisorUnresolved {
        job_id,
        request,
        capacity_token: token,
        lease: t.lease,
        claim_uncertain: t.claim_uncertain,
        coordinator_failure: t.coordinator_failure,
        cleanup,
        pending_failure,
        original_reason,
    }
}

/// Job identifiers are distinct.
pub open spec fn spec_unique_jobs(records: Seq<GatewayServiceSupervisorJobRecord>) -> bool {
    forall|i: int, j: int| 0 <= i < records.len() && 0 <= j < records.len() && i != j ==> records[i].job_id != records[j].job_id
}

/// Whether a job has a record.
pub open spec fn spec_has_job(records: Seq<GatewayServiceSupervisorJobRecord>, job_id: u128) -> bool {
    exists|i: int| 0 <= i < records.len() && records[i].job_id == job_id
}

/// The position of a job's record.
pub open spec fn spec_job_index(records: Seq<GatewayServiceSupervisorJobRecord>, job_id: u128) -> int {
    choose|i: int| 0 <= i < records.len() && records[i].job_id == job_id
}

/// A fresh record for a started job.
pub open spec fn spec_new_record(job_id: u128, request: GatewayServiceStartupRequest, token: u128) -> GatewayServiceSupervisorJobRecord {
    GatewayServiceSupervisorJobRecord {
        job_id,
        request,
        token: GatewayServiceCapacityToken { id: token },
        status: GatewayServiceSupervisorJobStatus::Claiming,
        capacity_retained: true,
        completion: None,
        cleanup_retry: None,
        cleanup_in_flight: false,
        claim_resolution_in_flight: false,
    }
}

/// Records after inserting a record, replacing any with the same job.
pub open spec fn spec_upsert(records: Seq<GatewayServiceSupervisorJobRecord>, record: GatewayServiceSupervisorJobRecord) -> Seq<GatewayServiceSupervisorJobRecord> {
    if spec_has_job(records, record.job_id) {
        records.update(spec_job_index(records, record.job_id), record)
    } else {
        records.push(record)
    }
}

/// What a job's completion leaves in its record.
pub open spec fn spec_terminal_of(plan: GatewayServiceJobTerminalPlan) -> GatewayServiceJobTerminal {
    GatewayServiceJobTerminal {
        lease: plan.lease,
        claim_uncertain: plan.status == GatewayServiceSupervisorJobStatus::Uncertain,
        coordinator_failure: plan.coordinator_failure,
        claim_cleanup_reason: plan.claim_cleanup_reason,
    }
}

/// A claim resolution the parent must start.
#[derive(Debug, Clone, PartialEq, Eq)]
pub struct GatewayServiceClaimResolutionJob {
    /// Exact gateway/revision to resolve.
    pub request: GatewayServiceStartupRequest,
    /// Lease the job already knew, if any.
    pub known_lease: Option<GatewayServiceInstanceLease>,
    /// Why the claim must be cleaned, if known.
    pub reason: Option<GatewayServiceCoordinatorFailureReason>,
}

/// Parent-owned bounded set of concurrent startup jobs.
pub struct GatewayServiceSupervisor {
    owner: GatewayServiceOwner,
    policy: GatewayServiceSupervisorPolicy,
    service_authority: String,
    capacity: GatewayServiceCapacity,
    records: Vec<GatewayServiceSupervisorJobRecord>,
}

impl GatewayServiceSupervisor {
    /// The supervisor's invariant: valid owner and policy, well-formed
    /// capacity under that policy, distinct jobs, and well-formed retained
    /// cleanup state.
    pub closed spec fn wf(&self) -> bool {
        &&& self.owner.spec_valid()
        &&& self.policy.spec_valid()
        &&& self.capacity.wf()
        &&& self.capacity.spec_policy() == self.policy
        &&& spec_unique_jobs(self.records@)
        &&& forall|i: int| 0 <= i < self.records@.len() ==> spec_retry_wf(#[trigger] self.records@[i])
    }

    /// The job records.
    pub closed spec fn spec_records(&self) -> Seq<GatewayServiceSupervisorJobRecord> {
        self.records@
    }

    /// The live capacity reservations.
    pub closed spec fn spec_capacity(&self) -> Seq<CapacityReservation> {
        self.capacity@
    }

    /// The validated policy.
    pub closed spec fn spec_policy(&self) -> GatewayServiceSupervisorPolicy {
        self.policy
    }

    /// The daemon owner.
    pub closed spec fn spec_owner(&self) -> GatewayServiceOwner {
        self.owner
    }

    /// Creates a supervisor after validating the owner, policy and authority.
    pub fn new(owner: GatewayServiceOwner, policy: GatewayServiceSupervisorPolicy, service_authority: String) -> (result: Result<Self, GatewayServiceSupervisorError>)
        ensures
            result is Ok <==> owner.spec_valid() && policy.spec_valid() && service_authority@.len() > 0
                && http_authority_parses(service_authority@),
            result is Err ==> result == Err::<Self, GatewayServiceSupervisorError>(GatewayServiceSupervisorError::InvalidInput),
            result matches Ok(s) ==> s.wf() && s.spec_records().len() == 0 && s.spec_capacity().len() == 0
                && s.spec_policy() == policy && s.spec_owner() == owner,
    {
        if owner.validate().is_err() || policy.validate().is_err() {
            return Err(GatewayServiceSupervisorError::InvalidInput);
        }
        if service_authority.as_str().is_empty() || !authority_valid(service_authority.as_str()) {
            return Err(GatewayServiceSupervisorError::InvalidInput);
        }
        let capacity = match GatewayServiceCapacity::new(policy) {
            Ok(capacity) => capacity,
            Err(e) => return Err(GatewayServiceSupervisorError::Capacity(e)),
        };
        Ok(GatewayServiceSupervisor { owner, policy, service_authority, capacity, records: Vec::new() })
    }

    fn find_record(&self, job_id: u128) -> (index: Option<usize>)
        ensures
            index matches Some(i) ==> i < self.records@.len() && self.records@[i as int].job_id == job_id,
            index is None ==> !spec_has_job(self.records@, job_id),
    {
        let mut i: usize = 0;
        while i < self.records.len()
            invariant
                i <= self.records@.len(),
                forall|j: int| 0 <= j < i ==> self.records@[j].job_id != job_id,
            decreases self.records@.len() - i,
        {
            if self.records[i].job_id == job_id {
                return Some(i);
            }
            i += 1;
        }
        None
    }

    fn has_retained_request(&self, request: GatewayServiceStartupRequest) -> (found: bool)
        ensures
            found == spec_duplicate_request(self.records@, request),
    {
        let mut i: usize = 0;
        while i < self.records.len()
            invariant
                i <= self.records@.len(),
                forall|j: int| 0 <= j < i ==> !(#[trigger] self.records@[j].request.gateway_id == request.gateway_id
                    && self.records@[j].request.revision_id == request.revision_id && self.records@[j].capacity_retained),
            decreases self.records@.len() - i,
        {
            let r = &self.records[i];
            if r.request.gateway_id == request.gateway_id && r.request.revision_id == request.revision_id && r.capacity_retained {
                return true;
            }
            i += 1;
        }
        false
    }

    /// Starts one job after reserving capacity, before any durable claim.
    /// Returns the new job's identifier.
    pub fn start(&mut self, request: GatewayServiceStartupRequest) -> (result: Result<u128, GatewayServiceSupervisorError>)
        requires
            old(self).wf(),
        ensures
            final(self).wf(),
            final(self).spec_policy() == old(self).spec_policy(),
            final(self).spec_owner() == old(self).spec_owner(),
            ({
                let duplicate = spec_duplicate_request(old(self).spec_records(), request);
                if request.gateway_id == NIL_UUID || request.revision_id == NIL_UUID {
                    result == Err::<u128, GatewayServiceSupervisorError>(GatewayServiceSupervisorError::InvalidInput)
                        && final(self).spec_records() == old(self).spec_records()
                        && final(self).spec_capacity() == old(self).spec_capacity()
                } else if duplicate {
                    result == Err::<u128, GatewayServiceSupervisorError>(GatewayServiceSupervisorError::Duplicate)
                        && final(self).spec_records() == old(self).spec_records()
                        && final(self).spec_capacity() == old(self).spec_capacity()
                } else {
                    match spec_reserve_error(old(self).spec_capacity(), old(self).spec_policy(), request.gateway_id, request.revision_id) {
                        Some(e) => {
                            &&& result == Err::<u128, GatewayServiceSupervisorError>(
                                if e == GatewayServiceCapacityError::DuplicateRevision {
                                    GatewayServiceSupervisorError::Duplicate
                                } else {
                                    GatewayServiceSupervisorError::Capacity(e)
                                },
                            )
                            &&& final(self).spec_records() == old(self).spec_records()
                            &&& final(self).spec_capacity() == old(self).spec_capacity()
                        },
                        None => result matches Ok(job_id) && exists|token: u128| {
                            &&& !spec_has_token(old(self).spec_capacity(), token)
                            &&& final(self).spec_capacity() == old(self).spec_capacity().push(CapacityReservation {
                                token,
                                gateway_id: request.gateway_id,
                                revision_id: request.revision_id,
                                startup_complete: false,
                            })
                            &&& final(self).spec_records() == spec_upsert(old(self).spec_records(), spec_new_record(job_id, request, token))
                        },
                    }
                }
            }),
    {
        if request.gateway_id == NIL_UUID || request.revision_id == NIL_UUID {
            return Err(GatewayServiceSupervisorError::InvalidInput);
        }
        if self.has_retained_request(request) {
            return Err(GatewayServiceSupervisorError::Duplicate);
        }
        let token = match self.capacity.reserve(request.gateway_id, request.revision_id) {
            Ok(token) => token,
            Err(GatewayServiceCapacityError::DuplicateRevision) => return Err(GatewayServiceSupervisorError::Duplicate),
            Err(e) => return Err(GatewayServiceSupervisorError::Capacity(e)),
        };
        let id = random_uuid();
        let record = GatewayServiceSupervisorJobRecord {
            job_id: id,
            request,
            token,
            status: GatewayServiceSupervisorJobStatus::Claiming,
            capacity_retained: true,
            completion: None,
            cleanup_retry: None,
            cleanup_in_flight: false,
            claim_resolution_in_flight: false,
        };
        let ghost old_records = self.records@;
        match self.find_record(id) {
            Some(i) => {
                proof {
                    assert(spec_has_job(old_records, id));
                    let k = spec_job_index(old_records, id);
                    assert(k == i as int);
                }
                self.records.set(i, record);
            },
            None => {
                self.records.push(record);
            },
        }
        proof {
            assert forall|a: int, b: int| 0 <= a < self.records@.len() && 0 <= b < self.records@.len() && a != b
                implies self.records@[a].job_id != self.records@[b].job_id by {
                if a < old_records.len() && b < old_records.len() {
                } else {
                }
            }
        }
        Ok(id)
    }

    /// Releases a job's startup allowance when its coordinator first
    /// becomes ready, and publishes `Ready`.  Returns whether the allowance
    /// was released.
    pub fn startup_ready(&mut self, job_id: u128) -> (released: bool)
        requires
            old(self).wf(),
            spec_has_job(old(self).spec_records(), job_id),
        ensures
            final(self).wf(),
            final(self).spec_policy() == old(self).spec_policy(),
            final(self).spec_owner() == old(self).spec_owner(),
            ({
                let i = spec_job_index(old(self).spec_records(), job_id);
                let r = old(self).spec_records()[i];
                &&& final(self).spec_capacity() == spec_finish_effect(old(self).spec_capacity(), r.token.id)
                &&& released == (spec_finish_effect(old(self).spec_capacity(), r.token.id) != old(self).spec_capacity())
                &&& final(self).spec_records() == old(self).spec_records().update(i, GatewayServiceSupervisorJobRecord {
                    status: GatewayServiceSupervisorJobStatus::Ready,
                    ..r
                })
            }),
    {
        let i = match self.find_record(job_id) {
            Some(i) => i,
            None => {
                assert(false);
                return false;
            },
        };
        proof {
            let k = spec_job_index(self.records@, job_id);
            assert(k == i as int);
        }
        let token = self.records[i].token;
        let ghost before = self.capacity@;
        let released = self.capacity.finish_startup(token).is_ok();
        proof {
            lemma_finish_effect(before, self.capacity@, token.id, released);
        }
        let mut record = self.records.remove(i);
        record.status = GatewayServiceSupervisorJobStatus::Ready;
        self.records.insert(i, record);
        released
    }

    /// Publishes a job's status.
    pub fn set_status(&mut self, job_id: u128, status: GatewayServiceSupervisorJobStatus)
        requires
            old(self).wf(),
        ensures
            final(self).wf(),
            final(self).spec_policy() == old(self).spec_policy(),
            final(self).spec_owner() == old(self).spec_owner(),
            final(self).spec_capacity() == old(self).spec_capacity(),
            spec_has_job(old(self).spec_records(), job_id) ==> {
                let i = spec_job_index(old(self).spec_records(), job_id);
                final(self).spec_records() == old(self).spec_records().update(i, GatewayServiceSupervisorJobRecord {
                    status,
                    ..old(self).spec_records()[i]
                })
            },
            !spec_has_job(old(self).spec_records(), job_id) ==> final(self).spec_records() == old(self).spec_records(),
    {
        if let Some(i) = self.find_record(job_id) {
            proof {
                let k = spec_job_index(self.records@, job_id);
                assert(k == i as int);
            }
            let mut record = self.records.remove(i);
            record.status = status;
            self.records.insert(i, record);
        }
    }

    /// Records a finished startup job: the startup allowance is released if
    /// it was not yet, the reservation is released only when the plan says
    /// cleanup is complete, and a released job's record is dropped.
    pub fn finish_job(&mut self, job_id: u128, plan: GatewayServiceJobTerminalPlan) -> (event: GatewayServiceSupervisorEvent)
        requires
            old(self).wf(),
            spec_has_job(old(self).spec_records(), job_id),
        ensures
            final(self).wf(),
            final(self).spec_policy() == old(self).spec_policy(),
            final(self).spec_owner() == old(self).spec_owner(),
            ({
                let i = spec_job_index(old(self).spec_records(), job_id);
                let r = old(self).spec_records()[i];
                let finished = if plan.startup_finished {
                    old(self).spec_capacity()
                } else {
                    spec_finish_effect(old(self).spec_capacity(), r.token.id)
                };
                let released = plan.release_capacity && spec_has_token(finished, r.token.id);
                &&& final(self).spec_capacity() == (if plan.release_capacity { spec_complete_effect(finished, r.token.id) } else { finished })
                &&& event == (GatewayServiceSupervisorEvent { job_id, status: plan.status, capacity_released: released })
                &&& final(self).spec_records() == (if released {
                    old(self).spec_records().remove(i)
                } else {
                    old(self).spec_records().update(i, GatewayServiceSupervisorJobRecord {
                        status: plan.status,
                        capacity_retained: true,
                        completion: Some(spec_terminal_of(plan)),
                        ..r
                    })
                })
            }),
    {
        let i = match self.find_record(job_id) {
            Some(i) => i,
            None => {
                assert(false);
                return GatewayServiceSupervisorEvent { job_id, status: plan.status, capacity_released: false };
            },
        };
        proof {
            let k = spec_job_index(self.records@, job_id);
            assert(k == i as int);
        }
        let token = self.records[i].token;
        if !plan.startup_finished {
            let ghost before = self.capacity@;
            let ok = self.capacity.finish_startup(token).is_ok();
            proof {
                lemma_finish_effect(before, self.capacity@, token.id, ok);
            }
        }
        let ghost finished = self.capacity@;
        let released = if plan.release_capacity {
            let outcome = self.capacity.complete(token);
            let ok = outcome.is_ok();
            proof {
                lemma_complete_effect(finished, self.capacity@, token.id, ok);
            }
            ok
        } else {
            false
        };
        let status = plan.status;
        let terminal = GatewayServiceJobTerminal {
            lease: plan.lease,
            claim_uncertain: status == GatewayServiceSupervisorJobStatus::Uncertain,
            coordinator_failure: plan.coordinator_failure,
            claim_cleanup_reason: plan.claim_cleanup_reason,
        };
        let mut record = self.records.remove(i);
        if !released {
            record.status = status;
            record.capacity_retained = true;
            record.completion = Some(terminal);
            self.records.insert(i, record);
        }
        proof {
            let old_records = old(self).records@;
            assert forall|a: int, b: int| 0 <= a < self.records@.len() && 0 <= b < self.records@.len() && a != b
                implies self.records@[a].job_id != self.records@[b].job_id by {
                if released {
                    let a2 = if a < i { a } else { a + 1 };
                    let b2 = if b < i { b } else { b + 1 };
                    assert(self.records@[a] == old_records[a2] && self.records@[b] == old_records[b2]);
                } else {
                    assert(self.records@ =~= old_records.update(i as int, self.records@[i as int]));
                }
            }
        }
        GatewayServiceSupervisorEvent { job_id, status, capacity_released: released }
    }

    /// Records a finished cleanup retry.  A successful retry releases the
    /// reservation and drops the record (or, if the reservation is gone,
    /// keeps the state as failed); a failed retry keeps its state and
    /// becomes the job's coordinator failure.  `None` when the job is gone.
    pub fn finish_cleanup(
        &mut self,
        job_id: u128,
        state: GatewayServiceCleanupRetryState,
        result: Result<(), GatewayServiceCleanupDriverError>,
    ) -> (event: Option<GatewayServiceSupervisorEvent>)
        requires
            old(self).wf(),
            state.cleanup.wf(),
        ensures
            final(self).wf(),
            final(self).spec_policy() == old(self).spec_policy(),
            final(self).spec_owner() == old(self).spec_owner(),
            !spec_has_job(old(self).spec_records(), job_id) ==> event is None && final(self).spec_records() == old(self).spec_records()
                && final(self).spec_capacity() == old(self).spec_capacity(),
            spec_has_job(old(self).spec_records(), job_id) ==> ({
                let i = spec_job_index(old(self).spec_records(), job_id);
                let r = old(self).spec_records()[i];
                let released = result is Ok && spec_has_token(old(self).spec_capacity(), r.token.id);
                &&& final(self).spec_capacity() == (if result is Ok {
                    spec_complete_effect(old(self).spec_capacity(), r.token.id)
                } else {
                    old(self).spec_capacity()
                })
                &&& event == Some(GatewayServiceSupervisorEvent {
                    job_id,
                    status: if released { GatewayServiceSupervisorJobStatus::Settled } else { GatewayServiceSupervisorJobStatus::Failed },
                    capacity_released: released,
                })
                &&& released ==> final(self).spec_records() == old(self).spec_records().remove(i)
                &&& !released ==> {
                    &&& final(self).spec_records().len() == old(self).spec_records().len()
                    &&& final(self).spec_records() == old(self).spec_records().update(i, final(self).spec_records()[i])
                    &&& spec_record_after_cleanup(r, state, result is Ok, final(self).spec_records()[i])
                }
            }),
    {
        let i = match self.find_record(job_id) {
            Some(i) => i,
            None => return None,
        };
        proof {
            let k = spec_job_index(self.records@, job_id);
            assert(k == i as int);
        }
        let ghost old_records = self.records@;
        let token = self.records[i].token;
        let mut record = self.records.remove(i);
        record.cleanup_in_flight = false;
        if result.is_ok() {
            let ghost before = self.capacity@;
            let outcome = self.capacity.complete(token);
            let released = outcome.is_ok();
            proof {
                lemma_complete_effect(before, self.capacity@, token.id, released);
            }
            if released {
                proof {
                    assert forall|a: int, b: int| 0 <= a < self.records@.len() && 0 <= b < self.records@.len() && a != b
                        implies self.records@[a].job_id != self.records@[b].job_id by {
                        let a2 = if a < i { a } else { a + 1 };
                        let b2 = if b < i { b } else { b + 1 };
                        assert(self.records@[a] == old_records[a2] && self.records@[b] == old_records[b2]);
                    }
                }
                return Some(GatewayServiceSupervisorEvent {
                    job_id,
                    status: GatewayServiceSupervisorJobStatus::Settled,
                    capacity_released: true,
                });
            }
            record.capacity_retained = true;
            record.cleanup_retry = Some(state);
            record.status = GatewayServiceSupervisorJobStatus::Failed;
            self.records.insert(i, record);
            proof {
                assert(self.records@ =~= old_records.update(i as int, self.records@[i as int]));
            }
            return Some(GatewayServiceSupervisorEvent {
                job_id,
                status: GatewayServiceSupervisorJobStatus::Failed,
                capacity_released: false,
            });
        }
        let failure = failure_from_retry(&state);
        let completion = match record.completion {
            Some(t) => Some(GatewayServiceJobTerminal {
                lease: Some(copy_lease(&state.lease)),
                coordinator_failure: Some(failure),
                claim_uncertain: t.claim_uncertain,
                claim_cleanup_reason: t.claim_cleanup_reason,
            }),
            None => None,
        };
        record.completion = completion;
        record.capacity_retained = true;
        record.cleanup_retry = Some(state);
        record.status = GatewayServiceSupervisorJobStatus::Failed;
        self.records.insert(i, record);
        proof {
            assert(self.records@ =~= old_records.update(i as int, self.records@[i as int]));
        }
        Some(GatewayServiceSupervisorEvent { job_id, status: GatewayServiceSupervisorJobStatus::Failed, capacity_released: false })
    }

    /// Schedules one parent-owned retry of a job's terminal coordinator
    /// cleanup, handing out the state to retry with.  The job must still
    /// hold its reservation and a coordinator failure, with no retry in
    /// flight.  Kept state is reused; otherwise it is rebuilt from the
    /// failure, conservatively unconfirmed unless physical cleanup was.
    pub fn begin_cleanup_retry(&mut self, job_id: u128) -> (result: Result<GatewayServiceCleanupRetryState, GatewayServiceSupervisorError>)
        requires
            old(self).wf(),
        ensures
            final(self).wf(),
            final(self).spec_policy() == old(self).spec_policy(),
            final(self).spec_owner() == old(self).spec_owner(),
            final(self).spec_capacity() == old(self).spec_capacity(),
            result is Err ==> final(self).spec_records() == old(self).spec_records(),
            !spec_has_job(old(self).spec_records(), job_id) ==> result == Err::<GatewayServiceCleanupRetryState, GatewayServiceSupervisorError>(GatewayServiceSupervisorError::RetryNotFound),
            spec_has_job(old(self).spec_records(), job_id) ==> ({
                let i = spec_job_index(old(self).spec_records(), job_id);
                let r = old(self).spec_records()[i];
                if r.cleanup_in_flight {
                    result == Err::<GatewayServiceCleanupRetryState, GatewayServiceSupervisorError>(GatewayServiceSupervisorError::RetryAlreadyInFlight)
                } else if !(r.completion matches Some(t) && t.coordinator_failure is Some) || !r.capacity_retained {
                    result == Err::<GatewayServiceCleanupRetryState, GatewayServiceSupervisorError>(GatewayServiceSupervisorError::RetryNotEligible)
                } else {
                    let f = r.completion->Some_0.coordinator_failure->Some_0;
                    &&& match r.cleanup_retry {
                        Some(st) => result == Ok::<GatewayServiceCleanupRetryState, GatewayServiceSupervisorError>(st),
                        None => {
                            let timeout = old(self).spec_policy().instance.shutdown_timeout_nanos;
                            let vm = if f.physical_cleanup_complete { None } else { match f.vm { Some(v) => Some(v@), None => None } };
                            if spec_cleanup_input_valid(f.identity, vm, timeout) {
                                result matches Ok(st) && {
                                    &&& st.lease == f.lease
                                    &&& st.pending_failure == f.pending_failure
                                    &&& st.reason == Some(f.reason)
                                    &&& st.cleanup.wf()
                                    &&& st.cleanup.spec_identity() == f.identity
                                    &&& st.cleanup.spec_retained_vm_id() == vm
                                    &&& st.cleanup.spec_vm_teardown_confirmed() == f.physical_cleanup_complete
                                    &&& st.cleanup.spec_materializer_cleanup_confirmed() == f.physical_cleanup_complete
                                }
                            } else {
                                result == Err::<GatewayServiceCleanupRetryState, GatewayServiceSupervisorError>(GatewayServiceSupervisorError::InvalidInput)
                            }
                        },
                    }
                    &&& result is Ok ==> final(self).spec_records() == old(self).spec_records().update(i, GatewayServiceSupervisorJobRecord {
                        cleanup_retry: None,
                        cleanup_in_flight: true,
                        status: GatewayServiceSupervisorJobStatus::CleanupPending,
                        ..r
                    })
                }
            }),
            result matches Ok(st) ==> st.cleanup.wf(),
    {
        let i = match self.find_record(job_id) {
            Some(i) => i,
            None => return Err(GatewayServiceSupervisorError::RetryNotFound),
        };
        proof {
            let k = spec_job_index(self.records@, job_id);
            assert(k == i as int);
            assert(spec_retry_wf(self.records@[i as int]));
        }
        if self.records[i].cleanup_in_flight {
            return Err(GatewayServiceSupervisorError::RetryAlreadyInFlight);
        }
        let eligible = match &self.records[i].completion {
            Some(t) => t.coordinator_failure.is_some(),
            None => false,
        };
        if !eligible || !self.records[i].capacity_retained {
            return Err(GatewayServiceSupervisorError::RetryNotEligible);
        }
        let timeout = self.policy.instance.shutdown_timeout_nanos;
        let ghost old_records = self.records@;
        let mut record = self.records.remove(i);
        let state = match record.cleanup_retry {
            Some(st) => {
                record.cleanup_retry = None;
                st
            },
            None => {
                let built = match &record.completion {
                    Some(t) => match &t.coordinator_failure {
                        Some(f) => {
                            let created = if f.physical_cleanup_complete {
                                GatewayServiceCleanup::from_confirmed_physical(f.identity, timeout)
                            } else {
                                let vm = match &f.vm {
                                    Some(v) => Some(v.clone()),
                                    None => None,
                                };
                                GatewayServiceCleanup::from_progress(f.identity, vm, false, false, timeout)
                            };
                            match created {
                                Ok(cleanup) => Ok(GatewayServiceCleanupRetryState {
                                    cleanup,
                                    lease: copy_lease(&f.lease),
                                    pending_failure: f.pending_failure,
                                    reason: Some(f.reason),
                                }),
                                Err(_) => Err(GatewayServiceSupervisorError::InvalidInput),
                            }
                        },
                        None => Err(GatewayServiceSupervisorError::RetryNotEligible),
                    },
                    None => Err(GatewayServiceSupervisorError::RetryNotEligible),
                };
                match built {
                    Ok(st) => st,
                    Err(e) => {
                        self.records.insert(i, record);
                        proof {
                            assert(self.records@ =~= old_records);
                        }
                        return Err(e);
                    },
                }
            },
        };
        record.cleanup_in_flight = true;
        record.status = GatewayServiceSupervisorJobStatus::CleanupPending;
        self.records.insert(i, record);
        proof {
            assert(self.records@ =~= old_records.update(i as int, self.records@[i as int]));
        }
        Ok(state)
    }

    /// Schedules resolution of a late or ambiguous claim through the
    /// serialized gateway barrier.  The job must still hold its reservation,
    /// have no coordinator failure, and have an uncertain claim or a known
    /// lease with a cleanup reason; nothing may be in flight or kept.
    pub fn reconcile_claim(&mut self, job_id: u128) -> (result: Result<GatewayServiceClaimResolutionJob, GatewayServiceSupervisorError>)
        requires
            old(self).wf(),
        ensures
            final(self).wf(),
            final(self).spec_policy() == old(self).spec_policy(),
            final(self).spec_owner() == old(self).spec_owner(),
            final(self).spec_capacity() == old(self).spec_capacity(),
            result is Err ==> final(self).spec_records() == old(self).spec_records(),
            !spec_has_job(old(self).spec_records(), job_id) ==> result == Err::<GatewayServiceClaimResolutionJob, GatewayServiceSupervisorError>(GatewayServiceSupervisorError::RetryNotFound),
            spec_has_job(old(self).spec_records(), job_id) ==> ({
                let i = spec_job_index(old(self).spec_records(), job_id);
                let r = old(self).spec_records()[i];
                if r.claim_resolution_in_flight || r.cleanup_in_flight || r.cleanup_retry is Some {
                    result == Err::<GatewayServiceClaimResolutionJob, GatewayServiceSupervisorError>(GatewayServiceSupervisorError::RetryAlreadyInFlight)
                } else if !(r.completion matches Some(t) && t.coordinator_failure is None
                    && (t.claim_uncertain || (t.lease is Some && t.claim_cleanup_reason is Some))) || !r.capacity_retained {
                    result == Err::<GatewayServiceClaimResolutionJob, GatewayServiceSupervisorError>(GatewayServiceSupervisorError::RetryNotEligible)
                } else {
                    let t = r.completion->Some_0;
                    &&& result == Ok::<GatewayServiceClaimResolutionJob, GatewayServiceSupervisorError>(GatewayServiceClaimResolutionJob {
                        request: r.request,
                        known_lease: t.lease,
                        reason: t.claim_cleanup_reason,
                    })
                    &&& final(self).spec_records() == old(self).spec_records().update(i, GatewayServiceSupervisorJobRecord {
                        claim_resolution_in_flight: true,
                        status: GatewayServiceSupervisorJobStatus::CleanupPending,
                        ..r
                    })
                }
            }),
    {
        let i = match self.find_record(job_id) {
            Some(i) => i,
            None => return Err(GatewayServiceSupervisorError::RetryNotFound),
        };
        proof {
            let k = spec_job_index(self.records@, job_id);
            assert(k == i as int);
        }
        if self.records[i].claim_resolution_in_flight || self.records[i].cleanup_in_flight
            || self.records[i].cleanup_retry.is_some() {
            return Err(GatewayServiceSupervisorError::RetryAlreadyInFlight);
        }
        let job = match &self.records[i].completion {
            None => return Err(GatewayServiceSupervisorError::RetryNotEligible),
            Some(t) => {
                let eligible = t.coordinator_failure.is_none()
                    && (t.claim_uncertain || (t.lease.is_some() && t.claim_cleanup_reason.is_some()));
                if !eligible || !self.records[i].capacity_retained {
                    return Err(GatewayServiceSupervisorError::RetryNotEligible);
                }
                let known = match &t.lease {
                    Some(l) => Some(copy_lease(l)),
                    None => None,
                };
                GatewayServiceClaimResolutionJob {
                    request: self.records[i].request,
                    known_lease: known,
                    reason: t.claim_cleanup_reason,
                }
            },
        };
        let ghost old_records = self.records@;
        let mut record = self.records.remove(i);
        record.claim_resolution_in_flight = true;
        record.status = GatewayServiceSupervisorJobStatus::CleanupPending;
        self.records.insert(i, record);
        proof {
            assert(self.records@ =~= old_records.update(i as int, self.records@[i as int]));
        }
        Ok(job)
    }

    /// Records a finished claim resolution.  An absent claim releases the
    /// reservation; a claim still owned becomes a cleanup retry the parent
    /// must start (or is kept when no deadline can be set); anything else
    /// stays uncertain.  `None` when the job is gone.
    pub fn finish_claim_resolution(
        &mut self,
        job_id: u128,
        result: Result<GatewayServiceClaimResolution, GatewayServiceSupervisorError>,
        deadline_available: bool,
    ) -> (outcome: (Option<GatewayServiceSupervisorEvent>, Option<GatewayServiceCleanupRetryState>))
        requires
            old(self).wf(),
            result matches Ok(GatewayServiceClaimResolution::Owned(st)) ==> st.cleanup.wf(),
        ensures
            final(self).wf(),
            final(self).spec_policy() == old(self).spec_policy(),
            final(self).spec_owner() == old(self).spec_owner(),
            !spec_has_job(old(self).spec_records(), job_id) ==> outcome == (None::<GatewayServiceSupervisorEvent>, None::<GatewayServiceCleanupRetryState>)
                && final(self).spec_records() == old(self).spec_records() && final(self).spec_capacity() == old(self).spec_capacity(),
            spec_has_job(old(self).spec_records(), job_id) ==> ({
                let i = spec_job_index(old(self).spec_records(), job_id);
                let r = old(self).spec_records()[i];
                let uncertain = GatewayServiceSupervisorEvent { job_id, status: GatewayServiceSupervisorJobStatus::Uncertain, capacity_released: false };
                match result {
                    Ok(GatewayServiceClaimResolution::Absent) => {
                        let released = spec_has_token(old(self).spec_capacity(), r.token.id);
                        &&& final(self).spec_capacity() == spec_complete_effect(old(self).spec_capacity(), r.token.id)
                        &&& outcome.1 is None
                        &&& released ==> outcome.0 == Some(GatewayServiceSupervisorEvent {
                            job_id,
                            status: GatewayServiceSupervisorJobStatus::Settled,
                            capacity_released: true,
                        }) && final(self).spec_records() == old(self).spec_records().remove(i)
                        &&& !released ==> outcome.0 == Some(uncertain)
                            && final(self).spec_records() == old(self).spec_records().update(i, GatewayServiceSupervisorJobRecord {
                                claim_resolution_in_flight: false,
                                capacity_retained: true,
                                status: GatewayServiceSupervisorJobStatus::Uncertain,
                                ..r
                            })
                    },
                    Ok(GatewayServiceClaimResolution::Owned(st)) => {
                        &&& final(self).spec_capacity() == old(self).spec_capacity()
                        &&& if deadline_available {
                            &&& outcome.0 == Some(GatewayServiceSupervisorEvent {
                                job_id,
                                status: GatewayServiceSupervisorJobStatus::CleanupPending,
                                capacity_released: false,
                            })
                            &&& outcome.1 == Some(st)
                            &&& final(self).spec_records().len() == old(self).spec_records().len()
                            &&& final(self).spec_records() == old(self).spec_records().update(i, final(self).spec_records()[i])
                            &&& spec_record_after_owned_claim(r, st, final(self).spec_records()[i])
                        } else {
                            &&& outcome == (Some(uncertain), None::<GatewayServiceCleanupRetryState>)
                            &&& final(self).spec_records() == old(self).spec_records().update(i, GatewayServiceSupervisorJobRecord {
                                claim_resolution_in_flight: false,
                                cleanup_retry: Some(st),
                                status: GatewayServiceSupervisorJobStatus::Uncertain,
                                ..r
                            })
                        }
                    },
                    _ => {
                        &&& final(self).spec_capacity() == old(self).spec_capacity()
                        &&& outcome == (Some(uncertain), None::<GatewayServiceCleanupRetryState>)
                        &&& final(self).spec_records() == old(self).spec_records().update(i, GatewayServiceSupervisorJobRecord {
                            claim_resolution_in_flight: false,
                            status: GatewayServiceSupervisorJobStatus::Uncertain,
                            ..r
                        })
                    },
                }
            }),
    {
        let i = match self.find_record(job_id) {
            Some(i) => i,
            None => return (None, None),
        };
        proof {
            let k = spec_job_index(self.records@, job_id);
            assert(k == i as int);
        }
        let ghost old_records = self.records@;
        let uncertain = GatewayServiceSupervisorEvent { job_id, status: GatewayServiceSupervisorJobStatus::Uncertain, capacity_released: false };
        let token = self.records[i].token;
        let mut record = self.records.remove(i);
        record.claim_resolution_in_flight = false;
        match result {
            Ok(GatewayServiceClaimResolution::Absent) => {
                let ghost before = self.capacity@;
                let released = self.capacity.complete(token).is_ok();
                proof {
                    lemma_complete_effect(before, self.capacity@, token.id, released);
                }
                if released {
                    proof {
                        assert forall|a: int, b: int| 0 <= a < self.records@.len() && 0 <= b < self.records@.len() && a != b
                            implies self.records@[a].job_id != self.records@[b].job_id by {
                            let a2 = if a < i { a } else { a + 1 };
                            let b2 = if b < i { b } else { b + 1 };
                            assert(self.records@[a] == old_records[a2] && self.records@[b] == old_records[b2]);
                        }
                    }
                    return (
                        Some(GatewayServiceSupervisorEvent { job_id, status: GatewayServiceSupervisorJobStatus::Settled, capacity_released: true }),
                        None,
                    );
                }
                record.capacity_retained = true;
                record.status = GatewayServiceSupervisorJobStatus::Uncertain;
                self.records.insert(i, record);
                proof {
                    assert(self.records@ =~= old_records.update(i as int, self.records@[i as int]));
                }
                (Some(uncertain), None)
            },
            Ok(GatewayServiceClaimResolution::Owned(st)) => {
                if !deadline_available {
                    record.cleanup_retry = Some(st);
                    record.status = GatewayServiceSupervisorJobStatus::Uncertain;
                    self.records.insert(i, record);
                    proof {
                        assert(self.records@ =~= old_records.update(i as int, self.records@[i as int]));
                    }
                    return (Some(uncertain), None);
                }
                let failure = failure_from_retry(&st);
                let completion = match record.completion {
                    Some(t) => Some(GatewayServiceJobTerminal {
                        lease: Some(copy_lease(&st.lease)),
                        coordinator_failure: Some(failure),
                        claim_uncertain: false,
                        claim_cleanup_reason: t.claim_cleanup_reason,
                    }),
                    None => None,
                };
                record.completion = completion;
                record.cleanup_in_flight = true;
                record.cleanup_retry = None;
                record.status = GatewayServiceSupervisorJobStatus::CleanupPending;
                self.records.insert(i, record);
                proof {
                    assert(self.records@ =~= old_records.update(i as int, self.records@[i as int]));
                }
                (
                    Some(GatewayServiceSupervisorEvent { job_id, status: GatewayServiceSupervisorJobStatus::CleanupPending, capacity_released: false }),
                    Some(st),
                )
            },
            _ => {
                record.status = GatewayServiceSupervisorJobStatus::Uncertain;
                self.records.insert(i, record);
                proof {
                    assert(self.records@ =~= old_records.update(i as int, self.records@[i as int]));
                }
                (Some(uncertain), None)
            },
        }
    }

    /// Returns a job's last published status, if the job has a record.
    pub fn job_status(&self, job_id: u128) -> (status: Option<GatewayServiceSupervisorJobStatus>)
        requires
            self.wf(),
        ensures
            !spec_has_job(self.spec_records(), job_id) ==> status is None,
            spec_has_job(self.spec_records(), job_id) ==> status == Some(
                self.spec_records()[spec_job_index(self.spec_records(), job_id)].status,
            ),
    {
        match self.find_record(job_id) {
            None => None,
            Some(i) => {
                proof {
                    let k = spec_job_index(self.records@, job_id);
                    assert(k == i as int);
                }
                Some(self.records[i].status)
            },
        }
    }

    /// Returns the current reservation counts without releasing any job.
    pub fn capacity_snapshot(&self) -> (snapshot: GatewayServiceCapacitySnapshot)
        requires
            self.wf(),
        ensures
            snapshot == spec_snapshot(self.spec_capacity()),
    {
        self.capacity.snapshot()
    }

    /// Consumes the supervisor once its jobs have settled: every ended job
    /// that still holds its reservation is handed back with everything it
    /// retains, in record order.
    pub fn shutdown(self) -> (report: GatewayServiceSupervisorShutdown)
        ensures
            report.unresolved@ == spec_unresolved(self.spec_records()),
    {
        let ghost all = self.records@;
        let mut records = self.records;
        let mut unresolved: Vec<GatewayServiceSupervisorUnresolved> = Vec::new();
        let mut i: usize = 0;
        let total = records.len();
        while records.len() > 0
            invariant
                total == all.len(),
                i + records@.len() == all.len(),
                records@ == all.skip(i as int),
                unresolved@ == spec_unresolved(all.take(i as int)),
            decreases records@.len(),
        {
            let record = records.remove(0);
            proof {
                assert(record == all[i as int]);
                assert(records@ =~= all.skip(i as int + 1));
                assert(all.take(i as int + 1).drop_last() =~= all.take(i as int));
                assert(all.take(i as int + 1).last() == all[i as int]);
            }
            if record.capacity_retained && record.completion.is_some() {
                let ghost before = unresolved@;
                unresolved.push(unresolved_of(record));
                proof {
                    assert(unresolved@ =~= before.push(spec_unresolved_of(all[i as int])));
                }
            }
            i += 1;
        }
        proof {
            assert(all.take(all.len() as int) =~= all);
        }
        GatewayServiceSupervisorShutdown { unresolved }
    }
}

proof fn lemma_finish_effect(before: Seq<CapacityReservation>, after: Seq<CapacityReservation>, token: u128, ok: bool)
    requires
        spec_unique(before),
        !spec_has_token(before, token) ==> !ok && after == before,
        forall|i: int| #![trigger before[i]] 0 <= i < before.len() && before[i].token == token ==> {
            if before[i].startup_complete {
                !ok && after == before
            } else {
                ok && after == before.update(i, CapacityReservation { startup_complete: true, ..before[i] })
            }
        },
    ensures
        after == spec_finish_effect(before, token),
        ok == (spec_finish_effect(before, token) != before),
{
    if exists|i: int| 0 <= i < before.len() && before[i].token == token && !before[i].startup_complete {
        let i = choose|i: int| 0 <= i < before.len() && before[i].token == token && !before[i].startup_complete;
        assert(after[i].startup_complete != before[i].startup_complete);
    } else if spec_has_token(before, token) {
        let i = choose|i: int| 0 <= i < before.len() && before[i].token == token;
        assert(before[i].startup_complete);
    }
}

proof fn lemma_complete_effect(before: Seq<CapacityReservation>, after: Seq<CapacityReservation>, token: u128, ok: bool)
    requires
        !spec_has_token(before, token) ==> !ok && after == before,
        forall|i: int| #![trigger before[i]] 0 <= i < before.len() && before[i].token == token ==> ok && after == before.remove(i),
    ensures
        after == spec_complete_effect(before, token),
        ok == spec_has_token(before, token),
{
    if spec_has_token(before, token) {
        let i = choose|i: int| 0 <= i < before.len() && before[i].token == token;
        assert(before[i].token == token);
        assert(ok && after == before.remove(i));
    }
}

} // verus!
