//! Fenced orchestration of physical and durable service cleanup.
//!
//! The driver's durable calls, lease monitor and provider work run outside
//! this module; every decision they feed back is taken here.
use vstd::prelude::*;
use crate::ident::{
    GatewayServiceIdentity, GatewayServiceInstanceLease, GatewayServiceInstanceState, GatewayServiceOwner,
    GatewayServiceOwnershipError, NIL_UUID, service_vm_id, spec_service_vm_id,
};
use crate::policy::{GatewayServiceLeasePolicy, MAX_SERVICE_CLEANUP_DATABASE_WAIT_NANOS};
use crate::service_cleanup::GatewayServiceCleanup;
use crate::service_failure::{GatewayServiceFailure, GatewayServiceFailureCode, GatewayServiceFailureStoreError};
use crate::text::text_eq;

verus! {

/// Policy for fenced cleanup orchestration.
#[derive(Debug, Clone, Copy, PartialEq, Eq, Structural)]
pub struct GatewayServiceCleanupDriverPolicy {
    /// Lease renewal and local deadline policy.
    pub lease: GatewayServiceLeasePolicy,
    /// Bound for one durable cleanup or confirmation operation, nanoseconds.
    pub database_timeout_nanos: u128,
}

/// Redacted errors from the durable cleanup boundary.
#[derive(Debug, Clone, Copy, PartialEq, Eq, Structural)]
pub enum GatewayServiceCleanupDriverError {
    /// The driver, lease, or policy was malformed.
    InvalidInput,
    /// The exact owner or fence is no longer current; no stale write occurred.
    Stale,
    /// Durable storage was unavailable; all caller-owned progress is retained.
    Unavailable,
    /// The physical or durable operation was attempted after malformed input.
    Rejected,
}

impl GatewayServiceCleanupDriverPolicy {
    /// The lease policy is valid and the database bound is nonzero and at
    /// most the maximum wait.
    pub open spec fn spec_valid(self) -> bool {
        self.lease.spec_valid() && 0 < self.database_timeout_nanos <= MAX_SERVICE_CLEANUP_DATABASE_WAIT_NANOS
    }

    /// Validates cleanup timing bounds.
    pub fn validate(self) -> (result: Result<(), GatewayServiceCleanupDriverError>)
        ensures
            result is Ok <==> self.spec_valid(),
            result matches Err(e) ==> e == GatewayServiceCleanupDriverError::InvalidInput,
    {
        if self.lease.validate().is_err() {
            return Err(GatewayServiceCleanupDriverError::InvalidInput);
        }
        if self.database_timeout_nanos == 0 || self.database_timeout_nanos > MAX_SERVICE_CLEANUP_DATABASE_WAIT_NANOS {
            return Err(GatewayServiceCleanupDriverError::InvalidInput);
        }
        Ok(())
    }
}

/// Result of one cleanup attempt.
#[derive(Debug, Clone, Copy, PartialEq, Eq, Structural)]
pub enum GatewayServiceCleanupDriverOutcome {
    /// Physical and durable cleanup are confirmed.
    Cleaned,
    /// The caller retains state and must retry later.
    Pending {
        /// Whether provider teardown and materializer cleanup are complete.
        physical_complete: bool,
        /// Whether the pending failure has been durably recorded.
        failure_recorded: bool,
        /// Whether lease monitoring lost the current claim during this attempt.
        lease_lost: bool,
    },
}

/// Maps a durable ownership error to the driver's redacted error.
pub open spec fn spec_map_ownership_error(error: GatewayServiceOwnershipError) -> GatewayServiceCleanupDriverError {
    match error {
        GatewayServiceOwnershipError::StaleLease => GatewayServiceCleanupDriverError::Stale,
        GatewayServiceOwnershipError::Unavailable => GatewayServiceCleanupDriverError::Unavailable,
        GatewayServiceOwnershipError::Conflict => GatewayServiceCleanupDriverError::Rejected,
        GatewayServiceOwnershipError::InvalidArgument => GatewayServiceCleanupDriverError::Rejected,
    }
}

/// Maps a durable ownership error: a stale lease stays stale, unavailable
/// storage stays unavailable, and a conflict or malformed argument is a
/// rejection.
pub fn map_ownership_error(error: GatewayServiceOwnershipError) -> (mapped: GatewayServiceCleanupDriverError)
    ensures
        mapped == spec_map_ownership_error(error),
{
    match error {
        GatewayServiceOwnershipError::StaleLease => GatewayServiceCleanupDriverError::Stale,
        GatewayServiceOwnershipError::Unavailable => GatewayServiceCleanupDriverError::Unavailable,
        GatewayServiceOwnershipError::Conflict => GatewayServiceCleanupDriverError::Rejected,
        GatewayServiceOwnershipError::InvalidArgument => GatewayServiceCleanupDriverError::Rejected,
    }
}

/// Two leases name the same claim: identity, owner and fence.
pub open spec fn spec_exact_claim(current: GatewayServiceInstanceLease, expected: GatewayServiceInstanceLease) -> bool {
    &&& current.identity == expected.identity
    &&& current.owner_host_id@ == expected.owner_host_id@
    &&& current.owner_uuid == expected.owner_uuid
    &&& current.fencing_token == expected.fencing_token
}

/// Returns whether `current` is the exact claim `expected`.
pub fn exact_claim(current: &GatewayServiceInstanceLease, expected: &GatewayServiceInstanceLease) -> (same: bool)
    ensures
        same == spec_exact_claim(*current, *expected),
{
    current.identity == expected.identity && text_eq(current.owner_host_id.as_str(), expected.owner_host_id.as_str())
        && current.owner_uuid == expected.owner_uuid && current.fencing_token == expected.fencing_token
}

/// A lease is an owned, well-formed `Stopping` claim on `identity`.
pub open spec fn spec_valid_stopping(
    lease: GatewayServiceInstanceLease,
    owner: GatewayServiceOwner,
    identity: GatewayServiceIdentity,
) -> bool {
    &&& lease.identity == identity
    &&& lease.state == GatewayServiceInstanceState::Stopping
    &&& lease.owner_host_id@ == owner.host_id@
    &&& lease.owner_uuid == owner.owner_uuid
    &&& lease.fencing_token > 0
    &&& lease.identity.spec_complete()
    &&& lease.vm_id@ == spec_service_vm_id(lease.identity.instance_id)
}

/// Rejects a lease that is not an owned, well-formed `Stopping` claim on
/// `identity`.
pub fn validate_stopping(
    lease: &GatewayServiceInstanceLease,
    owner: &GatewayServiceOwner,
    identity: GatewayServiceIdentity,
) -> (result: Result<(), GatewayServiceCleanupDriverError>)
    ensures
        result is Ok <==> spec_valid_stopping(*lease, *owner, identity),
        result matches Err(e) ==> e == GatewayServiceCleanupDriverError::InvalidInput,
{
    if lease.identity != identity || lease.state != GatewayServiceInstanceState::Stopping
        || !text_eq(lease.owner_host_id.as_str(), owner.host_id.as_str()) || lease.owner_uuid != owner.owner_uuid
        || lease.fencing_token <= 0 || !lease.identity.is_complete() {
        return Err(GatewayServiceCleanupDriverError::InvalidInput);
    }
    let expected_vm = service_vm_id(lease.identity.instance_id);
    if !text_eq(lease.vm_id.as_str(), expected_vm.as_str()) {
        return Err(GatewayServiceCleanupDriverError::InvalidInput);
    }
    Ok(())
}

/// Caller-owned fenced cleanup driver: the owner and policy snapshot that
/// every attempt is judged against.
#[derive(Debug, Clone, PartialEq, Eq)]
pub struct GatewayServiceCleanupDriver {
    /// Stable owner of every claim this driver touches.
    pub owner: GatewayServiceOwner,
    /// Validated timing policy.
    pub policy: GatewayServiceCleanupDriverPolicy,
}

/// How an attempt begins.
#[derive(Debug, Clone, Copy, PartialEq, Eq, Structural)]
pub enum GatewayServiceCleanupStart {
    /// Physical cleanup is complete and the deadline has passed: only a
    /// read-only lookup may confirm the durable row.
    ConfirmOnly,
    /// Start the lease monitor and look the row up under it.
    Monitored,
}

/// What follows the monitored lookup of the row.
#[derive(Debug, Clone, Copy, PartialEq, Eq)]
pub enum GatewayServiceCleanupLookupStep {
    /// The exact claim is still `Stopping`: run physical cleanup.
    RunPhysical,
    /// Stop the monitor and return this result.
    Finish(Result<GatewayServiceCleanupDriverOutcome, GatewayServiceCleanupDriverError>),
}

/// What follows physical cleanup or the failure report.
#[derive(Debug, Clone, Copy, PartialEq, Eq)]
pub enum GatewayServiceCleanupDurableStep {
    /// Durably record this pending failure.
    RecordFailure(GatewayServiceFailure),
    /// Durably mark the row cleaned.
    MarkCleaned,
    /// Read the row back to learn whether an ambiguous write landed.
    ConfirmCleaned,
    /// Stop the monitor and return this result.
    Finish(Result<GatewayServiceCleanupDriverOutcome, GatewayServiceCleanupDriverError>),
}

/// What the read-only lookup at the start of a confirm-only attempt yields.
pub open spec fn spec_confirm_only_result(
    lease: GatewayServiceInstanceLease,
    found: Result<Option<GatewayServiceInstanceLease>, GatewayServiceCleanupDriverError>,
) -> Result<GatewayServiceCleanupDriverOutcome, GatewayServiceCleanupDriverError> {
    match found {
        Err(e) => Err(e),
        Ok(None) => Err(GatewayServiceCleanupDriverError::Unavailable),
        Ok(Some(current)) => if current.state == GatewayServiceInstanceState::Cleaned && spec_exact_claim(current, lease) {
            Ok(GatewayServiceCleanupDriverOutcome::Cleaned)
        } else {
            Err(GatewayServiceCleanupDriverError::Stale)
        },
    }
}

/// What follows the monitored lookup.
pub open spec fn spec_lookup_step(
    cleanup: GatewayServiceCleanup,
    lease: GatewayServiceInstanceLease,
    found: Result<Option<GatewayServiceInstanceLease>, GatewayServiceCleanupDriverError>,
) -> GatewayServiceCleanupLookupStep {
    match found {
        Err(e) => GatewayServiceCleanupLookupStep::Finish(Err(e)),
        Ok(None) => GatewayServiceCleanupLookupStep::Finish(Err(GatewayServiceCleanupDriverError::Unavailable)),
        Ok(Some(current)) => if spec_exact_claim(current, lease) && current.state == GatewayServiceInstanceState::Stopping {
            GatewayServiceCleanupLookupStep::RunPhysical
        } else if current.state == GatewayServiceInstanceState::Cleaned && cleanup.spec_vm_teardown_confirmed()
            && cleanup.spec_materializer_cleanup_confirmed() && spec_exact_claim(current, lease) {
            GatewayServiceCleanupLookupStep::Finish(Ok(GatewayServiceCleanupDriverOutcome::Cleaned))
        } else {
            GatewayServiceCleanupLookupStep::Finish(Err(GatewayServiceCleanupDriverError::Stale))
        },
    }
}

/// The metadata-free cleanup failure report.
pub open spec fn spec_cleanup_failure() -> GatewayServiceFailure {
    GatewayServiceFailure { code: GatewayServiceFailureCode::Cleanup, exit_code: None, exit_signal: None }
}

/// The failure still pending after physical cleanup: a failed physical step
/// records a cleanup failure unless one is already pending.
pub open spec fn spec_pending_after_physical(
    physical_complete: bool,
    pending: Option<GatewayServiceFailure>,
) -> Option<GatewayServiceFailure> {
    if !physical_complete && pending is None {
        Some(spec_cleanup_failure())
    } else {
        pending
    }
}

/// What follows physical cleanup.
pub open spec fn spec_physical_step(
    physical_complete: bool,
    lease_lost: bool,
    pending: Option<GatewayServiceFailure>,
) -> GatewayServiceCleanupDurableStep {
    let pending = spec_pending_after_physical(physical_complete, pending);
    if lease_lost {
        GatewayServiceCleanupDurableStep::Finish(Ok(GatewayServiceCleanupDriverOutcome::Pending {
            physical_complete,
            failure_recorded: false,
            lease_lost: true,
        }))
    } else {
        match pending {
            Some(failure) => GatewayServiceCleanupDurableStep::RecordFailure(failure),
            None => GatewayServiceCleanupDurableStep::MarkCleaned,
        }
    }
}

/// What follows the durable failure report.
pub open spec fn spec_failure_record_step(
    physical_complete: bool,
    recorded: Result<Result<(), GatewayServiceFailureStoreError>, GatewayServiceCleanupDriverError>,
) -> GatewayServiceCleanupDurableStep {
    match recorded {
        Ok(Ok(())) => if physical_complete {
            GatewayServiceCleanupDurableStep::MarkCleaned
        } else {
            GatewayServiceCleanupDurableStep::Finish(Ok(GatewayServiceCleanupDriverOutcome::Pending {
                physical_complete: false,
                failure_recorded: true,
                lease_lost: false,
            }))
        },
        Ok(Err(GatewayServiceFailureStoreError::StaleLease)) | Err(GatewayServiceCleanupDriverError::Stale) =>
            GatewayServiceCleanupDurableStep::Finish(Err(GatewayServiceCleanupDriverError::Stale)),
        Ok(Err(GatewayServiceFailureStoreError::Unavailable)) | Err(GatewayServiceCleanupDriverError::Unavailable) =>
            GatewayServiceCleanupDurableStep::Finish(Err(GatewayServiceCleanupDriverError::Unavailable)),
        _ => GatewayServiceCleanupDurableStep::Finish(Err(GatewayServiceCleanupDriverError::Rejected)),
    }
}

/// A pending failure is recorded before the row is marked cleaned, and once
/// it is durably recorded the attempt goes on exactly as a physically
/// complete cleanup with nothing pending does: it writes `Cleaned`. While
/// physical cleanup is incomplete the attempt stops pending, with the
/// failure recorded.
pub proof fn lemma_recorded_failure_leads_to_cleaned(physical_complete: bool, failure: GatewayServiceFailure)
    ensures
        spec_physical_step(physical_complete, false, Some(failure))
            == GatewayServiceCleanupDurableStep::RecordFailure(failure),
        physical_complete ==> spec_failure_record_step(physical_complete, Ok(Ok(())))
            == GatewayServiceCleanupDurableStep::MarkCleaned,
        physical_complete ==> spec_failure_record_step(physical_complete, Ok(Ok(())))
            == spec_physical_step(physical_complete, false, None),
        !physical_complete ==> spec_failure_record_step(physical_complete, Ok(Ok(())))
            == GatewayServiceCleanupDurableStep::Finish(Ok(GatewayServiceCleanupDriverOutcome::Pending {
                physical_complete: false,
                failure_recorded: true,
                lease_lost: false,
            })),
{
}

/// What follows the durable `Cleaned` write.
pub open spec fn spec_mark_cleaned_step(
    marked: Result<Result<(), GatewayServiceOwnershipError>, GatewayServiceCleanupDriverError>,
) -> GatewayServiceCleanupDurableStep {
    match marked {
        Ok(Ok(())) => GatewayServiceCleanupDurableStep::Finish(Ok(GatewayServiceCleanupDriverOutcome::Cleaned)),
        Ok(Err(GatewayServiceOwnershipError::StaleLease)) | Ok(Err(GatewayServiceOwnershipError::Unavailable))
        | Err(GatewayServiceCleanupDriverError::Stale) | Err(GatewayServiceCleanupDriverError::Unavailable) =>
            GatewayServiceCleanupDurableStep::ConfirmCleaned,
        _ => GatewayServiceCleanupDurableStep::Finish(Err(GatewayServiceCleanupDriverError::Rejected)),
    }
}

/// What reading the row back after an ambiguous write shows.
pub open spec fn spec_confirm_cleaned_result(
    identity: GatewayServiceIdentity,
    expected: GatewayServiceInstanceLease,
    found: Result<Option<GatewayServiceInstanceLease>, GatewayServiceCleanupDriverError>,
) -> Result<bool, GatewayServiceCleanupDriverError> {
    match found {
        Err(e) => Err(e),
        Ok(None) => Err(GatewayServiceCleanupDriverError::Unavailable),
        Ok(Some(instance)) => if instance.identity == identity && instance.state == GatewayServiceInstanceState::Cleaned {
            if spec_exact_claim(instance, expected) {
                Ok(true)
            } else {
                Err(GatewayServiceCleanupDriverError::Stale)
            }
        } else if spec_exact_claim(instance, expected) {
            Err(GatewayServiceCleanupDriverError::Unavailable)
        } else {
            Err(GatewayServiceCleanupDriverError::Stale)
        },
    }
}

/// What a read-only confirmation of a physically complete cleanup shows:
/// `Ok(false)` sends the row down the ordinary retry path.
pub open spec fn spec_confirm_cleaned_state_result(
    cleanup: GatewayServiceCleanup,
    lease: GatewayServiceInstanceLease,
    found: Result<Option<GatewayServiceInstanceLease>, GatewayServiceCleanupDriverError>,
) -> Result<bool, GatewayServiceCleanupDriverError> {
    if !cleanup.spec_vm_teardown_confirmed() || !cleanup.spec_materializer_cleanup_confirmed() {
        Ok(false)
    } else {
        match found {
            Err(e) => Err(e),
            Ok(None) => Err(GatewayServiceCleanupDriverError::Unavailable),
            Ok(Some(current)) => if current.state == GatewayServiceInstanceState::Cleaned {
                if spec_exact_claim(current, lease) {
                    Ok(true)
                } else {
                    Err(GatewayServiceCleanupDriverError::Stale)
                }
            } else if spec_exact_claim(current, lease) {
                Ok(false)
            } else {
                Err(GatewayServiceCleanupDriverError::Stale)
            },
        }
    }
}

/// Whether a renewed or transitioned lease is still this owner's exact
/// live claim.
pub open spec fn spec_owned_exact(
    renewed: GatewayServiceInstanceLease,
    lease: GatewayServiceInstanceLease,
    owner: GatewayServiceOwner,
) -> bool {
    &&& spec_exact_claim(renewed, lease)
    &&& renewed.owner_host_id@ == owner.host_id@
    &&& renewed.owner_uuid == owner.owner_uuid
}

/// The deadline a renewal grants, measured on the caller's monotonic clock
/// in nanoseconds: the earlier of the policy's lease and the row's own
/// heartbeat-to-expiry budget, both counted from the renewal call.
pub open spec fn spec_renewal_deadline(
    renewed: GatewayServiceInstanceLease,
    lease: GatewayServiceInstanceLease,
    owner: GatewayServiceOwner,
    lease_duration_nanos: u128,
    call_started_nanos: u128,
    now_nanos: u128,
) -> Result<u128, GatewayServiceCleanupDriverError> {
    let budget = renewed.lease_expires_at_nanos - renewed.heartbeat_at_nanos;
    if !spec_owned_exact(renewed, lease, owner) || !renewed.state.spec_is_live() {
        Err(GatewayServiceCleanupDriverError::Stale)
    } else if budget <= 0 {
        Err(GatewayServiceCleanupDriverError::Stale)
    } else if call_started_nanos + lease_duration_nanos > u128::MAX || call_started_nanos + budget > u128::MAX {
        Err(GatewayServiceCleanupDriverError::InvalidInput)
    } else {
        let deadline = if lease_duration_nanos <= budget {
            call_started_nanos + lease_duration_nanos
        } else {
            call_started_nanos + budget
        };
        if deadline <= now_nanos {
            Err(GatewayServiceCleanupDriverError::Stale)
        } else {
            Ok(deadline as u128)
        }
    }
}

impl GatewayServiceCleanupDriver {
    /// Creates a driver with immutable owner and policy snapshots.
    pub fn new(owner: GatewayServiceOwner, policy: GatewayServiceCleanupDriverPolicy) -> (result: Result<Self, GatewayServiceCleanupDriverError>)
        ensures
            result is Ok <==> owner.spec_valid() && policy.spec_valid(),
            result matches Ok(driver) ==> driver.owner == owner && driver.policy == policy,
            result matches Err(e) ==> e == GatewayServiceCleanupDriverError::InvalidInput,
    {
        if owner.validate().is_err() {
            return Err(GatewayServiceCleanupDriverError::InvalidInput);
        }
        match policy.validate() {
            Ok(()) => Ok(GatewayServiceCleanupDriver { owner, policy }),
            Err(e) => Err(e),
        }
    }

    /// Begins one bounded cleanup attempt for an already-owned stopping row.
    pub fn begin_attempt(
        &self,
        cleanup: &GatewayServiceCleanup,
        lease: &GatewayServiceInstanceLease,
        deadline_passed: bool,
    ) -> (start: Result<GatewayServiceCleanupStart, GatewayServiceCleanupDriverError>)
        requires
            cleanup.wf(),
        ensures
            !spec_valid_stopping(*lease, self.owner, cleanup.spec_identity())
                ==> start == Err::<GatewayServiceCleanupStart, GatewayServiceCleanupDriverError>(GatewayServiceCleanupDriverError::InvalidInput),
            spec_valid_stopping(*lease, self.owner, cleanup.spec_identity()) ==> start == Ok::<GatewayServiceCleanupStart, GatewayServiceCleanupDriverError>(
                if cleanup.spec_vm_teardown_confirmed() && cleanup.spec_materializer_cleanup_confirmed() && deadline_passed {
                    GatewayServiceCleanupStart::ConfirmOnly
                } else {
                    GatewayServiceCleanupStart::Monitored
                },
            ),
    {
        match validate_stopping(lease, &self.owner, cleanup.identity()) {
            Err(e) => Err(e),
            Ok(()) => {
                if cleanup.vm_teardown_confirmed() && cleanup.materializer_cleanup_confirmed() && deadline_passed {
                    Ok(GatewayServiceCleanupStart::ConfirmOnly)
                } else {
                    Ok(GatewayServiceCleanupStart::Monitored)
                }
            },
        }
    }
}

/// Decides a confirm-only attempt from the read-only lookup.
pub fn confirm_only_result(
    lease: &GatewayServiceInstanceLease,
    found: Result<Option<GatewayServiceInstanceLease>, GatewayServiceCleanupDriverError>,
) -> (result: Result<GatewayServiceCleanupDriverOutcome, GatewayServiceCleanupDriverError>)
    ensures
        result == spec_confirm_only_result(*lease, found),
{
    match found {
        Err(e) => Err(e),
        Ok(None) => Err(GatewayServiceCleanupDriverError::Unavailable),
        Ok(Some(current)) => {
            if current.state == GatewayServiceInstanceState::Cleaned && exact_claim(&current, lease) {
                Ok(GatewayServiceCleanupDriverOutcome::Cleaned)
            } else {
                Err(GatewayServiceCleanupDriverError::Stale)
            }
        },
    }
}

/// Decides what follows the monitored lookup of the row.
pub fn lookup_step(
    cleanup: &GatewayServiceCleanup,
    lease: &GatewayServiceInstanceLease,
    found: Result<Option<GatewayServiceInstanceLease>, GatewayServiceCleanupDriverError>,
) -> (step: GatewayServiceCleanupLookupStep)
    requires
        cleanup.wf(),
    ensures
        step == spec_lookup_step(*cleanup, *lease, found),
{
    match found {
        Err(e) => GatewayServiceCleanupLookupStep::Finish(Err(e)),
        Ok(None) => GatewayServiceCleanupLookupStep::Finish(Err(GatewayServiceCleanupDriverError::Unavailable)),
        Ok(Some(current)) => {
            let exact = exact_claim(&current, lease);
            if exact && current.state == GatewayServiceInstanceState::Stopping {
                GatewayServiceCleanupLookupStep::RunPhysical
            } else if current.state == GatewayServiceInstanceState::Cleaned && cleanup.vm_teardown_confirmed()
                && cleanup.materializer_cleanup_confirmed() && exact {
                GatewayServiceCleanupLookupStep::Finish(Ok(GatewayServiceCleanupDriverOutcome::Cleaned))
            } else {
                GatewayServiceCleanupLookupStep::Finish(Err(GatewayServiceCleanupDriverError::Stale))
            }
        },
    }
}

/// Decides what follows physical cleanup, recording a cleanup failure when
/// the physical step failed and none was pending yet.
pub fn physical_step(
    physical_complete: bool,
    lease_lost: bool,
    pending_failure: &mut Option<GatewayServiceFailure>,
) -> (step: GatewayServiceCleanupDurableStep)
    ensures
        *final(pending_failure) == spec_pending_after_physical(physical_complete, *old(pending_failure)),
        step == spec_physical_step(physical_complete, lease_lost, *old(pending_failure)),
{
    if !physical_complete && pending_failure.is_none() {
        *pending_failure = Some(GatewayServiceFailure {
            code: GatewayServiceFailureCode::Cleanup,
            exit_code: None,
            exit_signal: None,
        });
    }
    if lease_lost {
        return GatewayServiceCleanupDurableStep::Finish(Ok(GatewayServiceCleanupDriverOutcome::Pending {
            physical_complete,
            failure_recorded: false,
            lease_lost: true,
        }));
    }
    match *pending_failure {
        Some(failure) => GatewayServiceCleanupDurableStep::RecordFailure(failure),
        None => GatewayServiceCleanupDurableStep::MarkCleaned,
    }
}

/// Decides what follows the durable failure report; a recorded failure is
/// no longer pending.
pub fn failure_record_step(
    physical_complete: bool,
    recorded: Result<Result<(), GatewayServiceFailureStoreError>, GatewayServiceCleanupDriverError>,
    pending_failure: &mut Option<GatewayServiceFailure>,
) -> (step: GatewayServiceCleanupDurableStep)
    ensures
        step == spec_failure_record_step(physical_complete, recorded),
        *final(pending_failure) == (if (recorded matches Ok(Ok(_))) {
            None
        } else {
            *old(pending_failure)
        }),
{
    match recorded {
        Ok(Ok(())) => {
            *pending_failure = None;
            if physical_complete {
                GatewayServiceCleanupDurableStep::MarkCleaned
            } else {
                GatewayServiceCleanupDurableStep::Finish(Ok(GatewayServiceCleanupDriverOutcome::Pending {
                    physical_complete: false,
                    failure_recorded: true,
                    lease_lost: false,
                }))
            }
        },
        Ok(Err(GatewayServiceFailureStoreError::StaleLease)) | Err(GatewayServiceCleanupDriverError::Stale) =>
            GatewayServiceCleanupDurableStep::Finish(Err(GatewayServiceCleanupDriverError::Stale)),
        Ok(Err(GatewayServiceFailureStoreError::Unavailable)) | Err(GatewayServiceCleanupDriverError::Unavailable) =>
            GatewayServiceCleanupDurableStep::Finish(Err(GatewayServiceCleanupDriverError::Unavailable)),
        _ => GatewayServiceCleanupDurableStep::Finish(Err(GatewayServiceCleanupDriverError::Rejected)),
    }
}

/// Decides what follows the durable `Cleaned` write: an ambiguous stale or
/// unavailable answer is read back before anything is concluded.
pub fn mark_cleaned_step(
    marked: Result<Result<(), GatewayServiceOwnershipError>, GatewayServiceCleanupDriverError>,
) -> (step: GatewayServiceCleanupDurableStep)
    ensures
        step == spec_mark_cleaned_step(marked),
{
    match marked {
        Ok(Ok(())) => GatewayServiceCleanupDurableStep::Finish(Ok(GatewayServiceCleanupDriverOutcome::Cleaned)),
        Ok(Err(GatewayServiceOwnershipError::StaleLease)) | Ok(Err(GatewayServiceOwnershipError::Unavailable))
        | Err(GatewayServiceCleanupDriverError::Stale) | Err(GatewayServiceCleanupDriverError::Unavailable) =>
            GatewayServiceCleanupDurableStep::ConfirmCleaned,
        _ => GatewayServiceCleanupDurableStep::Finish(Err(GatewayServiceCleanupDriverError::Rejected)),
    }
}

/// Reads back an ambiguous `Cleaned` write.
pub fn confirm_cleaned_result(
    identity: GatewayServiceIdentity,
    expected: &GatewayServiceInstanceLease,
    found: Result<Option<GatewayServiceInstanceLease>, GatewayServiceCleanupDriverError>,
) -> (result: Result<bool, GatewayServiceCleanupDriverError>)
    ensures
        result == spec_confirm_cleaned_result(identity, *expected, found),
{
    match found {
        Err(e) => Err(e),
        Ok(None) => Err(GatewayServiceCleanupDriverError::Unavailable),
        Ok(Some(instance)) => {
            let exact = exact_claim(&instance, expected);
            if instance.identity == identity && instance.state == GatewayServiceInstanceState::Cleaned {
                if exact {
                    Ok(true)
                } else {
                    Err(GatewayServiceCleanupDriverError::Stale)
                }
            } else if exact {
                Err(GatewayServiceCleanupDriverError::Unavailable)
            } else {
                Err(GatewayServiceCleanupDriverError::Stale)
            }
        },
    }
}

/// The outcome of an attempt whose `Cleaned` write was read back: only a
/// confirmed exact row is cleaned.
pub fn confirmed_outcome(confirmed: Result<bool, GatewayServiceCleanupDriverError>) -> (result: Result<GatewayServiceCleanupDriverOutcome, GatewayServiceCleanupDriverError>)
    ensures
        result == (match confirmed {
            Ok(true) => Ok(GatewayServiceCleanupDriverOutcome::Cleaned),
            Ok(false) => Err(GatewayServiceCleanupDriverError::Unavailable),
            Err(e) => Err(e),
        }),
{
    match confirmed {
        Ok(true) => Ok(GatewayServiceCleanupDriverOutcome::Cleaned),
        Ok(false) => Err(GatewayServiceCleanupDriverError::Unavailable),
        Err(e) => Err(e),
    }
}

/// Decides the read-only confirmation of a physically complete cleanup.
pub fn confirm_cleaned_state_result(
    cleanup: &GatewayServiceCleanup,
    lease: &GatewayServiceInstanceLease,
    found: Result<Option<GatewayServiceInstanceLease>, GatewayServiceCleanupDriverError>,
) -> (result: Result<bool, GatewayServiceCleanupDriverError>)
    requires
        cleanup.wf(),
    ensures
        result == spec_confirm_cleaned_state_result(*cleanup, *lease, found),
{
    if !cleanup.vm_teardown_confirmed() || !cleanup.materializer_cleanup_confirmed() {
        return Ok(false);
    }
    match found {
        Err(e) => Err(e),
        Ok(None) => Err(GatewayServiceCleanupDriverError::Unavailable),
        Ok(Some(current)) => {
            let exact = exact_claim(&current, lease);
            if current.state == GatewayServiceInstanceState::Cleaned {
                if exact {
                    Ok(true)
                } else {
                    Err(GatewayServiceCleanupDriverError::Stale)
                }
            } else if exact {
                Ok(false)
            } else {
                Err(GatewayServiceCleanupDriverError::Stale)
            }
        },
    }
}

/// Decides a renewal before a retry: the renewed row must still be this
/// owner's exact live claim, and its deadline is the earlier of the policy
/// lease and the row's heartbeat-to-expiry budget.
pub fn renewal_deadline(
    renewed: &GatewayServiceInstanceLease,
    lease: &GatewayServiceInstanceLease,
    owner: &GatewayServiceOwner,
    lease_duration_nanos: u128,
    call_started_nanos: u128,
    now_nanos: u128,
) -> (result: Result<u128, GatewayServiceCleanupDriverError>)
    ensures
        result == spec_renewal_deadline(*renewed, *lease, *owner, lease_duration_nanos, call_started_nanos, now_nanos),
{
    if !exact_claim(renewed, lease) || !text_eq(renewed.owner_host_id.as_str(), owner.host_id.as_str())
        || renewed.owner_uuid != owner.owner_uuid || !renewed.state.is_live() {
        return Err(GatewayServiceCleanupDriverError::Stale);
    }
    if renewed.lease_expires_at_nanos <= renewed.heartbeat_at_nanos {
        return Err(GatewayServiceCleanupDriverError::Stale);
    }
    let expires = renewed.lease_expires_at_nanos;
    let heartbeat = renewed.heartbeat_at_nanos;
    let budget: u128 = if heartbeat >= 0 || expires < 0 {
        (expires - heartbeat) as u128
    } else {
        (expires as u128) + ((-(heartbeat + 1)) as u128) + 1
    };
    assert(budget == expires - heartbeat);
    if call_started_nanos > u128::MAX - lease_duration_nanos || call_started_nanos > u128::MAX - budget {
        return Err(GatewayServiceCleanupDriverError::InvalidInput);
    }
    let deadline = if lease_duration_nanos <= budget {
        call_started_nanos + lease_duration_nanos
    } else {
        call_started_nanos + budget
    };
    if deadline <= now_nanos {
        return Err(GatewayServiceCleanupDriverError::Stale);
    }
    Ok(deadline)
}

/// Decides the `Stopping` transition that follows a renewal of a live row:
/// the returned row must be this owner's exact claim, now `Stopping`, and
/// the deadline must not have passed.
pub fn stopping_transition_result(
    operation: &GatewayServiceInstanceLease,
    lease: &GatewayServiceInstanceLease,
    owner: &GatewayServiceOwner,
    deadline_passed: bool,
) -> (result: Result<(), GatewayServiceCleanupDriverError>)
    ensures
        result is Ok <==> !deadline_passed && spec_owned_exact(*operation, *lease, *owner)
            && operation.state == GatewayServiceInstanceState::Stopping,
        result matches Err(e) ==> e == GatewayServiceCleanupDriverError::Stale,
{
    if deadline_passed {
        return Err(GatewayServiceCleanupDriverError::Stale);
    }
    if !exact_claim(operation, lease) || !text_eq(operation.owner_host_id.as_str(), owner.host_id.as_str())
        || operation.owner_uuid != owner.owner_uuid || operation.state != GatewayServiceInstanceState::Stopping {
        return Err(GatewayServiceCleanupDriverError::Stale);
    }
    Ok(())
}

} // verus!
