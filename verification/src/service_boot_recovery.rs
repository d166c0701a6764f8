//! Parent-owned boot recovery for abandoned persistent service instances.
//!
//! The barrier's claim and cleanup futures, timers and durable calls run
//! outside this module; the barrier below holds what they leave behind and
//! decides every next step.
use vstd::prelude::*;
use crate::ident::{
    GatewayServiceInstanceLease, GatewayServiceInstanceState, GatewayServiceOwner, GatewayServiceOwnershipError,
    service_vm_id, spec_service_vm_id,
};
use crate::policy::MAX_SHUTDOWN_TIMEOUT_NANOS;
use crate::service_cleanup::{GatewayServiceCleanup, opt_string_view, spec_cleanup_input_valid};
use crate::service_cleanup_driver::{
    GatewayServiceCleanupDriverError, GatewayServiceCleanupDriverOutcome, GatewayServiceCleanupDriverPolicy,
    spec_exact_claim,
};
use crate::service_failure::GatewayServiceFailure;
use crate::text::text_eq;

verus! {

/// Maximum number of cleanup attempts owned concurrently during boot recovery.
pub const MAX_SERVICE_BOOT_RECOVERY_CLEANUPS: usize = 2;
/// Delay before the barrier retries after waiting or an unavailable step.
pub const BOOT_RECOVERY_RETRY_DELAY_NANOS: u128 = 250_000_000;

/// Redacted boot-barrier errors. Any error leaves the barrier closed.
#[derive(Debug, Clone, Copy, PartialEq, Eq, Structural)]
pub enum GatewayServiceBootRecoveryError {
    /// The immutable context or a durable lease was malformed.
    InvalidInput,
    /// Durable recovery was unavailable; the caller may poll again.
    Unavailable,
}

/// One parent-visible boot recovery step.
#[derive(Debug, Clone, Copy, PartialEq, Eq, Structural)]
pub enum GatewayServiceBootRecoveryEvent {
    /// Recovery is waiting for an expired lease or a bounded retry delay.
    Waiting,
    /// One cleanup job finished but retained state for a later retry.
    Pending,
    /// No non-cleaned host rows remain after a fresh first-page proof.
    Complete,
}

/// Exact unresolved ownership: the claim, its physical progress, and a
/// failure report still awaiting durable recording.
#[derive(Debug, Clone, PartialEq, Eq)]
pub struct GatewayServiceBootRecoveryUnresolved {
    /// Durable instance lease retained for later exact takeover.
    pub lease: GatewayServiceInstanceLease,
    /// Physical/materializer progress retained across attempts.
    pub cleanup: GatewayServiceCleanup,
    /// Failure report still awaiting durable recording.
    pub pending_failure: Option<GatewayServiceFailure>,
}

/// Result of consuming the barrier after all owned futures settle.
#[derive(Debug, Clone, PartialEq, Eq)]
pub struct GatewayServiceBootRecoveryShutdown {
    /// Claims and physical cleanup still requiring a later recovery pass.
    pub unresolved: Vec<GatewayServiceBootRecoveryUnresolved>,
    /// Raw claims retained when an adapter returned malformed ownership data.
    pub unresolved_claims: Vec<GatewayServiceInstanceLease>,
}

/// A well-formed `Stopping` claim this owner may clean up.
pub open spec fn spec_valid_recovery_lease(lease: GatewayServiceInstanceLease, owner: GatewayServiceOwner) -> bool {
    &&& lease.identity.spec_complete()
    &&& lease.owner_host_id@ == owner.host_id@
    &&& lease.owner_uuid == owner.owner_uuid
    &&& lease.fencing_token > 0
    &&& lease.vm_id@ == spec_service_vm_id(lease.identity.instance_id)
    &&& lease.state == GatewayServiceInstanceState::Stopping
    &&& lease.lease_expires_at_nanos > lease.heartbeat_at_nanos
}

/// Returns whether a claimed lease is a well-formed `Stopping` claim of
/// this owner.
pub fn valid_recovery_lease(lease: &GatewayServiceInstanceLease, owner: &GatewayServiceOwner) -> (valid: bool)
    ensures
        valid == spec_valid_recovery_lease(*lease, *owner),
{
    if !lease.identity.is_complete() || !text_eq(lease.owner_host_id.as_str(), owner.host_id.as_str())
        || lease.owner_uuid != owner.owner_uuid || lease.fencing_token <= 0 {
        return false;
    }
    let expected_vm = service_vm_id(lease.identity.instance_id);
    text_eq(lease.vm_id.as_str(), expected_vm.as_str()) && lease.state == GatewayServiceInstanceState::Stopping
        && lease.lease_expires_at_nanos > lease.heartbeat_at_nanos
}

/// A renewal of an own `Stopping` row: valid, and the same identity, VM
/// and fence as the candidate.
pub open spec fn spec_valid_owned_recovery_lease(
    lease: GatewayServiceInstanceLease,
    owner: GatewayServiceOwner,
    expected: GatewayServiceInstanceLease,
) -> bool {
    &&& spec_valid_recovery_lease(lease, owner)
    &&& lease.identity == expected.identity
    &&& lease.vm_id@ == expected.vm_id@
    &&& lease.fencing_token == expected.fencing_token
}

/// Returns whether a renewal kept the candidate's exact identity, VM and fence.
pub fn valid_owned_recovery_lease(
    lease: &GatewayServiceInstanceLease,
    owner: &GatewayServiceOwner,
    expected: &GatewayServiceInstanceLease,
) -> (valid: bool)
    ensures
        valid == spec_valid_owned_recovery_lease(*lease, *owner, *expected),
{
    valid_recovery_lease(lease, owner) && lease.identity == expected.identity
        && text_eq(lease.vm_id.as_str(), expected.vm_id.as_str()) && lease.fencing_token == expected.fencing_token
}

/// An exact takeover of an expired claim: valid, same identity and VM, and
/// a strictly newer fence.
pub open spec fn spec_valid_exact_takeover_lease(
    lease: GatewayServiceInstanceLease,
    owner: GatewayServiceOwner,
    previous: GatewayServiceInstanceLease,
) -> bool {
    &&& spec_valid_recovery_lease(lease, owner)
    &&& lease.identity == previous.identity
    &&& lease.vm_id@ == previous.vm_id@
    &&& lease.fencing_token > previous.fencing_token
}

/// Returns whether a takeover kept the identity and VM under a newer fence.
pub fn valid_exact_takeover_lease(
    lease: &GatewayServiceInstanceLease,
    owner: &GatewayServiceOwner,
    previous: &GatewayServiceInstanceLease,
) -> (valid: bool)
    ensures
        valid == spec_valid_exact_takeover_lease(*lease, *owner, *previous),
{
    valid_recovery_lease(lease, owner) && lease.identity == previous.identity
        && text_eq(lease.vm_id.as_str(), previous.vm_id.as_str()) && lease.fencing_token > previous.fencing_token
}

/// What the parent does next when no cleanup job has just finished.
#[derive(Debug, Clone, PartialEq, Eq)]
pub enum GatewayServiceBootRecoveryStep {
    /// Start a retry for each of these retained states.
    StartRetries(Vec<GatewayServiceBootRecoveryUnresolved>),
    /// Await the claim already in flight.
    AwaitClaim,
    /// Report this event to the parent.
    Report(GatewayServiceBootRecoveryEvent),
    /// Await one of the running cleanup jobs.
    AwaitCleanup,
    /// List the first page of the host's service instances.
    ListInventory,
}

/// How a fresh claim is made from a non-empty inventory.
#[derive(Debug, Clone, PartialEq, Eq)]
pub enum GatewayServiceBootRecoveryClaim {
    /// Renew these own `Stopping` rows one by one.
    RenewOwnStopping(Vec<GatewayServiceInstanceLease>),
    /// Claim up to this many expired rows.
    ClaimExpired(usize),
}

/// What the parent does with a listed inventory.
#[derive(Debug, PartialEq, Eq)]
pub enum GatewayServiceBootRecoveryInventoryStep {
    /// Start this claim.
    Claim(GatewayServiceBootRecoveryClaim),
    /// No slot is free: poll again.
    Continue,
    /// Report this event or error.
    Report(Result<GatewayServiceBootRecoveryEvent, GatewayServiceBootRecoveryError>),
}

/// What finishing a claim yields: cleanup jobs to start (even when an error
/// follows) and the parent-visible result.
#[derive(Debug, PartialEq, Eq)]
pub struct GatewayServiceBootRecoveryClaimDecision {
    /// One cleanup job to start for each of these states.
    pub start: Vec<GatewayServiceBootRecoveryUnresolved>,
    /// The parent-visible result.
    pub result: Result<GatewayServiceBootRecoveryEvent, GatewayServiceBootRecoveryError>,
}

/// One renewal inside a claim of own `Stopping` rows.
#[derive(Debug, Clone, PartialEq, Eq)]
pub enum GatewayServiceBootRecoveryRenewal {
    /// Keep the renewed lease.
    Keep(GatewayServiceInstanceLease),
    /// Skip a stale or malformed renewal.
    Skip,
    /// Stop the claim with this error; leases kept so far are known.
    Abort(GatewayServiceOwnershipError),
}

/// Decides one renewal of an own `Stopping` row.
pub fn renewal_step(
    result: Result<GatewayServiceInstanceLease, GatewayServiceOwnershipError>,
    owner: &GatewayServiceOwner,
    candidate: &GatewayServiceInstanceLease,
) -> (step: GatewayServiceBootRecoveryRenewal)
    ensures
        step == (match result {
            Ok(lease) => if spec_valid_owned_recovery_lease(lease, *owner, *candidate) {
                GatewayServiceBootRecoveryRenewal::Keep(lease)
            } else {
                GatewayServiceBootRecoveryRenewal::Skip
            },
            Err(GatewayServiceOwnershipError::StaleLease) => GatewayServiceBootRecoveryRenewal::Skip,
            Err(e) => GatewayServiceBootRecoveryRenewal::Abort(e),
        }),
{
    match result {
        Ok(lease) => {
            if valid_owned_recovery_lease(&lease, owner, candidate) {
                GatewayServiceBootRecoveryRenewal::Keep(lease)
            } else {
                GatewayServiceBootRecoveryRenewal::Skip
            }
        },
        Err(GatewayServiceOwnershipError::StaleLease) => GatewayServiceBootRecoveryRenewal::Skip,
        Err(e) => GatewayServiceBootRecoveryRenewal::Abort(e),
    }
}

/// Decides an exact takeover before a retained retry: the new lease must be
/// a valid takeover of the old one.
pub fn takeover_result(
    result: Result<GatewayServiceInstanceLease, GatewayServiceOwnershipError>,
    owner: &GatewayServiceOwner,
    previous: &GatewayServiceInstanceLease,
) -> (taken: Result<GatewayServiceInstanceLease, GatewayServiceCleanupDriverError>)
    ensures
        taken == (match result {
            Ok(lease) => if spec_valid_exact_takeover_lease(lease, *owner, *previous) {
                Ok(lease)
            } else {
                Err(GatewayServiceCleanupDriverError::Stale)
            },
            Err(GatewayServiceOwnershipError::StaleLease) => Err(GatewayServiceCleanupDriverError::Stale),
            Err(_) => Err(GatewayServiceCleanupDriverError::Unavailable),
        }),
{
    match result {
        Ok(lease) => {
            if valid_exact_takeover_lease(&lease, owner, previous) {
                Ok(lease)
            } else {
                Err(GatewayServiceCleanupDriverError::Stale)
            }
        },
        Err(GatewayServiceOwnershipError::StaleLease) => Err(GatewayServiceCleanupDriverError::Stale),
        Err(_) => Err(GatewayServiceCleanupDriverError::Unavailable),
    }
}

/// Parent-owned boot recovery barrier.
#[derive(Debug, Clone, PartialEq, Eq)]
pub struct GatewayServiceBootRecovery {
    owner: GatewayServiceOwner,
    cleanup_policy: GatewayServiceCleanupDriverPolicy,
    shutdown_timeout_nanos: u128,
    claim_in_flight: bool,
    running_cleanups: usize,
    retained: Vec<GatewayServiceBootRecoveryUnresolved>,
    unresolved_claims: Vec<GatewayServiceInstanceLease>,
    blocked_on_malformed_claim: bool,
    retry_scheduled: bool,
    complete: bool,
}

impl GatewayServiceBootRecovery {
    /// The barrier's invariant: valid context, at most the maximum of
    /// concurrent cleanups, retained states well formed, raw claims kept only
    /// while blocked, and completion only with nothing in flight or kept.
    pub closed spec fn wf(&self) -> bool {
        &&& self.owner.spec_valid()
        &&& self.cleanup_policy.spec_valid()
        &&& 0 < self.shutdown_timeout_nanos <= MAX_SHUTDOWN_TIMEOUT_NANOS
        &&& self.running_cleanups <= MAX_SERVICE_BOOT_RECOVERY_CLEANUPS
        &&& forall|i: int| 0 <= i < self.retained@.len() ==> (#[trigger] self.retained@[i]).cleanup.wf()
        &&& !self.blocked_on_malformed_claim ==> self.unresolved_claims@.len() == 0
        &&& self.complete ==> {
            &&& self.running_cleanups == 0
            &&& self.retained@.len() == 0
            &&& !self.claim_in_flight
            &&& !self.blocked_on_malformed_claim
        }
    }

    /// Number of cleanup jobs the parent is running.
    pub closed spec fn spec_running_cleanups(&self) -> nat {
        self.running_cleanups as nat
    }

    /// States retained for a later retry.
    pub closed spec fn spec_retained(&self) -> Seq<GatewayServiceBootRecoveryUnresolved> {
        self.retained@
    }

    /// Raw claims kept because an adapter returned malformed ownership data.
    pub closed spec fn spec_unresolved_claims(&self) -> Seq<GatewayServiceInstanceLease> {
        self.unresolved_claims@
    }

    /// Whether a claim future is in flight.
    pub closed spec fn spec_claim_in_flight(&self) -> bool {
        self.claim_in_flight
    }

    /// Whether a malformed batch closed the barrier for good.
    pub closed spec fn spec_blocked(&self) -> bool {
        self.blocked_on_malformed_claim
    }

    /// Whether the parent must wait the retry delay before the next step.
    pub closed spec fn spec_retry_scheduled(&self) -> bool {
        self.retry_scheduled
    }

    /// Whether an empty fresh inventory has been proven.
    pub closed spec fn spec_complete(&self) -> bool {
        self.complete
    }

    /// The recovering owner.
    pub closed spec fn spec_owner(&self) -> GatewayServiceOwner {
        self.owner
    }

    /// Creates a boot barrier with validated immutable context.
    pub fn new(
        owner: GatewayServiceOwner,
        cleanup_policy: GatewayServiceCleanupDriverPolicy,
        shutdown_timeout_nanos: u128,
    ) -> (result: Result<Self, GatewayServiceBootRecoveryError>)
        ensures
            result is Ok <==> owner.spec_valid() && cleanup_policy.spec_valid() && 0 < shutdown_timeout_nanos
                <= MAX_SHUTDOWN_TIMEOUT_NANOS,
            result matches Err(e) ==> e == GatewayServiceBootRecoveryError::InvalidInput,
            result matches Ok(barrier) ==> {
                &&& barrier.wf()
                &&& barrier.spec_owner() == owner
                &&& barrier.spec_running_cleanups() == 0
                &&& barrier.spec_retained().len() == 0
                &&& barrier.spec_unresolved_claims().len() == 0
                &&& !barrier.spec_claim_in_flight()
                &&& !barrier.spec_blocked()
                &&& !barrier.spec_retry_scheduled()
                &&& !barrier.spec_complete()
            },
    {
        if owner.validate().is_err() || cleanup_policy.validate().is_err() || shutdown_timeout_nanos == 0
            || shutdown_timeout_nanos > MAX_SHUTDOWN_TIMEOUT_NANOS {
            return Err(GatewayServiceBootRecoveryError::InvalidInput);
        }
        Ok(GatewayServiceBootRecovery {
            owner,
            cleanup_policy,
            shutdown_timeout_nanos,
            claim_in_flight: false,
            running_cleanups: 0,
            retained: Vec::new(),
            unresolved_claims: Vec::new(),
            blocked_on_malformed_claim: false,
            retry_scheduled: false,
            complete: false,
        })
    }

    /// Returns whether the barrier has proven an empty fresh host inventory.
    pub fn is_complete(&self) -> (complete: bool)
        ensures
            complete == self.spec_complete(),
    {
        self.complete
    }

    /// Returns whether a claim or cleanup future remains owned.
    pub fn has_pending_work(&self) -> (pending: bool)
        ensures
            pending == (self.spec_claim_in_flight() || self.spec_running_cleanups() > 0),
    {
        self.claim_in_flight || self.running_cleanups > 0
    }

    /// Takes the scheduled retry delay, if any; the parent then sleeps for
    /// the delay before its next step.
    pub fn take_retry_delay(&mut self) -> (delay: bool)
        requires
            old(self).wf(),
        ensures
            final(self).wf(),
            delay == old(self).spec_retry_scheduled(),
            !final(self).spec_retry_scheduled(),
            final(self).spec_running_cleanups() == old(self).spec_running_cleanups(),
            final(self).spec_retained() == old(self).spec_retained(),
            final(self).spec_unresolved_claims() == old(self).spec_unresolved_claims(),
            final(self).spec_claim_in_flight() == old(self).spec_claim_in_flight(),
            final(self).spec_blocked() == old(self).spec_blocked(),
            final(self).spec_complete() == old(self).spec_complete(),
            final(self).spec_owner() == old(self).spec_owner(),
    {
        let delay = self.retry_scheduled;
        self.retry_scheduled = false;
        delay
    }

    /// Records a finished cleanup job: a cleaned row is dropped, anything
    /// else is retained for a later retry, and the last job to finish
    /// schedules the retry delay.
    pub fn finish_cleanup(
        &mut self,
        state: GatewayServiceBootRecoveryUnresolved,
        result: Result<GatewayServiceCleanupDriverOutcome, GatewayServiceCleanupDriverError>,
    ) -> (event: GatewayServiceBootRecoveryEvent)
        requires
            old(self).wf(),
            old(self).spec_running_cleanups() > 0,
            state.cleanup.wf(),
        ensures
            final(self).wf(),
            event == GatewayServiceBootRecoveryEvent::Pending,
            final(self).spec_running_cleanups() == old(self).spec_running_cleanups() - 1,
            final(self).spec_retained() == (if result == Ok::<GatewayServiceCleanupDriverOutcome, GatewayServiceCleanupDriverError>(
                GatewayServiceCleanupDriverOutcome::Cleaned,
            ) {
                old(self).spec_retained()
            } else {
                old(self).spec_retained().push(state)
            }),
            final(self).spec_retry_scheduled() == (old(self).spec_retry_scheduled() || final(self).spec_running_cleanups() == 0),
            final(self).spec_unresolved_claims() == old(self).spec_unresolved_claims(),
            final(self).spec_blocked() == old(self).spec_blocked(),
            final(self).spec_claim_in_flight() == old(self).spec_claim_in_flight(),
            final(self).spec_complete() == old(self).spec_complete(),
            final(self).spec_owner() == old(self).spec_owner(),
    {
        self.running_cleanups = self.running_cleanups - 1;
        let cleaned = match result {
            Ok(GatewayServiceCleanupDriverOutcome::Cleaned) => true,
            _ => false,
        };
        if !cleaned {
            self.retained.push(state);
        }
        if self.running_cleanups == 0 {
            self.retry_scheduled = true;
        }
        GatewayServiceBootRecoveryEvent::Pending
    }

    /// Moves as many retained states into retry jobs as free slots allow,
    /// oldest first.
    fn schedule_retained_retries(&mut self) -> (started: Vec<GatewayServiceBootRecoveryUnresolved>)
        requires
            old(self).wf(),
        ensures
            final(self).wf(),
            ({
                let available = MAX_SERVICE_BOOT_RECOVERY_CLEANUPS - old(self).running_cleanups;
                let count = if available < old(self).retained@.len() { available } else { old(self).retained@.len() as int };
                &&& started@ == old(self).retained@.take(count)
                &&& final(self).retained@ == old(self).retained@.skip(count)
                &&& final(self).running_cleanups == old(self).running_cleanups + count
            }),
            final(self).unresolved_claims == old(self).unresolved_claims,
            final(self).blocked_on_malformed_claim == old(self).blocked_on_malformed_claim,
            final(self).claim_in_flight == old(self).claim_in_flight,
            final(self).complete == old(self).complete,
            final(self).retry_scheduled == old(self).retry_scheduled,
            final(self).owner == old(self).owner,
            final(self).cleanup_policy == old(self).cleanup_policy,
            final(self).shutdown_timeout_nanos == old(self).shutdown_timeout_nanos,
    {
        let available = MAX_SERVICE_BOOT_RECOVERY_CLEANUPS - self.running_cleanups;
        let count = if available < self.retained.len() { available } else { self.retained.len() };
        let mut source: Vec<GatewayServiceBootRecoveryUnresolved> = Vec::new();
        std::mem::swap(&mut source, &mut self.retained);
        let ghost all = source@;
        let total = source.len();
        let mut started: Vec<GatewayServiceBootRecoveryUnresolved> = Vec::new();
        let mut rest: Vec<GatewayServiceBootRecoveryUnresolved> = Vec::new();
        let mut i: usize = 0;
        while source.len() > 0
            invariant
                total == all.len(),
                i + source@.len() == all.len(),
                count <= all.len(),
                started@ == all.take(if i < count { i as int } else { count as int }),
                rest@ == (if i < count { Seq::<GatewayServiceBootRecoveryUnresolved>::empty() } else { all.subrange(count as int, i as int) }),
                source@ == all.skip(i as int),
            decreases source@.len(),
        {
            let state = source.remove(0);
            assert(state == all[i as int]);
            if i < count {
                started.push(state);
                assert(started@ =~= all.take(i as int + 1));
            } else {
                rest.push(state);
                assert(rest@ =~= all.subrange(count as int, i as int + 1));
            }
            assert(source@ =~= all.skip(i as int + 1));
            i += 1;
        }
        if i < count {
            assert(false);
        }
        assert(rest@ =~= all.skip(count as int));
        assert forall|k: int| 0 <= k < rest@.len() implies (#[trigger] rest@[k]).cleanup.wf() by {
            assert(rest@[k] == all[count + k]);
        }
        self.retained = rest;
        assert(count <= available);
        self.running_cleanups = self.running_cleanups + count;
        started
    }

    /// Decides the next step when no cleanup job has just finished: start
    /// retained retries first, then await an in-flight claim, then report
    /// completion, then wait out a malformed batch, then await running
    /// cleanups, and only then list a fresh inventory.
    pub fn next_step(&mut self) -> (step: GatewayServiceBootRecoveryStep)
        requires
            old(self).wf(),
        ensures
            final(self).wf(),
            final(self).spec_owner() == old(self).spec_owner(),
            final(self).spec_blocked() == old(self).spec_blocked(),
            final(self).spec_complete() == old(self).spec_complete(),
            final(self).spec_unresolved_claims() == old(self).spec_unresolved_claims(),
            final(self).spec_claim_in_flight() == old(self).spec_claim_in_flight(),
            ({
                let free = MAX_SERVICE_BOOT_RECOVERY_CLEANUPS - old(self).spec_running_cleanups();
                if free > 0 && old(self).spec_retained().len() > 0 {
                    let count = if free < old(self).spec_retained().len() { free } else { old(self).spec_retained().len() as int };
                    &&& step matches GatewayServiceBootRecoveryStep::StartRetries(started)
                        && started@ == old(self).spec_retained().take(count)
                    &&& final(self).spec_retained() == old(self).spec_retained().skip(count)
                    &&& final(self).spec_running_cleanups() == old(self).spec_running_cleanups() + count
                    &&& final(self).spec_retry_scheduled() == old(self).spec_retry_scheduled()
                } else {
                    &&& final(self).spec_retained() == old(self).spec_retained()
                    &&& final(self).spec_running_cleanups() == old(self).spec_running_cleanups()
                    &&& if old(self).spec_claim_in_flight() {
                        step == GatewayServiceBootRecoveryStep::AwaitClaim
                            && final(self).spec_retry_scheduled() == old(self).spec_retry_scheduled()
                    } else if old(self).spec_complete() {
                        step == GatewayServiceBootRecoveryStep::Report(GatewayServiceBootRecoveryEvent::Complete)
                            && final(self).spec_retry_scheduled() == old(self).spec_retry_scheduled()
                    } else if old(self).spec_blocked() {
                        step == GatewayServiceBootRecoveryStep::Report(GatewayServiceBootRecoveryEvent::Waiting)
                            && final(self).spec_retry_scheduled()
                    } else if old(self).spec_running_cleanups() > 0 || old(self).spec_retained().len() > 0 {
                        step == GatewayServiceBootRecoveryStep::AwaitCleanup
                            && final(self).spec_retry_scheduled() == old(self).spec_retry_scheduled()
                    } else {
                        step == GatewayServiceBootRecoveryStep::ListInventory
                            && final(self).spec_retry_scheduled() == old(self).spec_retry_scheduled()
                    }
                }
            }),
    {
        if self.running_cleanups < MAX_SERVICE_BOOT_RECOVERY_CLEANUPS && self.retained.len() > 0 {
            let started = self.schedule_retained_retries();
            return GatewayServiceBootRecoveryStep::StartRetries(started);
        }
        if self.claim_in_flight {
            return GatewayServiceBootRecoveryStep::AwaitClaim;
        }
        if self.complete {
            return GatewayServiceBootRecoveryStep::Report(GatewayServiceBootRecoveryEvent::Complete);
        }
        if self.blocked_on_malformed_claim {
            self.retry_scheduled = true;
            return GatewayServiceBootRecoveryStep::Report(GatewayServiceBootRecoveryEvent::Waiting);
        }
        if self.running_cleanups > 0 || self.retained.len() > 0 {
            return GatewayServiceBootRecoveryStep::AwaitCleanup;
        }
        GatewayServiceBootRecoveryStep::ListInventory
    }

    /// Decides a listed first inventory page: an unavailable listing
    /// schedules a retry, an empty page completes the barrier, and otherwise
    /// up to the free slots of own `Stopping` rows are renewed, or as many
    /// expired rows are claimed.
    pub fn plan_inventory(
        &mut self,
        inventory: Result<Vec<GatewayServiceInstanceLease>, ()>,
    ) -> (step: GatewayServiceBootRecoveryInventoryStep)
        requires
            old(self).wf(),
            !old(self).spec_claim_in_flight(),
            !old(self).spec_blocked(),
            !old(self).spec_complete(),
            old(self).spec_running_cleanups() == 0,
            old(self).spec_retained().len() == 0,
        ensures
            final(self).wf(),
            final(self).spec_owner() == old(self).spec_owner(),
            final(self).spec_running_cleanups() == 0,
            final(self).spec_retained().len() == 0,
            final(self).spec_unresolved_claims() == old(self).spec_unresolved_claims(),
            !final(self).spec_blocked(),
            final(self).spec_complete() == (inventory matches Ok(rows) && rows@.len() == 0),
            match inventory {
                Err(_) => step == GatewayServiceBootRecoveryInventoryStep::Report(Err(GatewayServiceBootRecoveryError::Unavailable))
                    && final(self).spec_retry_scheduled() && !final(self).spec_claim_in_flight(),
                Ok(rows) => if rows@.len() == 0 {
                    step == GatewayServiceBootRecoveryInventoryStep::Report(Ok(GatewayServiceBootRecoveryEvent::Complete))
                        && !final(self).spec_claim_in_flight()
                        && final(self).spec_retry_scheduled() == old(self).spec_retry_scheduled()
                } else {
                    &&& final(self).spec_claim_in_flight()
                    &&& final(self).spec_retry_scheduled() == old(self).spec_retry_scheduled()
                    &&& step matches GatewayServiceBootRecoveryInventoryStep::Claim(claim)
                    &&& match claim {
                        GatewayServiceBootRecoveryClaim::RenewOwnStopping(own) => {
                            &&& 0 < own@.len() <= MAX_SERVICE_BOOT_RECOVERY_CLEANUPS
                            &&& own@ == spec_own_stopping(rows@, old(self).spec_owner(), MAX_SERVICE_BOOT_RECOVERY_CLEANUPS as nat)
                            &&& forall|j: int| 0 <= j < own@.len() ==> {
                                &&& rows@.contains(#[trigger] own@[j])
                                &&& own@[j].owner_host_id@ == old(self).spec_owner().host_id@
                                &&& own@[j].owner_uuid == old(self).spec_owner().owner_uuid
                                &&& own@[j].state == GatewayServiceInstanceState::Stopping
                            }
                        },
                        GatewayServiceBootRecoveryClaim::ClaimExpired(limit) => {
                            &&& limit == MAX_SERVICE_BOOT_RECOVERY_CLEANUPS
                            &&& spec_own_stopping(rows@, old(self).spec_owner(), MAX_SERVICE_BOOT_RECOVERY_CLEANUPS as nat).len() == 0
                        },
                    }
                },
            },
    {
        match inventory {
            Err(()) => {
                self.retry_scheduled = true;
                GatewayServiceBootRecoveryInventoryStep::Report(Err(GatewayServiceBootRecoveryError::Unavailable))
            },
            Ok(rows) => {
                if rows.len() == 0 {
                    self.complete = true;
                    return GatewayServiceBootRecoveryInventoryStep::Report(Ok(GatewayServiceBootRecoveryEvent::Complete));
                }
                let limit = MAX_SERVICE_BOOT_RECOVERY_CLEANUPS;
                let own = own_stopping(&rows, &self.owner, limit);
                proof {
                    lemma_own_stopping_selects_own_claims(rows@, self.owner, limit as nat);
                }
                self.claim_in_flight = true;
                if own.len() == 0 {
                    GatewayServiceBootRecoveryInventoryStep::Claim(GatewayServiceBootRecoveryClaim::ClaimExpired(limit))
                } else {
                    GatewayServiceBootRecoveryInventoryStep::Claim(GatewayServiceBootRecoveryClaim::RenewOwnStopping(own))
                }
            },
        }
    }

    /// Starts cleanup jobs for claimed leases.  An oversized or malformed
    /// batch is kept whole as raw claims and closes the barrier for good.
    fn enqueue_claim_leases(&mut self, leases: Vec<GatewayServiceInstanceLease>) -> (decision: GatewayServiceBootRecoveryClaimDecision)
        requires
            old(self).wf(),
            old(self).running_cleanups == 0,
            !old(self).complete,
        ensures
            final(self).wf(),
            final(self).owner == old(self).owner,
            final(self).retained == old(self).retained,
            final(self).claim_in_flight == old(self).claim_in_flight,
            final(self).retry_scheduled == old(self).retry_scheduled,
            !final(self).complete,
            old(self).blocked_on_malformed_claim ==> final(self).blocked_on_malformed_claim,
            if spec_batch_acceptable(leases@, old(self).owner) {
                &&& decision.result == Ok::<GatewayServiceBootRecoveryEvent, GatewayServiceBootRecoveryError>(GatewayServiceBootRecoveryEvent::Pending)
                &&& decision.start@.len() == leases@.len()
                &&& forall|i: int| 0 <= i < leases@.len() ==> #[trigger] decision.start@[i].lease == leases@[i]
                    && decision.start@[i].pending_failure is None
                    && !decision.start@[i].cleanup.spec_vm_teardown_confirmed()
                    && !decision.start@[i].cleanup.spec_materializer_cleanup_confirmed()
                    && decision.start@[i].cleanup.spec_identity() == leases@[i].identity
                &&& final(self).running_cleanups == leases@.len()
                &&& final(self).unresolved_claims == old(self).unresolved_claims
                &&& final(self).blocked_on_malformed_claim == old(self).blocked_on_malformed_claim
            } else {
                &&& decision.result == Err::<GatewayServiceBootRecoveryEvent, GatewayServiceBootRecoveryError>(GatewayServiceBootRecoveryError::InvalidInput)
                &&& decision.start@.len() == 0
                &&& final(self).running_cleanups == 0
                &&& final(self).unresolved_claims@ == old(self).unresolved_claims@ + leases@
                &&& final(self).blocked_on_malformed_claim
            },
    {
        let mut valid = leases.len() <= MAX_SERVICE_BOOT_RECOVERY_CLEANUPS;
        let mut k: usize = 0;
        while k < leases.len()
            invariant
                k <= leases@.len(),
                valid <==> (leases@.len() <= MAX_SERVICE_BOOT_RECOVERY_CLEANUPS
                    && forall|j: int| 0 <= j < k ==> spec_valid_recovery_lease(#[trigger] leases@[j], self.owner)),
            decreases leases@.len() - k,
        {
            if !valid_recovery_lease(&leases[k], &self.owner) {
                valid = false;
            }
            k += 1;
        }
        if !valid {
            let ghost before = self.unresolved_claims@;
            let mut leases = leases;
            self.unresolved_claims.append(&mut leases);
            self.blocked_on_malformed_claim = true;
            return GatewayServiceBootRecoveryClaimDecision {
                start: Vec::new(),
                result: Err(GatewayServiceBootRecoveryError::InvalidInput),
            };
        }
        let ghost all = leases@;
        let timeout = self.shutdown_timeout_nanos;
        let ghost owner = self.owner;
        let mut start: Vec<GatewayServiceBootRecoveryUnresolved> = Vec::new();
        let mut remaining = leases;
        let mut n: usize = 0;
        while remaining.len() > 0
            invariant
                0 < timeout <= MAX_SHUTDOWN_TIMEOUT_NANOS,
                n + remaining@.len() == all.len(),
                all.len() <= MAX_SERVICE_BOOT_RECOVERY_CLEANUPS,
                remaining@ == all.skip(n as int),
                start@.len() == n,
                forall|j: int| 0 <= j < all.len() ==> spec_valid_recovery_lease(#[trigger] all[j], owner),
                forall|i: int| 0 <= i < n ==> #[trigger] start@[i].lease == all[i]
                    && start@[i].pending_failure is None
                    && start@[i].cleanup.wf()
                    && !start@[i].cleanup.spec_vm_teardown_confirmed()
                    && !start@[i].cleanup.spec_materializer_cleanup_confirmed()
                    && start@[i].cleanup.spec_identity() == all[i].identity,
            decreases remaining@.len(),
        {
            let lease = remaining.remove(0);
            assert(lease == all[n as int]);
            assert(remaining@ =~= all.skip(n as int + 1));
            let created = GatewayServiceCleanup::new(lease.identity, None, timeout);
            match created {
                Ok(cleanup) => {
                    start.push(GatewayServiceBootRecoveryUnresolved { lease, cleanup, pending_failure: None });
                },
                Err(_) => {
                    assert(spec_valid_recovery_lease(all[n as int], owner));
                    assert(false);
                    return GatewayServiceBootRecoveryClaimDecision {
                        start,
                        result: Err(GatewayServiceBootRecoveryError::InvalidInput),
                    };
                },
            }
            n += 1;
        }
        self.running_cleanups = n;
        GatewayServiceBootRecoveryClaimDecision { start, result: Ok(GatewayServiceBootRecoveryEvent::Pending) }
    }

    /// Records a finished claim.  Claimed leases start cleanup jobs; an
    /// unavailable claim still starts jobs for the leases renewed before it
    /// failed and schedules a retry; a claim that found nothing waits.
    pub fn finish_claim(
        &mut self,
        result: Result<Vec<GatewayServiceInstanceLease>, GatewayServiceOwnershipError>,
        known_leases: Vec<GatewayServiceInstanceLease>,
    ) -> (decision: GatewayServiceBootRecoveryClaimDecision)
        requires
            old(self).wf(),
            old(self).spec_claim_in_flight(),
            old(self).spec_running_cleanups() == 0,
        ensures
            final(self).wf(),
            !final(self).spec_claim_in_flight(),
            !final(self).spec_complete(),
            final(self).spec_owner() == old(self).spec_owner(),
            final(self).spec_retained() == old(self).spec_retained(),
            old(self).spec_blocked() ==> final(self).spec_blocked(),
            ({
                let batch = match result { Ok(leases) => leases@, Err(_) => known_leases@ };
                let acceptable = spec_batch_acceptable(batch, old(self).spec_owner());
                let started = result is Ok || batch.len() > 0;
                &&& (started && !acceptable) ==> {
                    &&& decision.result == Err::<GatewayServiceBootRecoveryEvent, GatewayServiceBootRecoveryError>(GatewayServiceBootRecoveryError::InvalidInput)
                    &&& decision.start@.len() == 0
                    &&& final(self).spec_unresolved_claims() == old(self).spec_unresolved_claims() + batch
                    &&& final(self).spec_blocked()
                    &&& final(self).spec_retry_scheduled() == old(self).spec_retry_scheduled()
                }
                &&& (!started || acceptable) ==> {
                    &&& decision.start@.len() == (if started { batch.len() } else { 0 })
                    &&& forall|i: int| 0 <= i < decision.start@.len() ==> (#[trigger] decision.start@[i]).lease == batch[i]
                    &&& final(self).spec_running_cleanups() == decision.start@.len()
                    &&& final(self).spec_unresolved_claims() == old(self).spec_unresolved_claims()
                    &&& final(self).spec_blocked() == old(self).spec_blocked()
                    &&& result is Err ==> decision.result == Err::<GatewayServiceBootRecoveryEvent, GatewayServiceBootRecoveryError>(
                        GatewayServiceBootRecoveryError::Unavailable,
                    )
                    &&& result matches Ok(leases) ==> decision.result == Ok::<GatewayServiceBootRecoveryEvent, GatewayServiceBootRecoveryError>(
                        if leases@.len() == 0 {
                            GatewayServiceBootRecoveryEvent::Waiting
                        } else {
                            GatewayServiceBootRecoveryEvent::Pending
                        },
                    )
                    &&& final(self).spec_retry_scheduled() == (old(self).spec_retry_scheduled() || result is Err
                        || (result matches Ok(leases) && leases@.len() == 0))
                }
            }),
    {
        self.claim_in_flight = false;
        match result {
            Err(_) => {
                let mut start: Vec<GatewayServiceBootRecoveryUnresolved> = Vec::new();
                if known_leases.len() > 0 {
                    let decision = self.enqueue_claim_leases(known_leases);
                    if decision.result.is_err() {
                        return decision;
                    }
                    start = decision.start;
                }
                self.retry_scheduled = true;
                GatewayServiceBootRecoveryClaimDecision { start, result: Err(GatewayServiceBootRecoveryError::Unavailable) }
            },
            Ok(leases) => {
                let has_leases = leases.len() > 0;
                let decision = self.enqueue_claim_leases(leases);
                if decision.result.is_err() {
                    return decision;
                }
                if !has_leases {
                    self.retry_scheduled = true;
                    return GatewayServiceBootRecoveryClaimDecision {
                        start: decision.start,
                        result: Ok(GatewayServiceBootRecoveryEvent::Waiting),
                    };
                }
                decision
            },
        }
    }

    /// Consumes the barrier once no claim or cleanup future remains: every
    /// retained state and raw claim is handed back.
    pub fn shutdown(self) -> (report: GatewayServiceBootRecoveryShutdown)
        ensures
            report.unresolved@ == self.spec_retained(),
            report.unresolved_claims@ == self.spec_unresolved_claims(),
    {
        GatewayServiceBootRecoveryShutdown { unresolved: self.retained, unresolved_claims: self.unresolved_claims }
    }
}

/// A claimed batch the barrier accepts: at most the maximum of concurrent
/// cleanups, each a valid recovery lease of the owner.
pub open spec fn spec_batch_acceptable(leases: Seq<GatewayServiceInstanceLease>, owner: GatewayServiceOwner) -> bool {
    leases.len() <= MAX_SERVICE_BOOT_RECOVERY_CLEANUPS
        && forall|j: int| 0 <= j < leases.len() ==> spec_valid_recovery_lease(#[trigger] leases[j], owner)
}

/// Whether an inventory row is this owner's own `Stopping` claim.
pub open spec fn spec_is_own_stopping(lease: GatewayServiceInstanceLease, owner: GatewayServiceOwner) -> bool {
    lease.owner_host_id@ == owner.host_id@ && lease.owner_uuid == owner.owner_uuid
        && lease.state == GatewayServiceInstanceState::Stopping
}

/// The first `limit` own `Stopping` rows of an inventory, in order.
pub open spec fn spec_own_stopping(rows: Seq<GatewayServiceInstanceLease>, owner: GatewayServiceOwner, limit: nat) -> Seq<GatewayServiceInstanceLease>
    decreases rows.len(),
{
    if rows.len() == 0 || limit == 0 {
        Seq::empty()
    } else if spec_is_own_stopping(rows[0], owner) {
        seq![rows[0]] + spec_own_stopping(rows.drop_first(), owner, (limit - 1) as nat)
    } else {
        spec_own_stopping(rows.drop_first(), owner, limit)
    }
}

/// Boot recovery renews only this owner's own claims: every row picked for
/// renewal comes from the inventory, lies on the owner's host, carries the
/// owner's own UUID, and is `Stopping`. When the inventory holds such a row
/// and there is room for one, something is picked.
pub proof fn lemma_own_stopping_selects_own_claims(
    rows: Seq<GatewayServiceInstanceLease>,
    owner: GatewayServiceOwner,
    limit: nat,
)
    ensures
        forall|j: int| 0 <= j < spec_own_stopping(rows, owner, limit).len() ==> {
            let lease = #[trigger] spec_own_stopping(rows, owner, limit)[j];
            &&& rows.contains(lease)
            &&& lease.owner_host_id@ == owner.host_id@
            &&& lease.owner_uuid == owner.owner_uuid
            &&& lease.state == GatewayServiceInstanceState::Stopping
        },
        limit > 0 && (exists|i: int| 0 <= i < rows.len() && {
            let row = #[trigger] rows[i];
            &&& row.owner_host_id@ == owner.host_id@
            &&& row.owner_uuid == owner.owner_uuid
            &&& row.state == GatewayServiceInstanceState::Stopping
        }) ==> spec_own_stopping(rows, owner, limit).len() > 0,
    decreases rows.len(),
{
    if rows.len() > 0 && limit > 0 {
        let rest = rows.drop_first();
        let picked = spec_own_stopping(rows, owner, limit);
        if spec_is_own_stopping(rows[0], owner) {
            lemma_own_stopping_selects_own_claims(rest, owner, (limit - 1) as nat);
            let tail = spec_own_stopping(rest, owner, (limit - 1) as nat);
            assert forall|j: int| 0 <= j < picked.len() implies rows.contains(#[trigger] picked[j]) by {
                if j == 0 {
                    assert(rows[0] == picked[0]);
                } else {
                    assert(picked[j] == tail[j - 1]);
                    let k = choose|k: int| 0 <= k < rest.len() && rest[k] == tail[j - 1];
                    assert(rows[k + 1] == rest[k]);
                }
            }
        } else {
            lemma_own_stopping_selects_own_claims(rest, owner, limit);
            assert forall|j: int| 0 <= j < picked.len() implies rows.contains(#[trigger] picked[j]) by {
                let k = choose|k: int| 0 <= k < rest.len() && rest[k] == picked[j];
                assert(rows[k + 1] == rest[k]);
            }
            if exists|i: int| 0 <= i < rows.len() && {
                let row = #[trigger] rows[i];
                &&& row.owner_host_id@ == owner.host_id@
                &&& row.owner_uuid == owner.owner_uuid
                &&& row.state == GatewayServiceInstanceState::Stopping
            } {
                let i = choose|i: int| 0 <= i < rows.len() && {
                    let row = #[trigger] rows[i];
                    &&& row.owner_host_id@ == owner.host_id@
                    &&& row.owner_uuid == owner.owner_uuid
                    &&& row.state == GatewayServiceInstanceState::Stopping
                };
                assert(i > 0);
                assert(rest[i - 1] == rows[i]);
            }
        }
    }
}

proof fn lemma_own_stopping_len(rows: Seq<GatewayServiceInstanceLease>, owner: GatewayServiceOwner, limit: nat)
    ensures
        spec_own_stopping(rows, owner, limit).len() <= limit,
    decreases rows.len(),
{
    if rows.len() > 0 && limit > 0 {
        if spec_is_own_stopping(rows[0], owner) {
            lemma_own_stopping_len(rows.drop_first(), owner, (limit - 1) as nat);
        } else {
            lemma_own_stopping_len(rows.drop_first(), owner, limit);
        }
    }
}

/// Selecting from `rows[i..]` after picking from `rows[..i]` is selecting from `rows`.
proof fn lemma_own_stopping_step(rows: Seq<GatewayServiceInstanceLease>, owner: GatewayServiceOwner, limit: nat, i: int)
    requires
        0 <= i < rows.len(),
        limit > 0,
    ensures
        spec_own_stopping(rows.skip(i), owner, limit) == (if spec_is_own_stopping(rows[i], owner) {
            seq![rows[i]] + spec_own_stopping(rows.skip(i + 1), owner, (limit - 1) as nat)
        } else {
            spec_own_stopping(rows.skip(i + 1), owner, limit)
        }),
{
    assert(rows.skip(i).drop_first() =~= rows.skip(i + 1));
    assert(rows.skip(i)[0] == rows[i]);
}

/// Returns the first `limit` own `Stopping` rows of an inventory, in order.
fn own_stopping(rows: &Vec<GatewayServiceInstanceLease>, owner: &GatewayServiceOwner, limit: usize) -> (own: Vec<GatewayServiceInstanceLease>)
    ensures
        own@ == spec_own_stopping(rows@, *owner, limit as nat),
        own@.len() <= limit,
{
    let mut own: Vec<GatewayServiceInstanceLease> = Vec::new();
    let mut i: usize = 0;
    assert(rows@.skip(0) =~= rows@);
    assert(own@ + spec_own_stopping(rows@, *owner, limit as nat) =~= spec_own_stopping(rows@, *owner, limit as nat));
    while i < rows.len() && own.len() < limit
        invariant
            i <= rows@.len(),
            own@.len() <= limit,
            own@ + spec_own_stopping(rows@.skip(i as int), *owner, (limit - own@.len()) as nat)
                == spec_own_stopping(rows@, *owner, limit as nat),
        decreases rows@.len() - i,
    {
        proof {
            lemma_own_stopping_step(rows@, *owner, (limit - own@.len()) as nat, i as int);
        }
        let row = &rows[i];
        if text_eq(row.owner_host_id.as_str(), owner.host_id.as_str()) && row.owner_uuid == owner.owner_uuid
            && row.state == GatewayServiceInstanceState::Stopping {
            let ghost before = own@;
            own.push(copy_lease(row));
            proof {
                assert(own@ == before + seq![rows@[i as int]]);
                assert(before + seq![rows@[i as int]] + spec_own_stopping(rows@.skip(i as int + 1), *owner, (limit - own@.len()) as nat)
                    =~= before + (seq![rows@[i as int]] + spec_own_stopping(rows@.skip(i as int + 1), *owner, (limit - own@.len()) as nat)));
            }
        }
        i += 1;
    }
    proof {
        if i == rows.len() {
            assert(rows@.skip(i as int) =~= Seq::<GatewayServiceInstanceLease>::empty());
        }
        assert(own@ + spec_own_stopping(rows@.skip(i as int), *owner, (limit - own@.len()) as nat) =~= own@);
        lemma_own_stopping_len(rows@, *owner, limit as nat);
    }
    own
}

/// Copies a lease field by field.
pub fn copy_lease(lease: &GatewayServiceInstanceLease) -> (copy: GatewayServiceInstanceLease)
    ensures
        copy == *lease,
{
    GatewayServiceInstanceLease {
        identity: lease.identity,
        owner_host_id: lease.owner_host_id.clone(),
        owner_uuid: lease.owner_uuid,
        fencing_token: lease.fencing_token,
        state: lease.state,
        vm_id: lease.vm_id.clone(),
        lease_expires_at_nanos: lease.lease_expires_at_nanos,
        heartbeat_at_nanos: lease.heartbeat_at_nanos,
    }
}

} // verus!
