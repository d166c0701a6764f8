//! Startup, readiness and cleanup decisions for one claimed service instance.
//!
//! The coordinator's lease monitor, worker, preparation and durable calls
//! run outside this module; every decision it takes on what they report is
//! made here.
use vstd::prelude::*;
use crate::http_checks::{header_value_valid, spec_header_value_valid};
use crate::ident::{
    GatewayServiceIdentity, GatewayServiceInstanceLease, GatewayServiceInstanceState, GatewayServiceOwner,
    GatewayServiceOwnershipError, service_vm_id, spec_service_vm_id,
};
use crate::policy::{GatewayServiceLeasePolicy, ServiceInstancePolicy};
use crate::service_failure::GatewayServiceFailure;
use crate::service_targets::GatewayServiceOwnedTarget;
use crate::text::text_eq;

verus! {

/// Durable intent for one claimed service instance.
#[derive(Debug, Clone, Copy, PartialEq, Eq, Structural)]
pub enum GatewayServiceStartupIntent {
    /// Start the desired candidate and promote it after readiness.
    ActivateDesired,
    /// Restore the exact active revision without changing revision pointers.
    RestoreActive,
}

/// Observable lifecycle state of one coordinator.
#[derive(Debug, Clone, Copy, PartialEq, Eq, Structural)]
pub enum GatewayServiceCoordinatorStatus {
    /// Resolving, materializing, and provisioning.
    Preparing,
    /// Durable claim is moving into startup ownership.
    Starting,
    /// VM is starting or being probed for readiness.
    Probing,
    /// Exact fenced VM is registered and serving.
    Ready,
    /// Cleanup is stopping the worker and durable claim.
    Stopping,
    /// Physical and durable cleanup completed.
    Stopped,
    /// Cleanup or ownership responsibility remains for the parent.
    Failed,
}

/// Redacted primary reason for coordinator termination.
#[derive(Debug, Clone, Copy, PartialEq, Eq, Structural)]
pub enum GatewayServiceCoordinatorFailureReason {
    /// The parent requested shutdown.
    Cancelled,
    /// The claim was lost or its local lease deadline elapsed.
    LeaseLost,
    /// The startup/readiness deadline elapsed.
    StartupDeadline,
    /// Launch resolution or materialization failed.
    Preparation,
    /// A durable ownership transition failed.
    Ownership,
    /// The worker or registry contract failed.
    Runtime,
    /// Restore-active validation no longer matched the durable target.
    TargetUnavailable,
    /// Provider or materializer cleanup was not confirmed.
    CleanupIncomplete,
}

/// Failure retaining the latest lease and any live cleanup ownership.
#[derive(Debug, Clone, PartialEq, Eq)]
pub struct GatewayServiceCoordinatorFailure {
    /// Exact service identity.
    pub identity: GatewayServiceIdentity,
    /// Most recent lease known by the coordinator.
    pub lease: GatewayServiceInstanceLease,
    /// Primary failure reason.
    pub reason: GatewayServiceCoordinatorFailureReason,
    /// Provider ID of the VM handle retained when destruction did not complete.
    pub vm: Option<String>,
    /// Whether host materialization remains owned.
    pub materialization_owned: bool,
    /// Whether VM and materializer cleanup completed.
    pub physical_cleanup_complete: bool,
    /// Whether the durable row was confirmed `cleaned`.
    pub durable_cleanup_complete: bool,
    /// Failure report still awaiting durable recording.
    pub pending_failure: Option<GatewayServiceFailure>,
}

/// Construction errors for a service coordinator.
#[derive(Debug, Clone, Copy, PartialEq, Eq, Structural)]
pub enum GatewayServiceCoordinatorError {
    /// The lease or owner identity is malformed.
    InvalidIdentity,
    /// A deadline or lease policy is invalid.
    InvalidLeasePolicy,
    /// The probe authority is not a valid HTTP authority.
    InvalidAuthority,
}

/// A failure report is consistent: durable cleanup is confirmed only after
/// physical cleanup, which leaves no VM and no materialization owned.
pub open spec fn spec_failure_consistent(failure: GatewayServiceCoordinatorFailure) -> bool {
    &&& failure.durable_cleanup_complete ==> failure.physical_cleanup_complete
    &&& failure.physical_cleanup_complete ==> failure.vm is None && !failure.materialization_owned
    &&& failure.identity == failure.lease.identity
}

/// Builds a failure report on a lease.
pub open spec fn spec_failure(
    lease: GatewayServiceInstanceLease,
    reason: GatewayServiceCoordinatorFailureReason,
    vm: Option<String>,
    materialization_owned: bool,
    physical: bool,
    durable: bool,
) -> GatewayServiceCoordinatorFailure {
    GatewayServiceCoordinatorFailure {
        identity: lease.identity,
        lease,
        reason,
        vm,
        materialization_owned,
        physical_cleanup_complete: physical,
        durable_cleanup_complete: durable,
        pending_failure: None,
    }
}

fn failure(
    lease: GatewayServiceInstanceLease,
    reason: GatewayServiceCoordinatorFailureReason,
    vm: Option<String>,
    materialization_owned: bool,
    physical: bool,
    durable: bool,
) -> (f: GatewayServiceCoordinatorFailure)
    ensures
        f == spec_failure(lease, reason, vm, materialization_owned, physical, durable),
{
    GatewayServiceCoordinatorFailure {
        identity: lease.identity,
        lease,
        reason,
        vm,
        materialization_owned,
        physical_cleanup_complete: physical,
        durable_cleanup_complete: durable,
        pending_failure: None,
    }
}

/// A coordinator's validated immutable inputs.
#[derive(Debug, Clone, PartialEq, Eq)]
pub struct GatewayServiceCoordinator {
    /// Claimed provisioning lease.
    pub lease: GatewayServiceInstanceLease,
    /// Claim owner.
    pub owner: GatewayServiceOwner,
    /// Whether readiness activates or restores the revision.
    pub intent: GatewayServiceStartupIntent,
    /// Host authority used for readiness probes.
    pub service_authority: String,
    /// Worker lifecycle bounds.
    pub worker_policy: ServiceInstancePolicy,
    /// Lease renewal policy.
    pub lease_policy: GatewayServiceLeasePolicy,
}

/// A claimed lease a coordinator may start from: `Provisioning`, complete
/// identity, positive fence and the deterministic VM ID.
pub open spec fn spec_coordinator_lease_valid(lease: GatewayServiceInstanceLease) -> bool {
    &&& lease.state == GatewayServiceInstanceState::Provisioning
    &&& lease.identity.spec_complete()
    &&& lease.fencing_token > 0
    &&& lease.vm_id@ == spec_service_vm_id(lease.identity.instance_id)
}

/// What constructing a coordinator returns.
pub open spec fn spec_coordinator_new_result(
    lease: GatewayServiceInstanceLease,
    owner: GatewayServiceOwner,
    startup_deadline_passed: bool,
    service_authority: Seq<char>,
    lease_policy: GatewayServiceLeasePolicy,
) -> Result<(), GatewayServiceCoordinatorError> {
    if !spec_coordinator_lease_valid(lease) || startup_deadline_passed || !owner.spec_valid() {
        Err(GatewayServiceCoordinatorError::InvalidIdentity)
    } else if service_authority.len() == 0 || !spec_header_value_valid(service_authority) {
        Err(GatewayServiceCoordinatorError::InvalidAuthority)
    } else if !lease_policy.spec_valid() {
        Err(GatewayServiceCoordinatorError::InvalidLeasePolicy)
    } else {
        Ok(())
    }
}

impl GatewayServiceCoordinator {
    /// Creates a coordinator from an already claimed provisioning lease.
    pub fn new(
        lease: GatewayServiceInstanceLease,
        owner: GatewayServiceOwner,
        startup_deadline_passed: bool,
        intent: GatewayServiceStartupIntent,
        service_authority: String,
        worker_policy: ServiceInstancePolicy,
        lease_policy: GatewayServiceLeasePolicy,
    ) -> (result: Result<Self, GatewayServiceCoordinatorError>)
        ensures
            match spec_coordinator_new_result(lease, owner, startup_deadline_passed, service_authority@, lease_policy) {
                Ok(()) => result matches Ok(c) && c.lease == lease && c.owner == owner && c.intent == intent
                    && c.service_authority == service_authority && c.worker_policy == worker_policy
                    && c.lease_policy == lease_policy,
                Err(e) => result == Err::<Self, GatewayServiceCoordinatorError>(e),
            },
    {
        let expected_vm = service_vm_id(lease.identity.instance_id);
        if lease.state != GatewayServiceInstanceState::Provisioning || !lease.identity.is_complete()
            || lease.fencing_token <= 0 || !text_eq(lease.vm_id.as_str(), expected_vm.as_str())
            || startup_deadline_passed {
            return Err(GatewayServiceCoordinatorError::InvalidIdentity);
        }
        if owner.validate().is_err() {
            return Err(GatewayServiceCoordinatorError::InvalidIdentity);
        }
        if service_authority.as_str().is_empty() || !header_value_valid(service_authority.as_str()) {
            return Err(GatewayServiceCoordinatorError::InvalidAuthority);
        }
        if lease_policy.validate().is_err() {
            return Err(GatewayServiceCoordinatorError::InvalidLeasePolicy);
        }
        Ok(GatewayServiceCoordinator { lease, owner, intent, service_authority, worker_policy, lease_policy })
    }
}

/// Why preparation stopped.
#[derive(Debug, Clone, Copy, PartialEq, Eq, Structural)]
pub enum GatewayServicePreparationExit {
    /// Preparation finished on its own.
    Complete,
    /// The parent cancelled.
    Cancelled,
    /// The startup deadline elapsed.
    StartupDeadline,
    /// The lease was lost.
    LeaseLost,
}

/// The termination reason a preparation exit carries.
pub open spec fn spec_exit_reason(exit: GatewayServicePreparationExit) -> Option<GatewayServiceCoordinatorFailureReason> {
    match exit {
        GatewayServicePreparationExit::Complete => None,
        GatewayServicePreparationExit::Cancelled => Some(GatewayServiceCoordinatorFailureReason::Cancelled),
        GatewayServicePreparationExit::StartupDeadline => Some(GatewayServiceCoordinatorFailureReason::StartupDeadline),
        GatewayServicePreparationExit::LeaseLost => Some(GatewayServiceCoordinatorFailureReason::LeaseLost),
    }
}

/// What follows preparation.
#[derive(Debug, Clone, Copy, PartialEq, Eq, Structural)]
pub enum GatewayServicePreparationStep {
    /// Use the prepared VM.
    Proceed,
    /// Destroy the prepared VM and clean up for this reason.
    CleanupPrepared(GatewayServiceCoordinatorFailureReason),
    /// Clean up what a failed preparation left, for this reason.
    CleanupPreparationFailure(GatewayServiceCoordinatorFailureReason),
}

/// What follows preparation: a prepared VM is used only when preparation
/// finished on its own before the startup deadline; otherwise the exit's
/// reason, or the deadline, or a preparation failure, is cleaned up.
pub open spec fn spec_preparation_step(
    exit: GatewayServicePreparationExit,
    prepared: bool,
    deadline_passed: bool,
) -> GatewayServicePreparationStep {
    (if prepared {
            if !deadline_passed && exit == GatewayServicePreparationExit::Complete {
                GatewayServicePreparationStep::Proceed
            } else {
                GatewayServicePreparationStep::CleanupPrepared(match spec_exit_reason(exit) {
                    Some(r) => r,
                    None => GatewayServiceCoordinatorFailureReason::StartupDeadline,
                })
            }
        } else {
            GatewayServicePreparationStep::CleanupPreparationFailure(match spec_exit_reason(exit) {
                Some(r) => r,
                None => if deadline_passed {
                    GatewayServiceCoordinatorFailureReason::StartupDeadline
                } else {
                    GatewayServiceCoordinatorFailureReason::Preparation
                },
            })
        })
}

/// Decides what follows preparation: a prepared VM is used only when
/// preparation finished on its own before the startup deadline.
pub fn preparation_step(
    exit: GatewayServicePreparationExit,
    prepared: bool,
    deadline_passed: bool,
) -> (step: GatewayServicePreparationStep)
    ensures
        step == spec_preparation_step(exit, prepared, deadline_passed),
{
    let reason = match exit {
        GatewayServicePreparationExit::Complete => None,
        GatewayServicePreparationExit::Cancelled => Some(GatewayServiceCoordinatorFailureReason::Cancelled),
        GatewayServicePreparationExit::StartupDeadline => Some(GatewayServiceCoordinatorFailureReason::StartupDeadline),
        GatewayServicePreparationExit::LeaseLost => Some(GatewayServiceCoordinatorFailureReason::LeaseLost),
    };
    if prepared {
        if !deadline_passed && reason.is_none() {
            GatewayServicePreparationStep::Proceed
        } else {
            GatewayServicePreparationStep::CleanupPrepared(match reason {
                Some(r) => r,
                None => GatewayServiceCoordinatorFailureReason::StartupDeadline,
            })
        }
    } else {
        GatewayServicePreparationStep::CleanupPreparationFailure(match reason {
            Some(r) => r,
            None => if deadline_passed {
                GatewayServiceCoordinatorFailureReason::StartupDeadline
            } else {
                GatewayServiceCoordinatorFailureReason::Preparation
            },
        })
    }
}

/// What ended a durable transition the coordinator was waiting on.
#[derive(Debug, Clone, Copy, PartialEq, Eq)]
pub enum GatewayServiceTransitionEvent {
    /// The durable operation returned.
    Completed(Result<(), GatewayServiceOwnershipError>),
    /// The lease deadline elapsed first.
    TimedOut,
    /// No active lease (or the monitor ended or reported a loss).
    LeaseLost,
    /// The parent cancelled, and cancellation is honored here.
    Cancelled,
    /// The worker exited or left `Ready`.
    WorkerFailed,
}

/// Maps what ended a durable transition to its result.
pub open spec fn spec_transition_result(event: GatewayServiceTransitionEvent) -> Result<(), GatewayServiceCoordinatorFailureReason> {
    match event {
        GatewayServiceTransitionEvent::Completed(Ok(())) => Ok(()),
        GatewayServiceTransitionEvent::Completed(Err(_)) => Err(GatewayServiceCoordinatorFailureReason::Ownership),
        GatewayServiceTransitionEvent::TimedOut => Err(GatewayServiceCoordinatorFailureReason::LeaseLost),
        GatewayServiceTransitionEvent::LeaseLost => Err(GatewayServiceCoordinatorFailureReason::LeaseLost),
        GatewayServiceTransitionEvent::Cancelled => Err(GatewayServiceCoordinatorFailureReason::Cancelled),
        GatewayServiceTransitionEvent::WorkerFailed => Err(GatewayServiceCoordinatorFailureReason::Runtime),
    }
}

/// Maps what ended a durable transition to its result: a durable error is
/// an ownership failure, a timeout or lost lease a lease loss, a worker
/// failure a runtime failure.
pub fn transition_result(event: GatewayServiceTransitionEvent) -> (result: Result<(), GatewayServiceCoordinatorFailureReason>)
    ensures
        result == spec_transition_result(event),
{
    match event {
        GatewayServiceTransitionEvent::Completed(Ok(())) => Ok(()),
        GatewayServiceTransitionEvent::Completed(Err(_)) => Err(GatewayServiceCoordinatorFailureReason::Ownership),
        GatewayServiceTransitionEvent::TimedOut => Err(GatewayServiceCoordinatorFailureReason::LeaseLost),
        GatewayServiceTransitionEvent::LeaseLost => Err(GatewayServiceCoordinatorFailureReason::LeaseLost),
        GatewayServiceTransitionEvent::Cancelled => Err(GatewayServiceCoordinatorFailureReason::Cancelled),
        GatewayServiceTransitionEvent::WorkerFailed => Err(GatewayServiceCoordinatorFailureReason::Runtime),
    }
}

/// The worker policy for the readiness phase: the startup bound cut short
/// by the time left before the startup deadline; `None` when none is left.
pub fn startup_worker_policy(policy: ServiceInstancePolicy, remaining_nanos: u128) -> (worker: Option<ServiceInstancePolicy>)
    ensures
        remaining_nanos == 0 ==> worker is None,
        remaining_nanos > 0 ==> worker == Some(ServiceInstancePolicy {
            startup_timeout_nanos: if remaining_nanos <= policy.startup_timeout_nanos {
                remaining_nanos
            } else {
                policy.startup_timeout_nanos
            },
            ..policy
        }),
{
    if remaining_nanos == 0 {
        return None;
    }
    let startup = if remaining_nanos <= policy.startup_timeout_nanos { remaining_nanos } else { policy.startup_timeout_nanos };
    Some(ServiceInstancePolicy::new(startup, policy.probe_interval_nanos, policy.probe_timeout_nanos, policy.shutdown_timeout_nanos))
}

/// Whether probing ended with a usable ready worker.
pub open spec fn spec_probing_succeeded(
    worker_exited: bool,
    worker_ready: bool,
    deadline_passed: bool,
    lease_active: bool,
    monitor_done: bool,
) -> bool {
    !worker_exited && worker_ready && !deadline_passed && lease_active && !monitor_done
}

/// Why probing failed: cancellation first, then the deadline, then a lost
/// lease, and otherwise a runtime failure.
pub open spec fn spec_probing_failure_reason(
    cancelled: bool,
    deadline_passed: bool,
    lease_active: bool,
    monitor_done: bool,
) -> GatewayServiceCoordinatorFailureReason {
    if cancelled {
        GatewayServiceCoordinatorFailureReason::Cancelled
    } else if deadline_passed {
        GatewayServiceCoordinatorFailureReason::StartupDeadline
    } else if !lease_active || monitor_done {
        GatewayServiceCoordinatorFailureReason::LeaseLost
    } else {
        GatewayServiceCoordinatorFailureReason::Runtime
    }
}

/// Decides the end of probing: `None` when the worker is ready and the
/// claim still stands, else the failure reason.
pub fn probing_outcome(
    worker_exited: bool,
    worker_ready: bool,
    cancelled: bool,
    deadline_passed: bool,
    lease_active: bool,
    monitor_done: bool,
) -> (reason: Option<GatewayServiceCoordinatorFailureReason>)
    ensures
        spec_probing_succeeded(worker_exited, worker_ready, deadline_passed, lease_active, monitor_done) ==> reason is None,
        !spec_probing_succeeded(worker_exited, worker_ready, deadline_passed, lease_active, monitor_done)
            ==> reason == Some(spec_probing_failure_reason(cancelled, deadline_passed, lease_active, monitor_done)),
{
    if !worker_exited && worker_ready && !deadline_passed && lease_active && !monitor_done {
        return None;
    }
    Some(if cancelled {
        GatewayServiceCoordinatorFailureReason::Cancelled
    } else if deadline_passed {
        GatewayServiceCoordinatorFailureReason::StartupDeadline
    } else if !lease_active || monitor_done {
        GatewayServiceCoordinatorFailureReason::LeaseLost
    } else {
        GatewayServiceCoordinatorFailureReason::Runtime
    })
}

/// Whether a restored instance still matches its durable target: enabled,
/// active on this exact revision, and a published, eligible release.
pub open spec fn spec_target_matches(target: Option<GatewayServiceOwnedTarget>, revision_id: u128) -> bool {
    match target {
        None => false,
        Some(t) => {
            &&& t.lifecycle@ == "enabled"@
            &&& t.active_revision_id == Some(revision_id)
            &&& t.revision.revision_id == revision_id
            &&& t.revision.publication_eligible
            &&& t.revision.release_state matches Some(state) && state@ == "published"@
        },
    }
}

/// Returns whether a restored instance still matches its durable target.
pub fn target_matches(target: &Option<GatewayServiceOwnedTarget>, revision_id: u128) -> (matches: bool)
    ensures
        matches == spec_target_matches(*target, revision_id),
{
    match target {
        None => false,
        Some(t) => {
            if !text_eq(t.lifecycle.as_str(), "enabled") {
                return false;
            }
            let published = match &t.revision.release_state {
                Some(state) => text_eq(state.as_str(), "published"),
                None => false,
            };
            t.active_revision_id == Some(revision_id) && t.revision.revision_id == revision_id
                && t.revision.publication_eligible && published
        },
    }
}

/// Where one coordinator's start-up run stands.
#[derive(Debug, Clone, Copy, PartialEq, Eq, Structural)]
pub enum GatewayServiceCoordinatorPhase {
    /// Resolving, materializing and provisioning the VM.
    Preparing,
    /// The durable claim is moving to `Starting`.
    Starting,
    /// The readiness worker is being created within the startup deadline.
    Launching,
    /// The worker is starting the VM and probing it for readiness.
    Probing,
    /// The ready VM is being registered for routing.
    Registering,
    /// The durable claim is moving to `Ready`.
    MarkingReady,
    /// The ready revision is being promoted to active.
    Promoting,
    /// The restored instance's durable target is being read.
    CheckingTarget,
    /// The instance serves requests.
    Serving,
    /// The run has handed its resources to cleanup.
    Cleaning,
}

/// What the outside work of the current phase reported.
#[derive(Debug, Clone, PartialEq, Eq)]
pub enum GatewayServiceCoordinatorEvent {
    /// Preparation stopped: why, whether a VM was prepared, whether the
    /// startup deadline had passed, and whether the claim still stands.
    Prepared {
        exit: GatewayServicePreparationExit,
        prepared: bool,
        deadline_passed: bool,
        lease_current: bool,
    },
    /// A durable transition the run waited on ended.
    TransitionEnded(GatewayServiceTransitionEvent),
    /// Worker creation: whether the deadline had already passed, and whether
    /// the worker was created.
    Launched { deadline_passed: bool, worker_created: bool },
    /// The worker reported `Ready` while the claim stands and the deadline
    /// has not passed.
    Ready,
    /// Registration for routing succeeded or failed.
    Registered(bool),
    /// The durable target of the restored revision was read.
    TargetRead { target: Option<GatewayServiceOwnedTarget>, revision_id: u128 },
    /// The run failed for this reason: a failed probe, a passed deadline,
    /// cancellation, a lost lease, or a worker that stopped serving.
    Failed(GatewayServiceCoordinatorFailureReason),
}

/// The outside work the run performs next.
#[derive(Debug, Clone, Copy, PartialEq, Eq, Structural)]
pub enum GatewayServiceCoordinatorAction {
    /// Move the durable claim to `Starting`.
    MarkStarting,
    /// Create the readiness worker.
    LaunchWorker,
    /// Wait for the worker's readiness.
    AwaitReadiness,
    /// Register the ready VM for routing.
    Register,
    /// Move the durable claim to `Ready`.
    MarkReady,
    /// Promote the ready revision to active.
    Promote,
    /// Read the restored revision's durable target.
    CheckTarget,
    /// Serve until the worker, the lease or the parent ends the run.
    Serve,
    /// Destroy the prepared VM and clean up durably for this reason.
    CleanupPrepared(GatewayServiceCoordinatorFailureReason),
    /// Clean up what a failed preparation left, for this reason.
    CleanupPreparationFailure(GatewayServiceCoordinatorFailureReason),
    /// Destroy the VM of a worker that could not be created and clean up.
    CleanupVm(GatewayServiceCoordinatorFailureReason),
    /// Settle the worker: unregister it when `registered`, move the claim to
    /// `Stopping` for this reason, and clean up.
    MarkStopping { reason: GatewayServiceCoordinatorFailureReason, registered: bool },
    /// The event does not belong to this phase: nothing changes.
    Ignore,
}

/// The phases that follow a ready worker.
pub open spec fn spec_readied(phase: GatewayServiceCoordinatorPhase) -> bool {
    ||| phase == GatewayServiceCoordinatorPhase::Registering
    ||| phase == GatewayServiceCoordinatorPhase::MarkingReady
    ||| phase == GatewayServiceCoordinatorPhase::Promoting
    ||| phase == GatewayServiceCoordinatorPhase::CheckingTarget
    ||| phase == GatewayServiceCoordinatorPhase::Serving
}

/// The phases in which the VM is registered for routing.
pub open spec fn spec_registered(phase: GatewayServiceCoordinatorPhase) -> bool {
    ||| phase == GatewayServiceCoordinatorPhase::MarkingReady
    ||| phase == GatewayServiceCoordinatorPhase::Promoting
    ||| phase == GatewayServiceCoordinatorPhase::CheckingTarget
    ||| phase == GatewayServiceCoordinatorPhase::Serving
}

/// How a failure is cleaned up in each phase: before the worker runs the
/// prepared VM is destroyed; afterwards the worker is settled.
pub open spec fn spec_failure_action(
    phase: GatewayServiceCoordinatorPhase,
    reason: GatewayServiceCoordinatorFailureReason,
) -> GatewayServiceCoordinatorAction {
    if phase == GatewayServiceCoordinatorPhase::Starting || phase == GatewayServiceCoordinatorPhase::Launching {
        GatewayServiceCoordinatorAction::CleanupPrepared(reason)
    } else {
        GatewayServiceCoordinatorAction::MarkStopping { reason, registered: spec_registered(phase) }
    }
}

/// One step of the start-up run: readiness precedes registration, marking
/// ready and promotion; an activated revision is promoted, a restored one
/// serves only while its durable target still matches; every failure hands
/// the run to cleanup with its reason.
pub open spec fn spec_coordinator_step(
    phase: GatewayServiceCoordinatorPhase,
    intent: GatewayServiceStartupIntent,
    event: GatewayServiceCoordinatorEvent,
) -> (GatewayServiceCoordinatorPhase, GatewayServiceCoordinatorAction) {
    let ignore = (phase, GatewayServiceCoordinatorAction::Ignore);
    let cleaning = GatewayServiceCoordinatorPhase::Cleaning;
    match phase {
        GatewayServiceCoordinatorPhase::Preparing => match event {
            GatewayServiceCoordinatorEvent::Prepared { exit, prepared, deadline_passed, lease_current } =>
                match spec_preparation_step(exit, prepared, deadline_passed) {
                    GatewayServicePreparationStep::Proceed => if lease_current {
                        (GatewayServiceCoordinatorPhase::Starting, GatewayServiceCoordinatorAction::MarkStarting)
                    } else {
                        (cleaning, GatewayServiceCoordinatorAction::CleanupPrepared(
                            GatewayServiceCoordinatorFailureReason::LeaseLost))
                    },
                    GatewayServicePreparationStep::CleanupPrepared(r) =>
                        (cleaning, GatewayServiceCoordinatorAction::CleanupPrepared(r)),
                    GatewayServicePreparationStep::CleanupPreparationFailure(r) =>
                        (cleaning, GatewayServiceCoordinatorAction::CleanupPreparationFailure(r)),
                },
            _ => ignore,
        },
        GatewayServiceCoordinatorPhase::Cleaning => ignore,
        _ => match event {
            GatewayServiceCoordinatorEvent::Failed(r) => (cleaning, spec_failure_action(phase, r)),
            GatewayServiceCoordinatorEvent::TransitionEnded(t) => match spec_transition_result(t) {
                Err(r) => if phase == GatewayServiceCoordinatorPhase::Starting
                    || phase == GatewayServiceCoordinatorPhase::MarkingReady
                    || phase == GatewayServiceCoordinatorPhase::Promoting
                    || phase == GatewayServiceCoordinatorPhase::CheckingTarget {
                    (cleaning, spec_failure_action(phase, r))
                } else {
                    ignore
                },
                Ok(()) => if phase == GatewayServiceCoordinatorPhase::Starting {
                    (GatewayServiceCoordinatorPhase::Launching, GatewayServiceCoordinatorAction::LaunchWorker)
                } else if phase == GatewayServiceCoordinatorPhase::MarkingReady {
                    match intent {
                        GatewayServiceStartupIntent::ActivateDesired =>
                            (GatewayServiceCoordinatorPhase::Promoting, GatewayServiceCoordinatorAction::Promote),
                        GatewayServiceStartupIntent::RestoreActive =>
                            (GatewayServiceCoordinatorPhase::CheckingTarget, GatewayServiceCoordinatorAction::CheckTarget),
                    }
                } else if phase == GatewayServiceCoordinatorPhase::Promoting
                    && intent == GatewayServiceStartupIntent::ActivateDesired {
                    (GatewayServiceCoordinatorPhase::Serving, GatewayServiceCoordinatorAction::Serve)
                } else {
                    ignore
                },
            },
            GatewayServiceCoordinatorEvent::Launched { deadline_passed, worker_created } =>
                if phase != GatewayServiceCoordinatorPhase::Launching {
                    ignore
                } else if deadline_passed {
                    (cleaning, GatewayServiceCoordinatorAction::CleanupPrepared(
                        GatewayServiceCoordinatorFailureReason::StartupDeadline))
                } else if !worker_created {
                    (cleaning, GatewayServiceCoordinatorAction::CleanupVm(GatewayServiceCoordinatorFailureReason::Runtime))
                } else {
                    (GatewayServiceCoordinatorPhase::Probing, GatewayServiceCoordinatorAction::AwaitReadiness)
                },
            GatewayServiceCoordinatorEvent::Ready => if phase == GatewayServiceCoordinatorPhase::Probing {
                (GatewayServiceCoordinatorPhase::Registering, GatewayServiceCoordinatorAction::Register)
            } else {
                ignore
            },
            GatewayServiceCoordinatorEvent::Registered(ok) => if phase != GatewayServiceCoordinatorPhase::Registering {
                ignore
            } else if ok {
                (GatewayServiceCoordinatorPhase::MarkingReady, GatewayServiceCoordinatorAction::MarkReady)
            } else {
                (cleaning, GatewayServiceCoordinatorAction::MarkStopping {
                    reason: GatewayServiceCoordinatorFailureReason::Runtime,
                    registered: false,
                })
            },
            GatewayServiceCoordinatorEvent::TargetRead { target, revision_id } =>
                if phase != GatewayServiceCoordinatorPhase::CheckingTarget
                    || intent != GatewayServiceStartupIntent::RestoreActive {
                    ignore
                } else if spec_target_matches(target, revision_id) {
                    (GatewayServiceCoordinatorPhase::Serving, GatewayServiceCoordinatorAction::Serve)
                } else {
                    (cleaning, GatewayServiceCoordinatorAction::MarkStopping {
                        reason: GatewayServiceCoordinatorFailureReason::TargetUnavailable,
                        registered: true,
                    })
                },
            GatewayServiceCoordinatorEvent::Prepared { .. } => ignore,
        },
    }
}

/// Decides one step of the coordinator's start-up run from its phase, its
/// durable intent and what the outside work reported.
pub fn coordinator_step(
    state: GatewayServiceCoordinatorPhase,
    intent: GatewayServiceStartupIntent,
    event: GatewayServiceCoordinatorEvent,
) -> (next: (GatewayServiceCoordinatorPhase, GatewayServiceCoordinatorAction))
    ensures
        next == spec_coordinator_step(state, intent, event),
        next.1 == GatewayServiceCoordinatorAction::Register ==> state == GatewayServiceCoordinatorPhase::Probing
            && event == GatewayServiceCoordinatorEvent::Ready,
        next.1 == GatewayServiceCoordinatorAction::MarkReady ==> state == GatewayServiceCoordinatorPhase::Registering
            && event == GatewayServiceCoordinatorEvent::Registered(true),
        next.1 == GatewayServiceCoordinatorAction::Promote ==> intent == GatewayServiceStartupIntent::ActivateDesired
            && state == GatewayServiceCoordinatorPhase::MarkingReady,
        next.1 == GatewayServiceCoordinatorAction::CheckTarget ==> intent == GatewayServiceStartupIntent::RestoreActive
            && state == GatewayServiceCoordinatorPhase::MarkingReady,
        next.1 == GatewayServiceCoordinatorAction::Serve ==> {
            ||| state == GatewayServiceCoordinatorPhase::Promoting && intent == GatewayServiceStartupIntent::ActivateDesired
            ||| state == GatewayServiceCoordinatorPhase::CheckingTarget && intent == GatewayServiceStartupIntent::RestoreActive
                && (event matches GatewayServiceCoordinatorEvent::TargetRead { target, revision_id }
                    && spec_target_matches(target, revision_id))
        },
        !spec_readied(state) && spec_readied(next.0) ==> state == GatewayServiceCoordinatorPhase::Probing
            && event == GatewayServiceCoordinatorEvent::Ready,
        state == GatewayServiceCoordinatorPhase::Probing ==> (event matches GatewayServiceCoordinatorEvent::Failed(r)
            ==> next == (GatewayServiceCoordinatorPhase::Cleaning,
                GatewayServiceCoordinatorAction::MarkStopping { reason: r, registered: false })),
{
    let cleaning = GatewayServiceCoordinatorPhase::Cleaning;
    match state {
        GatewayServiceCoordinatorPhase::Preparing => match event {
            GatewayServiceCoordinatorEvent::Prepared { exit, prepared, deadline_passed, lease_current } => {
                match preparation_step(exit, prepared, deadline_passed) {
                    GatewayServicePreparationStep::Proceed => if lease_current {
                        (GatewayServiceCoordinatorPhase::Starting, GatewayServiceCoordinatorAction::MarkStarting)
                    } else {
                        (cleaning, GatewayServiceCoordinatorAction::CleanupPrepared(
                            GatewayServiceCoordinatorFailureReason::LeaseLost))
                    },
                    GatewayServicePreparationStep::CleanupPrepared(r) =>
                        (cleaning, GatewayServiceCoordinatorAction::CleanupPrepared(r)),
                    GatewayServicePreparationStep::CleanupPreparationFailure(r) =>
                        (cleaning, GatewayServiceCoordinatorAction::CleanupPreparationFailure(r)),
                }
            },
            _ => (state, GatewayServiceCoordinatorAction::Ignore),
        },
        GatewayServiceCoordinatorPhase::Cleaning => (state, GatewayServiceCoordinatorAction::Ignore),
        _ => match event {
            GatewayServiceCoordinatorEvent::Failed(r) => (cleaning, failure_action(state, r)),
            GatewayServiceCoordinatorEvent::TransitionEnded(t) => match transition_result(t) {
                Err(r) => if state == GatewayServiceCoordinatorPhase::Starting
                    || state == GatewayServiceCoordinatorPhase::MarkingReady
                    || state == GatewayServiceCoordinatorPhase::Promoting
                    || state == GatewayServiceCoordinatorPhase::CheckingTarget {
                    (cleaning, failure_action(state, r))
                } else {
                    (state, GatewayServiceCoordinatorAction::Ignore)
                },
                Ok(()) => if state == GatewayServiceCoordinatorPhase::Starting {
                    (GatewayServiceCoordinatorPhase::Launching, GatewayServiceCoordinatorAction::LaunchWorker)
                } else if state == GatewayServiceCoordinatorPhase::MarkingReady {
                    match intent {
                        GatewayServiceStartupIntent::ActivateDesired =>
                            (GatewayServiceCoordinatorPhase::Promoting, GatewayServiceCoordinatorAction::Promote),
                        GatewayServiceStartupIntent::RestoreActive =>
                            (GatewayServiceCoordinatorPhase::CheckingTarget, GatewayServiceCoordinatorAction::CheckTarget),
                    }
                } else if state == GatewayServiceCoordinatorPhase::Promoting
                    && intent == GatewayServiceStartupIntent::ActivateDesired {
                    (GatewayServiceCoordinatorPhase::Serving, GatewayServiceCoordinatorAction::Serve)
                } else {
                    (state, GatewayServiceCoordinatorAction::Ignore)
                },
            },
            GatewayServiceCoordinatorEvent::Launched { deadline_passed, worker_created } => {
                if state != GatewayServiceCoordinatorPhase::Launching {
                    (state, GatewayServiceCoordinatorAction::Ignore)
                } else if deadline_passed {
                    (cleaning, GatewayServiceCoordinatorAction::CleanupPrepared(
                        GatewayServiceCoordinatorFailureReason::StartupDeadline))
                } else if !worker_created {
                    (cleaning, GatewayServiceCoordinatorAction::CleanupVm(GatewayServiceCoordinatorFailureReason::Runtime))
                } else {
                    (GatewayServiceCoordinatorPhase::Probing, GatewayServiceCoordinatorAction::AwaitReadiness)
                }
            },
            GatewayServiceCoordinatorEvent::Ready => if state == GatewayServiceCoordinatorPhase::Probing {
                (GatewayServiceCoordinatorPhase::Registering, GatewayServiceCoordinatorAction::Register)
            } else {
                (state, GatewayServiceCoordinatorAction::Ignore)
            },
            GatewayServiceCoordinatorEvent::Registered(ok) => {
                if state != GatewayServiceCoordinatorPhase::Registering {
                    (state, GatewayServiceCoordinatorAction::Ignore)
                } else if ok {
                    (GatewayServiceCoordinatorPhase::MarkingReady, GatewayServiceCoordinatorAction::MarkReady)
                } else {
                    (cleaning, GatewayServiceCoordinatorAction::MarkStopping {
                        reason: GatewayServiceCoordinatorFailureReason::Runtime,
                        registered: false,
                    })
                }
            },
            GatewayServiceCoordinatorEvent::TargetRead { target, revision_id } => {
                if state != GatewayServiceCoordinatorPhase::CheckingTarget
                    || intent != GatewayServiceStartupIntent::RestoreActive {
                    (state, GatewayServiceCoordinatorAction::Ignore)
                } else if target_matches(&target, revision_id) {
                    (GatewayServiceCoordinatorPhase::Serving, GatewayServiceCoordinatorAction::Serve)
                } else {
                    (cleaning, GatewayServiceCoordinatorAction::MarkStopping {
                        reason: GatewayServiceCoordinatorFailureReason::TargetUnavailable,
                        registered: true,
                    })
                }
            },
            GatewayServiceCoordinatorEvent::Prepared { .. } => (state, GatewayServiceCoordinatorAction::Ignore),
        },
    }
}

/// Returns how a failure is cleaned up in a phase.
fn failure_action(
    phase: GatewayServiceCoordinatorPhase,
    reason: GatewayServiceCoordinatorFailureReason,
) -> (action: GatewayServiceCoordinatorAction)
    ensures
        action == spec_failure_action(phase, reason),
{
    if phase == GatewayServiceCoordinatorPhase::Starting || phase == GatewayServiceCoordinatorPhase::Launching {
        GatewayServiceCoordinatorAction::CleanupPrepared(reason)
    } else {
        let registered = phase == GatewayServiceCoordinatorPhase::MarkingReady
            || phase == GatewayServiceCoordinatorPhase::Promoting
            || phase == GatewayServiceCoordinatorPhase::CheckingTarget
            || phase == GatewayServiceCoordinatorPhase::Serving;
        GatewayServiceCoordinatorAction::MarkStopping { reason, registered }
    }
}

/// The observable status of a phase.
pub open spec fn spec_phase_status(phase: GatewayServiceCoordinatorPhase) -> GatewayServiceCoordinatorStatus {
    match phase {
        GatewayServiceCoordinatorPhase::Preparing => GatewayServiceCoordinatorStatus::Preparing,
        GatewayServiceCoordinatorPhase::Starting | GatewayServiceCoordinatorPhase::Launching =>
            GatewayServiceCoordinatorStatus::Starting,
        GatewayServiceCoordinatorPhase::Serving => GatewayServiceCoordinatorStatus::Ready,
        GatewayServiceCoordinatorPhase::Cleaning => GatewayServiceCoordinatorStatus::Stopping,
        _ => GatewayServiceCoordinatorStatus::Probing,
    }
}

/// Returns the observable status of a phase.
pub fn phase_status(phase: GatewayServiceCoordinatorPhase) -> (status: GatewayServiceCoordinatorStatus)
    ensures
        status == spec_phase_status(phase),
{
    match phase {
        GatewayServiceCoordinatorPhase::Preparing => GatewayServiceCoordinatorStatus::Preparing,
        GatewayServiceCoordinatorPhase::Starting | GatewayServiceCoordinatorPhase::Launching =>
            GatewayServiceCoordinatorStatus::Starting,
        GatewayServiceCoordinatorPhase::Serving => GatewayServiceCoordinatorStatus::Ready,
        GatewayServiceCoordinatorPhase::Cleaning => GatewayServiceCoordinatorStatus::Stopping,
        _ => GatewayServiceCoordinatorStatus::Probing,
    }
}

/// The phase a run reaches from `start` after the events, in order.
pub open spec fn spec_run_phase(
    start: GatewayServiceCoordinatorPhase,
    intent: GatewayServiceStartupIntent,
    events: Seq<GatewayServiceCoordinatorEvent>,
) -> GatewayServiceCoordinatorPhase
    decreases events.len(),
{
    if events.len() == 0 {
        start
    } else {
        spec_coordinator_step(spec_run_phase(start, intent, events.drop_last()), intent, events.last()).0
    }
}

/// In every run from preparation, a run that has reached registration,
/// marking ready, promotion, the target check or serving saw the worker's
/// `Ready` while probing.
pub proof fn lemma_readiness_precedes_registration(
    intent: GatewayServiceStartupIntent,
    events: Seq<GatewayServiceCoordinatorEvent>,
)
    ensures
        spec_readied(spec_run_phase(GatewayServiceCoordinatorPhase::Preparing, intent, events)) ==> exists|j: int|
            0 <= j < events.len() && events[j] == GatewayServiceCoordinatorEvent::Ready
                && #[trigger] spec_run_phase(GatewayServiceCoordinatorPhase::Preparing, intent, events.take(j))
                == GatewayServiceCoordinatorPhase::Probing,
    decreases events.len(),
{
    let start = GatewayServiceCoordinatorPhase::Preparing;
    if events.len() > 0 {
        let before = events.drop_last();
        lemma_readiness_precedes_registration(intent, before);
        let prev = spec_run_phase(start, intent, before);
        let k = events.len() - 1;
        assert(events.take(k) =~= before);
        if spec_readied(spec_run_phase(start, intent, events)) {
            if spec_readied(prev) {
                let j = choose|j: int| 0 <= j < before.len() && before[j] == GatewayServiceCoordinatorEvent::Ready
                    && #[trigger] spec_run_phase(start, intent, before.take(j)) == GatewayServiceCoordinatorPhase::Probing;
                assert(before.take(j) =~= events.take(j));
                assert(events[j] == before[j]);
            } else {
                assert(events[k] == events.last());
            }
        }
    }
}

/// In every run, a promotion is asked for only under the intent to activate
/// the desired revision, and the run serves a restored revision only after
/// a matching durable target.
pub proof fn lemma_promotion_follows_intent(
    phase: GatewayServiceCoordinatorPhase,
    intent: GatewayServiceStartupIntent,
    event: GatewayServiceCoordinatorEvent,
)
    ensures
        spec_coordinator_step(phase, intent, event).1 == GatewayServiceCoordinatorAction::Promote
            ==> intent == GatewayServiceStartupIntent::ActivateDesired,
        intent == GatewayServiceStartupIntent::RestoreActive
            && spec_coordinator_step(phase, intent, event).0 == GatewayServiceCoordinatorPhase::Serving
            && phase != GatewayServiceCoordinatorPhase::Serving
            ==> (event matches GatewayServiceCoordinatorEvent::TargetRead { target, revision_id }
                && spec_target_matches(target, revision_id)),
{
}

/// A restored revision serves only while it is its durable target's active
/// revision: the target is enabled, names this revision as active, and
/// carries it as a published, eligible release. When the target check
/// finds exactly that, the run serves; otherwise it settles the registered
/// worker as `TargetUnavailable`.
pub proof fn lemma_restored_revision_serves_only_while_active(
    phase: GatewayServiceCoordinatorPhase,
    intent: GatewayServiceStartupIntent,
    target: Option<GatewayServiceOwnedTarget>,
    revision_id: u128,
)
    ensures
        ({
            let next = spec_coordinator_step(
                phase, intent, GatewayServiceCoordinatorEvent::TargetRead { target, revision_id });
            next.1 == GatewayServiceCoordinatorAction::Serve ==> {
                &&& target is Some
                &&& target.unwrap().active_revision_id == Some(revision_id)
                &&& target.unwrap().revision.revision_id == revision_id
                &&& target.unwrap().lifecycle@ == "enabled"@
                &&& target.unwrap().revision.publication_eligible
                &&& target.unwrap().revision.release_state matches Some(state) && state@ == "published"@
            }
        }),
        phase == GatewayServiceCoordinatorPhase::CheckingTarget
            && intent == GatewayServiceStartupIntent::RestoreActive ==> ({
            let next = spec_coordinator_step(
                phase, intent, GatewayServiceCoordinatorEvent::TargetRead { target, revision_id });
            if target is Some && target.unwrap().active_revision_id == Some(revision_id)
                && target.unwrap().revision.revision_id == revision_id
                && target.unwrap().lifecycle@ == "enabled"@
                && target.unwrap().revision.publication_eligible
                && (target.unwrap().revision.release_state matches Some(state) && state@ == "published"@) {
                next == (GatewayServiceCoordinatorPhase::Serving, GatewayServiceCoordinatorAction::Serve)
            } else {
                next == (GatewayServiceCoordinatorPhase::Cleaning, GatewayServiceCoordinatorAction::MarkStopping {
                    reason: GatewayServiceCoordinatorFailureReason::TargetUnavailable,
                    registered: true,
                })
            }
        }),
{
}

/// What follows the durable `Stopping` transition while a worker settles.
#[derive(Debug, Clone, PartialEq, Eq)]
pub enum GatewayServiceSettleStep {
    /// Mark this stopping lease cleaned.
    MarkCleaned(GatewayServiceInstanceLease),
    /// Stop with this failure.
    Fail(GatewayServiceCoordinatorFailure),
}

/// Decides a settling worker after its `Stopping` transition: a worker
/// whose own cleanup did not complete keeps the VM and materialization; a
/// failed transition leaves the physical cleanup confirmed but not the
/// durable one; otherwise the row is marked cleaned.
pub fn settle_after_stopping(
    current: GatewayServiceInstanceLease,
    reason: GatewayServiceCoordinatorFailureReason,
    worker_cleanup_incomplete: bool,
    vm: String,
    stopping: Result<GatewayServiceInstanceLease, GatewayServiceCoordinatorFailureReason>,
) -> (step: GatewayServiceSettleStep)
    ensures
        worker_cleanup_incomplete ==> step == GatewayServiceSettleStep::Fail(spec_failure(current, reason, Some(vm), true, false, false)),
        !worker_cleanup_incomplete ==> step == (match stopping {
            Err(_) => GatewayServiceSettleStep::Fail(spec_failure(current, reason, None, false, true, false)),
            Ok(lease) => GatewayServiceSettleStep::MarkCleaned(lease),
        }),
        step matches GatewayServiceSettleStep::Fail(f) ==> spec_failure_consistent(f),
{
    if worker_cleanup_incomplete {
        return GatewayServiceSettleStep::Fail(failure(current, reason, Some(vm), true, false, false));
    }
    match stopping {
        Err(_) => GatewayServiceSettleStep::Fail(failure(current, reason, None, false, true, false)),
        Ok(lease) => GatewayServiceSettleStep::MarkCleaned(lease),
    }
}

/// Decides a settled worker after the `Cleaned` transition: only a
/// cancelled coordinator whose row is durably cleaned ends successfully.
pub fn settle_after_cleaned(
    stopping: GatewayServiceInstanceLease,
    reason: GatewayServiceCoordinatorFailureReason,
    cleaned: bool,
) -> (result: Result<(), GatewayServiceCoordinatorFailure>)
    ensures
        result is Ok <==> cleaned && reason == GatewayServiceCoordinatorFailureReason::Cancelled,
        result matches Err(f) ==> f == spec_failure(stopping, reason, None, false, true, cleaned)
            && spec_failure_consistent(f),
{
    if !cleaned {
        return Err(failure(stopping, reason, None, false, true, false));
    }
    if reason == GatewayServiceCoordinatorFailureReason::Cancelled {
        Ok(())
    } else {
        Err(failure(stopping, reason, None, false, true, true))
    }
}

/// What follows the durable `Stopping` transition of a cleanup that never
/// reached a worker.
#[derive(Debug, Clone, PartialEq, Eq)]
pub enum GatewayServiceDurableStep {
    /// Mark this stopping lease cleaned.
    MarkCleaned(GatewayServiceInstanceLease),
    /// Stop with this failure.
    Fail(GatewayServiceCoordinatorFailure),
}

/// Decides a durable cleanup after its `Stopping` transition: the row is
/// marked cleaned only once physical cleanup is confirmed.
pub fn durable_after_stopping(
    lease: GatewayServiceInstanceLease,
    reason: GatewayServiceCoordinatorFailureReason,
    vm: Option<String>,
    physical: bool,
    stopping: Result<GatewayServiceInstanceLease, GatewayServiceCoordinatorFailureReason>,
) -> (step: GatewayServiceDurableStep)
    requires
        physical ==> vm is None,
    ensures
        step == (match stopping {
            Err(_) => GatewayServiceDurableStep::Fail(spec_failure(lease, reason, vm, !physical, physical, false)),
            Ok(s) => if physical {
                GatewayServiceDurableStep::MarkCleaned(s)
            } else {
                GatewayServiceDurableStep::Fail(spec_failure(s, reason, vm, true, false, false))
            },
        }),
        step matches GatewayServiceDurableStep::Fail(f) ==> spec_failure_consistent(f),
{
    match stopping {
        Err(_) => GatewayServiceDurableStep::Fail(failure(lease, reason, vm, !physical, physical, false)),
        Ok(s) => {
            if physical {
                GatewayServiceDurableStep::MarkCleaned(s)
            } else {
                GatewayServiceDurableStep::Fail(failure(s, reason, vm, true, false, false))
            }
        },
    }
}

/// Decides a durable cleanup after the `Cleaned` transition: it always
/// reports a failure to the parent, with durable cleanup as confirmed.
pub fn durable_after_cleaned(
    stopping: GatewayServiceInstanceLease,
    reason: GatewayServiceCoordinatorFailureReason,
    cleaned: bool,
) -> (f: GatewayServiceCoordinatorFailure)
    ensures
        f == spec_failure(stopping, reason, None, false, true, cleaned),
        spec_failure_consistent(f),
{
    failure(stopping, reason, None, false, true, cleaned)
}

/// Whether a failed preparation left nothing physical behind.
pub fn preparation_failure_physical(vm_retained: bool, materialization_owned: bool) -> (physical: bool)
    ensures
        physical == (!vm_retained && !materialization_owned),
{
    !vm_retained && !materialization_owned
}

/// What destroying a VM and cleaning its materialization leaves: whether
/// physical cleanup is complete, and the VM still retained.
pub fn vm_cleanup_progress(vm: String, destroyed: bool, materializer_cleaned: bool) -> (progress: (bool, Option<String>))
    ensures
        progress.0 == (destroyed && materializer_cleaned),
        progress.1 == (if destroyed { None } else { Some(vm) }),
        progress.0 ==> progress.1 is None,
{
    let physical = destroyed && materializer_cleaned;
    (physical, if destroyed { None } else { Some(vm) })
}

} // verus!
