//! Preparation of one persistent gateway service instance: resolve the
//! exact launch, provision a stopped VM, and clean up what a failed or
//! cancelled attempt leaves behind.
//!
//! The resolver and provider calls run outside this module; what each of
//! their answers leads to is decided here.
use vstd::prelude::*;
use crate::ident::{GatewayServiceIdentity, service_vm_id, spec_service_vm_id};
use crate::text::text_eq;

verus! {

/// Redacted reason for a preparation failure.
#[derive(Debug, Clone, Copy, PartialEq, Eq, Structural)]
pub enum ServicePreparationFailureReason {
    /// The resolver could not produce the exact immutable launch.
    Resolution,
    /// The resolver returned an invalid identity or VM specification.
    InvalidLaunch,
    /// Provider provisioning returned an error.
    Provisioning,
    /// The parent requested cancellation.
    Cancelled,
    /// Provider or materializer cleanup could not be confirmed.
    CleanupIncomplete,
}

/// Preparation failure retaining every live ownership handle required for retry.
#[derive(Debug, Clone, PartialEq, Eq)]
pub struct ServicePreparationFailure {
    /// Exact service identity owned by this preparation attempt.
    pub identity: GatewayServiceIdentity,
    /// Redacted failure classification.
    pub reason: ServicePreparationFailureReason,
    /// Provider ID of the returned VM retained when destroy did not complete.
    pub vm: Option<String>,
    /// Whether the exact materialization may still exist and must be retained.
    pub materialization_owned: bool,
}

/// What a resolved launch declares.
#[derive(Debug, Clone, PartialEq, Eq)]
pub struct GatewayServiceLaunchSummary {
    /// Identity the launch was resolved for.
    pub identity: GatewayServiceIdentity,
    /// Provider VM identifier of the launch spec.
    pub vm_id: String,
    /// Whether the service declaration validated.
    pub service_valid: bool,
    /// Loopback port the service declares.
    pub service_port: u16,
    /// Loopback port of the spec's private HTTP service, if it has one.
    pub spec_service_port: Option<u16>,
}

/// A resolved launch matches the requested identity: same complete
/// identity, the deterministic VM ID, a valid service declaration, and a
/// private HTTP service on the declared port.
pub open spec fn spec_valid_launch(launch: GatewayServiceLaunchSummary, identity: GatewayServiceIdentity) -> bool {
    &&& launch.identity == identity
    &&& identity.spec_complete()
    &&& launch.vm_id@ == spec_service_vm_id(identity.instance_id)
    &&& launch.service_valid
    &&& launch.spec_service_port == Some(launch.service_port)
}

/// Returns whether a resolved launch matches the requested identity.
pub fn valid_launch(launch: &GatewayServiceLaunchSummary, identity: GatewayServiceIdentity) -> (valid: bool)
    ensures
        valid == spec_valid_launch(*launch, identity),
{
    let expected = service_vm_id(identity.instance_id);
    launch.identity == identity && identity.is_complete() && text_eq(launch.vm_id.as_str(), expected.as_str())
        && launch.service_valid && launch.spec_service_port == Some(launch.service_port)
}

/// A preparation failure.
pub open spec fn spec_failure(
    identity: GatewayServiceIdentity,
    reason: ServicePreparationFailureReason,
    vm: Option<String>,
    materialization_owned: bool,
) -> ServicePreparationFailure {
    ServicePreparationFailure { identity, reason, vm, materialization_owned }
}

/// What the parent does next during preparation.
#[derive(Debug, Clone, PartialEq, Eq)]
pub enum ServicePreparationStep {
    /// Ask the resolver for the exact launch.
    Resolve,
    /// Provision a VM from the resolved launch.
    Provision,
    /// Remove the exact materialization, then fail for this reason.
    CleanupMaterialization(ServicePreparationFailureReason),
    /// Clean the deterministic orphan VM with this ID.
    CleanupOrphan(String),
    /// Destroy the provisioned VM with this ID.
    DestroyVm(String),
    /// The prepared VM is ready for the parent.
    Prepared,
    /// Fail with this report.
    Fail(ServicePreparationFailure),
}

/// Decides the start: a cancelled attempt fails before touching anything.
pub fn preparation_start(identity: GatewayServiceIdentity, cancelled: bool) -> (step: ServicePreparationStep)
    ensures
        step == (if cancelled {
            ServicePreparationStep::Fail(spec_failure(identity, ServicePreparationFailureReason::Cancelled, None, false))
        } else {
            ServicePreparationStep::Resolve
        }),
{
    if cancelled {
        ServicePreparationStep::Fail(ServicePreparationFailure {
            identity,
            reason: ServicePreparationFailureReason::Cancelled,
            vm: None,
            materialization_owned: false,
        })
    } else {
        ServicePreparationStep::Resolve
    }
}

/// Decides after resolution: a failed or invalid resolution, or a
/// cancellation, cleans the materialization; otherwise provision.
pub fn after_resolution(
    launch: Result<GatewayServiceLaunchSummary, ()>,
    identity: GatewayServiceIdentity,
    cancelled: bool,
) -> (step: ServicePreparationStep)
    ensures
        step == (match launch {
            Err(()) => ServicePreparationStep::CleanupMaterialization(ServicePreparationFailureReason::Resolution),
            Ok(l) => if !spec_valid_launch(l, identity) {
                ServicePreparationStep::CleanupMaterialization(ServicePreparationFailureReason::InvalidLaunch)
            } else if cancelled {
                ServicePreparationStep::CleanupMaterialization(ServicePreparationFailureReason::Cancelled)
            } else {
                ServicePreparationStep::Provision
            },
        }),
{
    match launch {
        Err(()) => ServicePreparationStep::CleanupMaterialization(ServicePreparationFailureReason::Resolution),
        Ok(l) => {
            if !valid_launch(&l, identity) {
                ServicePreparationStep::CleanupMaterialization(ServicePreparationFailureReason::InvalidLaunch)
            } else if cancelled {
                ServicePreparationStep::CleanupMaterialization(ServicePreparationFailureReason::Cancelled)
            } else {
                ServicePreparationStep::Provision
            }
        },
    }
}

/// Decides after provisioning: a provider error cleans the deterministic
/// orphan first; a cancellation destroys the returned VM; otherwise the
/// VM is prepared.
pub fn after_provision(
    provisioned: Result<String, ()>,
    identity: GatewayServiceIdentity,
    cancelled: bool,
) -> (step: ServicePreparationStep)
    ensures
        match provisioned {
            Err(()) => step matches ServicePreparationStep::CleanupOrphan(id) && id@ == spec_service_vm_id(identity.instance_id),
            Ok(vm) => step == (if cancelled { ServicePreparationStep::DestroyVm(vm) } else { ServicePreparationStep::Prepared }),
        },
{
    match provisioned {
        Err(()) => ServicePreparationStep::CleanupOrphan(service_vm_id(identity.instance_id)),
        Ok(vm) => {
            if cancelled {
                ServicePreparationStep::DestroyVm(vm)
            } else {
                ServicePreparationStep::Prepared
            }
        },
    }
}

/// Decides after the orphan cleanup: failing keeps the materialization
/// owned; succeeding cleans the materialization for a provisioning failure.
pub fn after_orphan_cleanup(identity: GatewayServiceIdentity, cleaned: bool) -> (step: ServicePreparationStep)
    ensures
        step == (if cleaned {
            ServicePreparationStep::CleanupMaterialization(ServicePreparationFailureReason::Provisioning)
        } else {
            ServicePreparationStep::Fail(spec_failure(identity, ServicePreparationFailureReason::CleanupIncomplete, None, true))
        }),
{
    if cleaned {
        ServicePreparationStep::CleanupMaterialization(ServicePreparationFailureReason::Provisioning)
    } else {
        ServicePreparationStep::Fail(ServicePreparationFailure {
            identity,
            reason: ServicePreparationFailureReason::CleanupIncomplete,
            vm: None,
            materialization_owned: true,
        })
    }
}

/// Decides after destroying a cancelled VM: failing keeps the VM and the
/// materialization; succeeding cleans the materialization.
pub fn after_vm_destroy(identity: GatewayServiceIdentity, vm: String, destroyed: bool) -> (step: ServicePreparationStep)
    ensures
        step == (if destroyed {
            ServicePreparationStep::CleanupMaterialization(ServicePreparationFailureReason::Cancelled)
        } else {
            ServicePreparationStep::Fail(spec_failure(identity, ServicePreparationFailureReason::CleanupIncomplete, Some(vm), true))
        }),
{
    if destroyed {
        ServicePreparationStep::CleanupMaterialization(ServicePreparationFailureReason::Cancelled)
    } else {
        ServicePreparationStep::Fail(ServicePreparationFailure {
            identity,
            reason: ServicePreparationFailureReason::CleanupIncomplete,
            vm: Some(vm),
            materialization_owned: true,
        })
    }
}

/// The failure after cleaning the materialization: the original reason
/// when it was removed, otherwise incomplete cleanup keeping it owned.
pub fn after_materialization_cleanup(
    identity: GatewayServiceIdentity,
    reason: ServicePreparationFailureReason,
    cleaned: bool,
) -> (failure: ServicePreparationFailure)
    ensures
        failure == (if cleaned {
            spec_failure(identity, reason, None, false)
        } else {
            spec_failure(identity, ServicePreparationFailureReason::CleanupIncomplete, None, true)
        }),
{
    if cleaned {
        ServicePreparationFailure { identity, reason, vm: None, materialization_owned: false }
    } else {
        ServicePreparationFailure {
            identity,
            reason: ServicePreparationFailureReason::CleanupIncomplete,
            vm: None,
            materialization_owned: true,
        }
    }
}

} // verus!
