//! Lifecycle decisions of the worker for one provisioned service VM.
//!
//! The worker's VM calls, probes and timers run outside this module; each
//! decision it takes on their results is made here.
use vstd::prelude::*;
use crate::http_checks::{header_value_valid, spec_header_value_valid};
use crate::ident::{GatewayServiceIdentity, service_vm_id, spec_service_vm_id};
use crate::policy::{ServiceInstanceError, ServiceInstancePolicy, ServiceProbeError};
use crate::service_failure::{GatewayServiceFailure, GatewayServiceFailureCode, failure_for_code, spec_failure_valid};
use crate::text::text_eq;

verus! {

/// Observable state of the in-memory lifecycle worker.
#[derive(Debug, Clone, Copy, PartialEq, Eq, Structural)]
pub enum ServiceWorkerState {
    /// The worker owns a provisioned but not yet started VM.
    Provisioned,
    /// The VM is starting.
    Starting,
    /// The worker is probing the declared readiness endpoint.
    Probing,
    /// Readiness succeeded and bounded health requests are accepted.
    Ready,
    /// The VM is being stopped and destroyed.
    Stopping,
    /// Provider and materializer cleanup completed.
    Stopped,
    /// The instance failed before cleanup completed.
    Failed,
    /// Cleanup could not be completed; the materialized identity remains owned.
    CleanupIncomplete,
}

/// How a VM run ended, as the provider reports it.
#[derive(Debug, Clone, Copy, PartialEq, Eq, Structural)]
pub struct ServiceVmExit {
    /// Process exit status, if any.
    pub code: Option<i32>,
    /// Terminating signal, if any.
    pub signal: Option<i32>,
}

/// The worker's primary error and the redacted report it records.
#[derive(Debug, Clone, Copy, PartialEq, Eq, Structural)]
pub struct ServiceFailureOutcome {
    /// Primary lifecycle error.
    pub error: ServiceInstanceError,
    /// Durable failure report, if the error has one.
    pub report: Option<GatewayServiceFailure>,
}

/// The metadata-free report of a failure class.
pub open spec fn spec_plain_report(code: GatewayServiceFailureCode) -> Option<GatewayServiceFailure> {
    Some(GatewayServiceFailure { code, exit_code: None, exit_signal: None })
}

/// The outcome of an explicit shutdown: no report.
pub open spec fn spec_shutdown_outcome() -> ServiceFailureOutcome {
    ServiceFailureOutcome { error: ServiceInstanceError::Shutdown, report: None }
}

/// The outcome of a startup that ran out of time.
pub open spec fn spec_startup_timeout_outcome() -> ServiceFailureOutcome {
    ServiceFailureOutcome {
        error: ServiceInstanceError::StartupTimeout,
        report: spec_plain_report(GatewayServiceFailureCode::Startup),
    }
}

/// The outcome of a readiness failure with the given error.
pub open spec fn spec_readiness_outcome(error: ServiceInstanceError) -> ServiceFailureOutcome {
    ServiceFailureOutcome { error, report: spec_plain_report(GatewayServiceFailureCode::Readiness) }
}

/// Returns the outcome of an explicit shutdown.
pub fn shutdown_outcome() -> (outcome: ServiceFailureOutcome)
    ensures
        outcome == spec_shutdown_outcome(),
{
    ServiceFailureOutcome { error: ServiceInstanceError::Shutdown, report: None }
}

/// Returns the outcome of a startup that ran out of time.
pub fn startup_timeout_outcome() -> (outcome: ServiceFailureOutcome)
    ensures
        outcome == spec_startup_timeout_outcome(),
{
    ServiceFailureOutcome { error: ServiceInstanceError::StartupTimeout, report: failure_for_code(GatewayServiceFailureCode::Startup) }
}

/// Returns the outcome of a readiness failure with the given error.
pub fn readiness_outcome(error: ServiceInstanceError) -> (outcome: ServiceFailureOutcome)
    ensures
        outcome == spec_readiness_outcome(error),
{
    ServiceFailureOutcome { error, report: failure_for_code(GatewayServiceFailureCode::Readiness) }
}

/// The report of an unexpected exit: the exit metadata when it is storable,
/// else the plain report.
pub open spec fn spec_exit_outcome(exit: Result<ServiceVmExit, ()>) -> ServiceFailureOutcome {
    ServiceFailureOutcome {
        error: ServiceInstanceError::UnexpectedExit,
        report: match exit {
            Ok(e) => if spec_failure_valid(GatewayServiceFailureCode::UnexpectedExit, e.code, e.signal) {
                Some(GatewayServiceFailure { code: GatewayServiceFailureCode::UnexpectedExit, exit_code: e.code, exit_signal: e.signal })
            } else {
                spec_plain_report(GatewayServiceFailureCode::UnexpectedExit)
            },
            Err(()) => spec_plain_report(GatewayServiceFailureCode::UnexpectedExit),
        },
    }
}

/// Maps a VM exit (or a failed wait) to the worker's failure: malformed
/// exit metadata is redacted to the plain report.
pub fn map_exit(exit: Result<ServiceVmExit, ()>) -> (outcome: ServiceFailureOutcome)
    ensures
        outcome == spec_exit_outcome(exit),
{
    let report = match exit {
        Ok(e) => match GatewayServiceFailure::new(GatewayServiceFailureCode::UnexpectedExit, e.code, e.signal) {
            Ok(failure) => Some(failure),
            Err(_) => failure_for_code(GatewayServiceFailureCode::UnexpectedExit),
        },
        Err(()) => failure_for_code(GatewayServiceFailureCode::UnexpectedExit),
    };
    ServiceFailureOutcome { error: ServiceInstanceError::UnexpectedExit, report }
}

/// The report a startup error carries: a startup failure or timeout is a
/// startup report; anything else has none.
pub open spec fn spec_failure_for_startup(error: ServiceInstanceError) -> Option<GatewayServiceFailure> {
    match error {
        ServiceInstanceError::StartupFailed | ServiceInstanceError::StartupTimeout =>
            spec_plain_report(GatewayServiceFailureCode::Startup),
        _ => None,
    }
}

/// Returns the report a startup error carries.
pub fn failure_for_startup(error: &ServiceInstanceError) -> (report: Option<GatewayServiceFailure>)
    ensures
        report == spec_failure_for_startup(*error),
{
    match error {
        ServiceInstanceError::StartupFailed | ServiceInstanceError::StartupTimeout =>
            failure_for_code(GatewayServiceFailureCode::Startup),
        _ => None,
    }
}

/// How starting the VM ended.
#[derive(Debug, Clone, Copy, PartialEq, Eq, Structural)]
pub enum ServiceStartResult {
    /// The VM started.
    Started,
    /// The provider reported an error (or the start was cancelled).
    Failed,
    /// The startup deadline elapsed first.
    TimedOut,
}

/// Decides what follows the VM start: `None` proceeds to readiness; a
/// failure while cancelling is a shutdown, otherwise a startup failure.
pub fn start_outcome(start: ServiceStartResult, cancelled: bool) -> (outcome: Option<ServiceFailureOutcome>)
    ensures
        outcome == (match start {
            ServiceStartResult::Started => None,
            ServiceStartResult::Failed => if cancelled {
                Some(ServiceFailureOutcome { error: ServiceInstanceError::Shutdown, report: None })
            } else {
                Some(ServiceFailureOutcome {
                    error: ServiceInstanceError::StartupFailed,
                    report: spec_plain_report(GatewayServiceFailureCode::Startup),
                })
            },
            ServiceStartResult::TimedOut => Some(spec_startup_timeout_outcome()),
        }),
{
    match start {
        ServiceStartResult::Started => None,
        ServiceStartResult::Failed => {
            let error = if cancelled { ServiceInstanceError::Shutdown } else { ServiceInstanceError::StartupFailed };
            Some(ServiceFailureOutcome { error, report: failure_for_startup(&error) })
        },
        ServiceStartResult::TimedOut => Some(startup_timeout_outcome()),
    }
}

/// What follows one readiness probe.
#[derive(Debug, Clone, Copy, PartialEq, Eq, Structural)]
pub enum ServiceReadinessStep {
    /// The service is ready.
    Ready,
    /// Pause, then probe again.
    Retry,
    /// Stop with this failure.
    Fail(ServiceFailureOutcome),
}

/// Decides one readiness probe: success is ready; a timeout is a startup
/// timeout; a malformed policy, authority or response fails startup; any
/// other probe error is retried.  `Err(())` is the startup deadline.
pub fn readiness_step(probe: Result<Result<u16, ServiceProbeError>, ()>) -> (step: ServiceReadinessStep)
    ensures
        step == (match probe {
            Err(()) => ServiceReadinessStep::Fail(spec_readiness_outcome(ServiceInstanceError::StartupTimeout)),
            Ok(Ok(_)) => ServiceReadinessStep::Ready,
            Ok(Err(ServiceProbeError::InvalidPolicy)) | Ok(Err(ServiceProbeError::InvalidAuthority))
            | Ok(Err(ServiceProbeError::Contract)) =>
                ServiceReadinessStep::Fail(spec_readiness_outcome(ServiceInstanceError::StartupFailed)),
            Ok(Err(_)) => ServiceReadinessStep::Retry,
        }),
{
    match probe {
        Err(()) => ServiceReadinessStep::Fail(readiness_outcome(ServiceInstanceError::StartupTimeout)),
        Ok(Ok(_)) => ServiceReadinessStep::Ready,
        Ok(Err(ServiceProbeError::InvalidPolicy)) | Ok(Err(ServiceProbeError::InvalidAuthority))
        | Ok(Err(ServiceProbeError::Contract)) =>
            ServiceReadinessStep::Fail(readiness_outcome(ServiceInstanceError::StartupFailed)),
        Ok(Err(_)) => ServiceReadinessStep::Retry,
    }
}

/// The pause before the next readiness probe: the probe interval, cut
/// short by the remaining startup time; `None` when no time remains.
pub fn readiness_pause(probe_interval_nanos: u128, remaining_nanos: u128) -> (pause: Option<u128>)
    ensures
        pause == (if remaining_nanos == 0 || probe_interval_nanos == 0 {
            None
        } else if probe_interval_nanos <= remaining_nanos {
            Some(probe_interval_nanos)
        } else {
            Some(remaining_nanos)
        }),
{
    let pause = if probe_interval_nanos <= remaining_nanos { probe_interval_nanos } else { remaining_nanos };
    if pause == 0 {
        None
    } else {
        Some(pause)
    }
}

/// The probe timeout for one readiness probe: the policy's timeout, cut
/// short by the remaining startup time.
pub fn readiness_probe_timeout(probe_timeout_nanos: u128, remaining_nanos: u128) -> (timeout: u128)
    ensures
        timeout == (if probe_timeout_nanos <= remaining_nanos { probe_timeout_nanos } else { remaining_nanos }),
{
    if probe_timeout_nanos <= remaining_nanos { probe_timeout_nanos } else { remaining_nanos }
}

/// How the worker's teardown ends: its final state and result.  Cleanup
/// that did not complete wins over the primary error; a completed cleanup
/// after an explicit shutdown is a success.
pub open spec fn spec_teardown_result(
    primary: ServiceInstanceError,
    destroyed: bool,
    materializer_cleaned: bool,
) -> (ServiceWorkerState, Result<(), ServiceInstanceError>) {
    if !destroyed || !materializer_cleaned {
        (ServiceWorkerState::CleanupIncomplete, Err(ServiceInstanceError::CleanupIncomplete))
    } else if primary == ServiceInstanceError::Shutdown {
        (ServiceWorkerState::Stopped, Ok(()))
    } else {
        (ServiceWorkerState::Stopped, Err(primary))
    }
}

/// A worker ends `Stopped` only when both its VM was destroyed and its
/// materialization cleaned up; a failed destroy or a failed cleanup always
/// ends in `CleanupIncomplete`, whatever stopped the worker. A clean
/// teardown succeeds after an explicit shutdown and otherwise reports the
/// error that stopped the worker.
pub proof fn lemma_teardown_stops_only_when_clean(
    primary: ServiceInstanceError,
    destroyed: bool,
    materializer_cleaned: bool,
)
    ensures
        !destroyed ==> spec_teardown_result(primary, destroyed, materializer_cleaned)
            == (ServiceWorkerState::CleanupIncomplete, Err::<(), ServiceInstanceError>(ServiceInstanceError::CleanupIncomplete)),
        !materializer_cleaned ==> spec_teardown_result(primary, destroyed, materializer_cleaned)
            == (ServiceWorkerState::CleanupIncomplete, Err::<(), ServiceInstanceError>(ServiceInstanceError::CleanupIncomplete)),
        spec_teardown_result(primary, destroyed, materializer_cleaned).0 == ServiceWorkerState::Stopped
            ==> destroyed && materializer_cleaned,
        spec_teardown_result(primary, destroyed, materializer_cleaned).1 is Ok
            ==> destroyed && materializer_cleaned && primary == ServiceInstanceError::Shutdown,
        destroyed && materializer_cleaned ==> spec_teardown_result(primary, destroyed, materializer_cleaned).0
            == ServiceWorkerState::Stopped,
{
}

/// Decides how teardown ends from the destroy and materializer results.
pub fn teardown_result(
    primary: ServiceInstanceError,
    destroyed: bool,
    materializer_cleaned: bool,
) -> (result: (ServiceWorkerState, Result<(), ServiceInstanceError>))
    ensures
        result == spec_teardown_result(primary, destroyed, materializer_cleaned),
{
    if !destroyed || !materializer_cleaned {
        return (ServiceWorkerState::CleanupIncomplete, Err(ServiceInstanceError::CleanupIncomplete));
    }
    if primary == ServiceInstanceError::Shutdown {
        (ServiceWorkerState::Stopped, Ok(()))
    } else {
        (ServiceWorkerState::Stopped, Err(primary))
    }
}

/// The worker's inputs are acceptable: a valid policy and service
/// declaration, a complete identity whose deterministic VM ID is the launch
/// spec's and the VM's, and a nonempty authority usable as a header value.
pub open spec fn spec_worker_inputs_valid(
    policy: ServiceInstancePolicy,
    service_valid: bool,
    identity: GatewayServiceIdentity,
    spec_vm_id: Seq<char>,
    vm_id: Seq<char>,
    authority: Seq<char>,
) -> bool {
    &&& policy.spec_valid()
    &&& service_valid
    &&& identity.spec_complete()
    &&& spec_vm_id == spec_service_vm_id(identity.instance_id)
    &&& vm_id == spec_vm_id
    &&& authority.len() > 0
    &&& spec_header_value_valid(authority)
}

/// Validates a worker's inputs before anything is started.  The service
/// declaration's own validation result is passed in.
pub fn validate_worker_inputs(
    policy: ServiceInstancePolicy,
    service_valid: bool,
    identity: GatewayServiceIdentity,
    spec_vm_id: &str,
    vm_id: &str,
    authority: &str,
) -> (result: Result<(), ServiceInstanceError>)
    ensures
        result is Ok <==> spec_worker_inputs_valid(policy, service_valid, identity, spec_vm_id@, vm_id@, authority@),
        result is Err ==> result == Err::<(), ServiceInstanceError>(ServiceInstanceError::InvalidPolicy),
{
    policy.validate()?;
    if !service_valid || !identity.is_complete() {
        return Err(ServiceInstanceError::InvalidPolicy);
    }
    let expected = service_vm_id(identity.instance_id);
    if !text_eq(spec_vm_id, expected.as_str()) || !text_eq(vm_id, spec_vm_id) {
        return Err(ServiceInstanceError::InvalidPolicy);
    }
    if !header_value_valid(authority) || authority.is_empty() {
        return Err(ServiceInstanceError::InvalidPolicy);
    }
    Ok(())
}

/// A health request is admitted only while the worker is ready.
pub fn health_admission(state: ServiceWorkerState) -> (result: Result<(), ServiceInstanceError>)
    ensures
        result is Ok <==> state == ServiceWorkerState::Ready,
        result is Err ==> result == Err::<(), ServiceInstanceError>(ServiceInstanceError::NotReady),
{
    if state != ServiceWorkerState::Ready {
        return Err(ServiceInstanceError::NotReady);
    }
    Ok(())
}

} // verus!
