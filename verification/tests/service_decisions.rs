use gateway_edge::ident::{
    service_vm_id, GatewayServiceIdentity, GatewayServiceInstanceLease, GatewayServiceInstanceState, GatewayServiceOwner,
    GatewayServiceOwnerError,
};
use gateway_edge::policy::{
    GatewayServiceLeasePolicy, ServiceInstanceError, ServiceInstancePolicy, ServiceProbeError, ServiceProbePolicy,
};
use gateway_edge::routes::{GatewayEdgeError, GatewayScheme};
use gateway_edge::service_cleanup::{GatewayServiceCleanup, GatewayServiceCleanupError, GatewayServiceCleanupStep};
use gateway_edge::service_cleanup_driver::{
    confirm_only_result, exact_claim, validate_stopping, GatewayServiceCleanupDriverError,
    GatewayServiceCleanupDriverOutcome, GatewayServiceCleanupDriverPolicy,
};
use gateway_edge::service_failure::{GatewayServiceFailure, GatewayServiceFailureCode};
use gateway_edge::service_instance::{
    health_admission, map_exit, readiness_pause, readiness_probe_timeout, readiness_step, start_outcome,
    teardown_result, validate_worker_inputs, ServiceFailureOutcome, ServiceReadinessStep, ServiceStartResult,
    ServiceVmExit, ServiceWorkerState,
};
use gateway_edge::service_probe::{
    map_exchange_error, probe_connection_result, probe_preflight, probe_request, probe_result, ServiceProbeSuccess,
};

const INSTANCE: u128 = 0x0123_4567_89ab_cdef_0123_4567_89ab_cdef;

fn identity() -> GatewayServiceIdentity {
    GatewayServiceIdentity { instance_id: INSTANCE, gateway_id: 2, revision_id: 3 }
}

fn owner() -> GatewayServiceOwner {
    GatewayServiceOwner::new("host-a".to_owned(), 9).expect("owner")
}

fn stopping_lease() -> GatewayServiceInstanceLease {
    GatewayServiceInstanceLease {
        identity: identity(),
        owner_host_id: "host-a".to_owned(),
        owner_uuid: 9,
        fencing_token: 4,
        state: GatewayServiceInstanceState::Stopping,
        vm_id: service_vm_id(INSTANCE),
        lease_expires_at_nanos: 1_000,
        heartbeat_at_nanos: 500,
    }
}

fn plain(code: GatewayServiceFailureCode) -> Option<GatewayServiceFailure> {
    Some(GatewayServiceFailure { code, exit_code: None, exit_signal: None })
}

#[test]
fn service_vm_ids_are_the_hyphenated_instance_uuid() {
    assert_eq!(service_vm_id(INSTANCE), "gateway-service-01234567-89ab-cdef-0123-456789abcdef");
    assert_eq!(service_vm_id(1), "gateway-service-00000000-0000-0000-0000-000000000001");
}

#[test]
fn owners_need_a_host_and_an_incarnation() {
    assert_eq!(GatewayServiceOwner::new(String::new(), 9), Err(GatewayServiceOwnerError::InvalidOwner));
    assert_eq!(GatewayServiceOwner::new("h".to_owned(), 0), Err(GatewayServiceOwnerError::InvalidOwner));
    assert_eq!(owner().host_id, "host-a");
}

#[test]
fn lease_policy_bounds() {
    let valid = GatewayServiceLeasePolicy { lease_duration_nanos: 30_000_000_000, renewal_interval_nanos: 10_000_000_000 };
    assert!(valid.validate().is_ok());
    assert!(GatewayServiceLeasePolicy { lease_duration_nanos: 300_000_000_001, ..valid }.validate().is_err());
    assert!(GatewayServiceLeasePolicy { renewal_interval_nanos: 30_000_000_000, ..valid }.validate().is_err());
    assert!(GatewayServiceLeasePolicy { renewal_interval_nanos: 0, ..valid }.validate().is_err());
    let driver = GatewayServiceCleanupDriverPolicy { lease: valid, database_timeout_nanos: 30_000_000_000 };
    assert_eq!(driver.validate(), Ok(()));
    assert_eq!(
        GatewayServiceCleanupDriverPolicy { database_timeout_nanos: 30_000_000_001, ..driver }.validate(),
        Err(GatewayServiceCleanupDriverError::InvalidInput)
    );
}

#[test]
fn cleanup_runs_teardown_then_materializer_then_completes() {
    let mut cleanup = GatewayServiceCleanup::new(identity(), None, 1_000_000_000).expect("cleanup");
    assert_eq!(
        cleanup.next_step(),
        GatewayServiceCleanupStep::CleanupOrphan("gateway-service-01234567-89ab-cdef-0123-456789abcdef".to_owned())
    );
    assert_eq!(cleanup.record_teardown(false), Err(GatewayServiceCleanupError::VmTeardownIncomplete));
    assert!(!cleanup.vm_teardown_confirmed());
    assert_eq!(cleanup.record_teardown(true), Ok(()));
    assert_eq!(cleanup.next_step(), GatewayServiceCleanupStep::CleanupMaterializer);
    assert_eq!(
        cleanup.record_materializer_cleanup(false),
        Err(GatewayServiceCleanupError::MaterializerCleanupIncomplete)
    );
    assert_eq!(cleanup.record_materializer_cleanup(true), Ok(()));
    assert_eq!(cleanup.next_step(), GatewayServiceCleanupStep::Complete);

    let retained = GatewayServiceCleanup::new(identity(), Some(service_vm_id(INSTANCE)), 1).expect("retained");
    assert_eq!(retained.next_step(), GatewayServiceCleanupStep::DestroyRetainedVm);
    assert_eq!(retained.retained_vm(), Some(service_vm_id(INSTANCE)));
}

#[test]
fn cleanup_refuses_a_foreign_vm_or_unbounded_timeout() {
    assert_eq!(
        GatewayServiceCleanup::new(identity(), Some(service_vm_id(5)), 1),
        Err(GatewayServiceCleanupError::InvalidInput)
    );
    assert_eq!(GatewayServiceCleanup::new(identity(), None, 0), Err(GatewayServiceCleanupError::InvalidInput));
    assert_eq!(
        GatewayServiceCleanup::new(identity(), None, 60_000_000_001),
        Err(GatewayServiceCleanupError::InvalidInput)
    );
    let nil = GatewayServiceIdentity { revision_id: 0, ..identity() };
    assert_eq!(GatewayServiceCleanup::from_confirmed_physical(nil, 1), Err(GatewayServiceCleanupError::InvalidInput));
    let done = GatewayServiceCleanup::from_confirmed_physical(identity(), 1).expect("done");
    assert_eq!(done.next_step(), GatewayServiceCleanupStep::Complete);
}

#[test]
fn cleanup_claims_are_exact_and_stopping() {
    let lease = stopping_lease();
    assert_eq!(validate_stopping(&lease, &owner(), identity()), Ok(()));
    let mut foreign = lease.clone();
    foreign.owner_uuid = 10;
    assert!(validate_stopping(&foreign, &owner(), identity()).is_err());
    assert!(!exact_claim(&foreign, &lease));
    let mut ready = lease.clone();
    ready.state = GatewayServiceInstanceState::Ready;
    assert!(validate_stopping(&ready, &owner(), identity()).is_err());

    let mut cleaned = lease.clone();
    cleaned.state = GatewayServiceInstanceState::Cleaned;
    assert_eq!(confirm_only_result(&lease, Ok(Some(cleaned))), Ok(GatewayServiceCleanupDriverOutcome::Cleaned));
    assert_eq!(confirm_only_result(&lease, Ok(Some(lease.clone()))), Err(GatewayServiceCleanupDriverError::Stale));
    assert_eq!(confirm_only_result(&lease, Ok(None)), Err(GatewayServiceCleanupDriverError::Unavailable));
}

#[test]
fn probe_preflight_checks_policy_then_authority() {
    assert_eq!(probe_preflight(ServiceProbePolicy::new(1_000_000), "svc.internal"), Ok(()));
    assert_eq!(probe_preflight(ServiceProbePolicy::new(0), "svc.internal"), Err(ServiceProbeError::InvalidPolicy));
    assert_eq!(probe_preflight(ServiceProbePolicy::new(1), ""), Err(ServiceProbeError::InvalidAuthority));
    assert_eq!(probe_preflight(ServiceProbePolicy::new(1), "bad\nhost"), Err(ServiceProbeError::InvalidAuthority));
    assert_eq!(probe_preflight(ServiceProbePolicy::new(1), "tab\thost"), Ok(()));
}

#[test]
fn probe_outcomes_map_to_redacted_errors() {
    assert_eq!(probe_result(Ok(Ok(204))), Ok(ServiceProbeSuccess { status: 204 }));
    assert_eq!(probe_result(Ok(Ok(301))), Err(ServiceProbeError::NonSuccess(301)));
    assert_eq!(probe_result(Err(())), Err(ServiceProbeError::TimedOut));
    assert_eq!(probe_result(Ok(Err(GatewayEdgeError::Contract("x")))), Err(ServiceProbeError::Contract));
    assert_eq!(map_exchange_error(&GatewayEdgeError::HandlerUnavailable), ServiceProbeError::TimedOut);
    assert_eq!(map_exchange_error(&GatewayEdgeError::Unavailable), ServiceProbeError::Unavailable);
    assert_eq!(probe_connection_result(Ok(Ok(())), 5), Ok(5));
    assert_eq!(probe_connection_result(Ok(Ok(())), 0), Err(ServiceProbeError::TimedOut));
    assert_eq!(probe_connection_result(Ok(Err(())), 5), Err(ServiceProbeError::Unavailable));
    let request = probe_request("/healthz", "svc.internal", 42);
    assert_eq!(request.method, "GET");
    assert_eq!(request.trusted.scheme, GatewayScheme::Http);
    assert_eq!(request.trusted.client_address, "127.0.0.1");
    assert!(request.headers.is_empty() && request.body.is_empty());
}

#[test]
fn readiness_retries_only_transient_probe_failures() {
    assert_eq!(readiness_step(Ok(Ok(200))), ServiceReadinessStep::Ready);
    assert_eq!(readiness_step(Ok(Err(ServiceProbeError::Unavailable))), ServiceReadinessStep::Retry);
    assert_eq!(readiness_step(Ok(Err(ServiceProbeError::NonSuccess(503)))), ServiceReadinessStep::Retry);
    assert_eq!(
        readiness_step(Ok(Err(ServiceProbeError::Contract))),
        ServiceReadinessStep::Fail(ServiceFailureOutcome {
            error: ServiceInstanceError::StartupFailed,
            report: plain(GatewayServiceFailureCode::Readiness),
        })
    );
    assert_eq!(
        readiness_step(Err(())),
        ServiceReadinessStep::Fail(ServiceFailureOutcome {
            error: ServiceInstanceError::StartupTimeout,
            report: plain(GatewayServiceFailureCode::Readiness),
        })
    );
    assert_eq!(readiness_pause(100, 30), Some(30));
    assert_eq!(readiness_pause(100, 300), Some(100));
    assert_eq!(readiness_pause(100, 0), None);
    assert_eq!(readiness_probe_timeout(50, 20), 20);
    assert_eq!(readiness_probe_timeout(50, 80), 50);
}

#[test]
fn startup_and_exit_reports_are_redacted() {
    assert_eq!(start_outcome(ServiceStartResult::Started, false), None);
    assert_eq!(
        start_outcome(ServiceStartResult::Failed, true),
        Some(ServiceFailureOutcome { error: ServiceInstanceError::Shutdown, report: None })
    );
    assert_eq!(
        start_outcome(ServiceStartResult::Failed, false),
        Some(ServiceFailureOutcome {
            error: ServiceInstanceError::StartupFailed,
            report: plain(GatewayServiceFailureCode::Startup),
        })
    );
    let exit = map_exit(Ok(ServiceVmExit { code: Some(3), signal: None }));
    assert_eq!(
        exit.report,
        Some(GatewayServiceFailure { code: GatewayServiceFailureCode::UnexpectedExit, exit_code: Some(3), exit_signal: None })
    );
    let out_of_range = map_exit(Ok(ServiceVmExit { code: Some(300), signal: None }));
    assert_eq!(out_of_range.report, plain(GatewayServiceFailureCode::UnexpectedExit));
    assert_eq!(map_exit(Err(())).error, ServiceInstanceError::UnexpectedExit);
}

#[test]
fn teardown_reports_incomplete_cleanup_first() {
    assert_eq!(
        teardown_result(ServiceInstanceError::Shutdown, true, false),
        (ServiceWorkerState::CleanupIncomplete, Err(ServiceInstanceError::CleanupIncomplete))
    );
    assert_eq!(teardown_result(ServiceInstanceError::Shutdown, true, true), (ServiceWorkerState::Stopped, Ok(())));
    assert_eq!(
        teardown_result(ServiceInstanceError::UnexpectedExit, true, true),
        (ServiceWorkerState::Stopped, Err(ServiceInstanceError::UnexpectedExit))
    );
    assert_eq!(health_admission(ServiceWorkerState::Ready), Ok(()));
    assert_eq!(health_admission(ServiceWorkerState::Probing), Err(ServiceInstanceError::NotReady));
}

#[test]
fn worker_inputs_must_name_the_exact_vm() {
    let policy = ServiceInstancePolicy::new(1_000, 1_000, 1_000, 1_000);
    let vm = service_vm_id(INSTANCE);
    assert_eq!(validate_worker_inputs(policy, true, identity(), &vm, &vm, "svc.internal"), Ok(()));
    let other = service_vm_id(7);
    assert_eq!(
        validate_worker_inputs(policy, true, identity(), &other, &other, "svc.internal"),
        Err(ServiceInstanceError::InvalidPolicy)
    );
    assert_eq!(
        validate_worker_inputs(policy, true, identity(), &vm, &vm, "bad\r\nhost"),
        Err(ServiceInstanceError::InvalidPolicy)
    );
    let zero = ServiceInstancePolicy::new(0, 1_000, 1_000, 1_000);
    assert_eq!(validate_worker_inputs(zero, true, identity(), &vm, &vm, "svc"), Err(ServiceInstanceError::InvalidPolicy));
}

#[test]
fn materializer_failure_does_not_redestroy_vm() {
    let mut cleanup = GatewayServiceCleanup::new(identity(), Some(service_vm_id(INSTANCE)), 1_000_000_000).expect("cleanup");
    assert_eq!(cleanup.next_step(), GatewayServiceCleanupStep::DestroyRetainedVm);
    assert_eq!(cleanup.record_teardown(true), Ok(()));
    assert_eq!(cleanup.next_step(), GatewayServiceCleanupStep::CleanupMaterializer);
    assert_eq!(
        cleanup.record_materializer_cleanup(false),
        Err(GatewayServiceCleanupError::MaterializerCleanupIncomplete)
    );
    assert!(cleanup.vm_teardown_confirmed());
    assert_eq!(cleanup.retained_vm(), None);
    assert_eq!(cleanup.next_step(), GatewayServiceCleanupStep::CleanupMaterializer);
    assert_eq!(cleanup.record_materializer_cleanup(true), Ok(()));
    assert_eq!(cleanup.next_step(), GatewayServiceCleanupStep::Complete);
}
