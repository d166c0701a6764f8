use gateway_edge::ident::GatewayServiceOwner;
use gateway_edge::service_capacity::{GatewayServiceCapacityError, GatewayServiceSupervisorPolicy};
use gateway_edge::service_coordinator::{GatewayServiceCoordinatorFailureReason, GatewayServiceStartupIntent};
use gateway_edge::service_supervisor::{
    job_after_claim, job_before_claim, GatewayServiceJobTerminalPlan, GatewayServiceStartupRequest,
    GatewayServiceSupervisor, GatewayServiceSupervisorError, GatewayServiceSupervisorJobStatus,
};
use gateway_edge::ident::GatewayServiceOwnershipError;

fn fresh() -> u128 {
    uuid::Uuid::new_v4().as_u128()
}

fn supervisor() -> GatewayServiceSupervisor {
    GatewayServiceSupervisor::new(
        GatewayServiceOwner::new("test-host".to_owned(), fresh()).expect("owner"),
        GatewayServiceSupervisorPolicy::default(),
        String::from("127.0.0.1:8080"),
    )
    .expect("supervisor")
}

fn request(gateway_id: u128, revision_id: u128) -> GatewayServiceStartupRequest {
    GatewayServiceStartupRequest { gateway_id, revision_id, intent: GatewayServiceStartupIntent::ActivateDesired }
}

#[test]
fn start_reserves_capacity_before_claim_future_is_polled() {
    let mut supervisor = supervisor();
    let request = request(fresh(), fresh());
    let job = supervisor.start(request).expect("reservation");
    assert_eq!(supervisor.job_status(job), Some(GatewayServiceSupervisorJobStatus::Claiming));
    assert_eq!(supervisor.capacity_snapshot().live_instances, 1);
    assert_eq!(supervisor.capacity_snapshot().starting_instances, 1);
    drop(supervisor);
}

#[test]
fn startup_capacity_is_bounded_before_any_claim_is_polled() {
    let mut supervisor = supervisor();
    for _ in 0..2 {
        supervisor.start(request(fresh(), fresh())).expect("startup slot");
    }
    let error = supervisor.start(request(fresh(), fresh())).expect_err("third startup must wait");
    assert_eq!(
        error,
        GatewayServiceSupervisorError::Capacity(GatewayServiceCapacityError::StartupCapacityExhausted)
    );
    drop(supervisor);
}

#[test]
fn duplicate_and_nil_requests_are_refused() {
    let mut supervisor = supervisor();
    let first = request(fresh(), fresh());
    supervisor.start(first).expect("first");
    assert_eq!(supervisor.start(first), Err(GatewayServiceSupervisorError::Duplicate));
    assert_eq!(supervisor.start(request(0, fresh())), Err(GatewayServiceSupervisorError::InvalidInput));
}

#[test]
fn invalid_authority_is_refused() {
    let result = GatewayServiceSupervisor::new(
        GatewayServiceOwner::new("test-host".to_owned(), fresh()).expect("owner"),
        GatewayServiceSupervisorPolicy::default(),
        String::new(),
    );
    assert!(matches!(result, Err(GatewayServiceSupervisorError::InvalidInput)));
}

#[test]
fn cancelled_job_releases_capacity_and_drops_its_record() {
    let mut supervisor = supervisor();
    let job = supervisor.start(request(fresh(), fresh())).expect("reservation");
    let plan = job_before_claim(true, false).expect("cancelled before claim");
    let event = supervisor.finish_job(job, plan);
    assert_eq!(event.status, GatewayServiceSupervisorJobStatus::Cancelled);
    assert!(event.capacity_released);
    assert_eq!(supervisor.capacity_snapshot().live_instances, 0);
    assert_eq!(supervisor.job_status(job), None);
}

#[test]
fn uncertain_claim_keeps_capacity_and_can_be_reconciled() {
    let mut supervisor = supervisor();
    let job = supervisor.start(request(fresh(), fresh())).expect("reservation");
    let plan: GatewayServiceJobTerminalPlan = match job_after_claim(request(1, 2), Err(GatewayServiceOwnershipError::Unavailable)) {
        Err(plan) => plan,
        Ok(_) => panic!("an unavailable claim is not a lease"),
    };
    let event = supervisor.finish_job(job, plan);
    assert_eq!(event.status, GatewayServiceSupervisorJobStatus::Uncertain);
    assert!(!event.capacity_released);
    assert_eq!(supervisor.capacity_snapshot().live_instances, 1);
    assert_eq!(supervisor.capacity_snapshot().starting_instances, 0);
    let resolution = supervisor.reconcile_claim(job).expect("eligible");
    assert!(resolution.known_lease.is_none());
    assert_eq!(supervisor.reconcile_claim(job), Err(GatewayServiceSupervisorError::RetryAlreadyInFlight));
    assert_eq!(supervisor.begin_cleanup_retry(job).unwrap_err(), GatewayServiceSupervisorError::RetryNotEligible);
    let _ = GatewayServiceCoordinatorFailureReason::Cancelled;
    let report = supervisor.shutdown();
    assert_eq!(report.unresolved.len(), 1);
    assert!(report.unresolved[0].claim_uncertain);
}

#[test]
fn unknown_jobs_cannot_retry() {
    let mut supervisor = supervisor();
    assert_eq!(supervisor.begin_cleanup_retry(42).unwrap_err(), GatewayServiceSupervisorError::RetryNotFound);
    assert_eq!(supervisor.reconcile_claim(42), Err(GatewayServiceSupervisorError::RetryNotFound));
}
