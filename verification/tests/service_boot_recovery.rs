use gateway_edge::ident::{GatewayServiceIdentity, GatewayServiceInstanceLease, GatewayServiceInstanceState, GatewayServiceOwner};
use gateway_edge::service_boot_recovery::{
    valid_exact_takeover_lease, valid_owned_recovery_lease, valid_recovery_lease, GatewayServiceBootRecovery,
    GatewayServiceBootRecoveryClaim, GatewayServiceBootRecoveryError, GatewayServiceBootRecoveryEvent,
    GatewayServiceBootRecoveryInventoryStep, GatewayServiceBootRecoveryStep,
};
use gateway_edge::service_cleanup_driver::GatewayServiceCleanupDriverPolicy;
use gateway_edge::policy::GatewayServiceLeasePolicy;

const MINUTE: i128 = 60_000_000_000;

fn fresh() -> u128 {
    uuid::Uuid::new_v4().as_u128()
}

fn inventory_lease() -> GatewayServiceInstanceLease {
    let identity = GatewayServiceIdentity { instance_id: fresh(), gateway_id: fresh(), revision_id: fresh() };
    let now: i128 = 1_700_000_000_000_000_000;
    GatewayServiceInstanceLease {
        identity,
        owner_host_id: String::from("boot-test-host"),
        owner_uuid: fresh(),
        fencing_token: 1,
        state: GatewayServiceInstanceState::Provisioning,
        vm_id: format!("gateway-service-{}", uuid::Uuid::from_u128(identity.instance_id)),
        lease_expires_at_nanos: now + MINUTE,
        heartbeat_at_nanos: now,
    }
}

fn policy() -> GatewayServiceCleanupDriverPolicy {
    GatewayServiceCleanupDriverPolicy {
        lease: GatewayServiceLeasePolicy { lease_duration_nanos: 30_000_000_000, renewal_interval_nanos: 5_000_000_000 },
        database_timeout_nanos: 2_000_000_000,
    }
}

#[test]
fn exact_retry_rejects_a_different_identity_or_fence() {
    let owner = GatewayServiceOwner::new("boot-test-host".to_owned(), fresh()).expect("owner");
    let mut expected = inventory_lease();
    expected.owner_host_id = owner.host_id.clone();
    expected.owner_uuid = owner.owner_uuid;
    expected.state = GatewayServiceInstanceState::Stopping;
    let mut returned = expected.clone();
    assert!(valid_owned_recovery_lease(&returned, &owner, &expected));
    assert!(!valid_exact_takeover_lease(&returned, &owner, &expected));
    returned.fencing_token = expected.fencing_token + 1;
    assert!(valid_exact_takeover_lease(&returned, &owner, &expected));
    returned.identity.instance_id = fresh();
    returned.vm_id = format!("gateway-service-{}", uuid::Uuid::from_u128(returned.identity.instance_id));
    assert!(!valid_owned_recovery_lease(&returned, &owner, &expected));
}

#[test]
fn recovery_lease_requires_the_deterministic_vm_id() {
    let owner = GatewayServiceOwner::new("boot-test-host".to_owned(), fresh()).expect("owner");
    let mut lease = inventory_lease();
    lease.owner_uuid = owner.owner_uuid;
    lease.state = GatewayServiceInstanceState::Stopping;
    assert!(valid_recovery_lease(&lease, &owner));
    lease.vm_id = "gateway-service-other".to_owned();
    assert!(!valid_recovery_lease(&lease, &owner));
}

#[test]
fn empty_fresh_inventory_completes_the_gate() {
    let owner = GatewayServiceOwner::new("boot-test-host".to_owned(), fresh()).expect("owner");
    let mut gate = GatewayServiceBootRecovery::new(owner, policy(), 10_000_000_000).expect("gate");
    assert_eq!(gate.next_step(), GatewayServiceBootRecoveryStep::ListInventory);
    assert_eq!(
        gate.plan_inventory(Ok(Vec::new())),
        GatewayServiceBootRecoveryInventoryStep::Report(Ok(GatewayServiceBootRecoveryEvent::Complete))
    );
    assert!(gate.is_complete());
    assert_eq!(
        gate.next_step(),
        GatewayServiceBootRecoveryStep::Report(GatewayServiceBootRecoveryEvent::Complete)
    );
}

#[test]
fn unavailable_inventory_schedules_a_retry_and_keeps_the_gate_closed() {
    let owner = GatewayServiceOwner::new("boot-test-host".to_owned(), fresh()).expect("owner");
    let mut gate = GatewayServiceBootRecovery::new(owner, policy(), 10_000_000_000).expect("gate");
    assert_eq!(
        gate.plan_inventory(Err(())),
        GatewayServiceBootRecoveryInventoryStep::Report(Err(GatewayServiceBootRecoveryError::Unavailable))
    );
    assert!(!gate.is_complete());
    assert!(gate.take_retry_delay());
    assert!(!gate.take_retry_delay());
}

#[test]
fn own_stopping_rows_are_renewed_before_expired_claims() {
    let owner = GatewayServiceOwner::new("boot-test-host".to_owned(), fresh()).expect("owner");
    let mut gate = GatewayServiceBootRecovery::new(owner.clone(), policy(), 10_000_000_000).expect("gate");
    let mut own = inventory_lease();
    own.owner_uuid = owner.owner_uuid;
    own.state = GatewayServiceInstanceState::Stopping;
    let foreign = inventory_lease();
    match gate.plan_inventory(Ok(vec![foreign.clone(), own.clone()])) {
        GatewayServiceBootRecoveryInventoryStep::Claim(GatewayServiceBootRecoveryClaim::RenewOwnStopping(rows)) => {
            assert_eq!(rows, vec![own]);
        }
        other => panic!("unexpected step {other:?}"),
    }
    assert!(gate.has_pending_work());
    let mut second = GatewayServiceBootRecovery::new(owner, policy(), 10_000_000_000).expect("gate");
    assert_eq!(
        second.plan_inventory(Ok(vec![foreign])),
        GatewayServiceBootRecoveryInventoryStep::Claim(GatewayServiceBootRecoveryClaim::ClaimExpired(2))
    );
}

#[test]
fn malformed_batch_is_kept_and_blocks_completion() {
    let owner = GatewayServiceOwner::new("boot-test-host".to_owned(), fresh()).expect("owner");
    let mut gate = GatewayServiceBootRecovery::new(owner, policy(), 10_000_000_000).expect("gate");
    let foreign = inventory_lease();
    let _ = gate.plan_inventory(Ok(vec![foreign.clone()]));
    let decision = gate.finish_claim(Ok(vec![foreign.clone()]), Vec::new());
    assert_eq!(decision.result, Err(GatewayServiceBootRecoveryError::InvalidInput));
    assert!(decision.start.is_empty());
    assert_eq!(
        gate.next_step(),
        GatewayServiceBootRecoveryStep::Report(GatewayServiceBootRecoveryEvent::Waiting)
    );
    assert!(!gate.is_complete());
    let report = gate.shutdown();
    assert_eq!(report.unresolved_claims, vec![foreign]);
}
