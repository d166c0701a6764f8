use gateway_edge::caddy::observed_after_load;
use gateway_edge::ident::GatewayServiceOwnershipError;
use gateway_edge::routes::{
    fallback_response, recorded_invocation, substituted_request, GatewayConfigRevision, GatewayEdgeError,
    GatewayInvocationOutcome, GatewayRequest, GatewayResponse, GatewayScheme, TrustedRequestMetadata,
};
use gateway_edge::service_coordinator::{
    coordinator_step, phase_status, GatewayServiceCoordinatorAction as Action,
    GatewayServiceCoordinatorEvent as Event, GatewayServiceCoordinatorFailureReason as Reason,
    GatewayServiceCoordinatorPhase as Phase, GatewayServiceCoordinatorStatus, GatewayServicePreparationExit,
    GatewayServiceStartupIntent as Intent, GatewayServiceTransitionEvent,
};
use gateway_edge::service_handler::{
    one_shot_step, GatewayOneShotAction, GatewayOneShotEvent, GatewayOneShotPhase,
};
use gateway_edge::service_handler::GatewayOneShotEvent::{Destroyed, Invoked, Launched, Started};
use gateway_edge::service_targets::{GatewayServiceOwnedTarget, GatewayServiceRevisionTarget};

fn ok() -> Event {
    Event::TransitionEnded(GatewayServiceTransitionEvent::Completed(Ok(())))
}

fn prepared() -> Event {
    Event::Prepared { exit: GatewayServicePreparationExit::Complete, prepared: true, deadline_passed: false, lease_current: true }
}

fn run(intent: Intent, events: Vec<Event>) -> Vec<(Phase, Action)> {
    let mut phase = Phase::Preparing;
    let mut steps = Vec::new();
    for event in events {
        let (next, action) = coordinator_step(phase, intent, event);
        phase = next;
        steps.push((phase, action));
    }
    steps
}

fn target(revision_id: u128, lifecycle: &str) -> GatewayServiceOwnedTarget {
    GatewayServiceOwnedTarget {
        gateway_id: 1,
        lifecycle: lifecycle.to_owned(),
        active_revision_id: Some(revision_id),
        desired_service_revision_id: None,
        revision: GatewayServiceRevisionTarget {
            revision_id,
            release_id: Some(3),
            release_state: Some("published".to_owned()),
            publication_eligible: true,
        },
    }
}

#[test]
fn activation_registers_marks_ready_and_promotes_after_readiness() {
    let steps = run(
        Intent::ActivateDesired,
        vec![prepared(), ok(), Event::Launched { deadline_passed: false, worker_created: true }, Event::Ready,
            Event::Registered(true), ok(), ok()],
    );
    let actions: Vec<Action> = steps.iter().map(|step| step.1).collect();
    assert_eq!(
        actions,
        vec![Action::MarkStarting, Action::LaunchWorker, Action::AwaitReadiness, Action::Register, Action::MarkReady,
            Action::Promote, Action::Serve]
    );
    assert_eq!(steps.last().map(|step| step.0), Some(Phase::Serving));
    assert_eq!(phase_status(Phase::Serving), GatewayServiceCoordinatorStatus::Ready);
    assert_eq!(phase_status(Phase::Probing), GatewayServiceCoordinatorStatus::Probing);
}

#[test]
fn failed_readiness_never_registers() {
    for reason in [Reason::Runtime, Reason::StartupDeadline, Reason::Cancelled, Reason::LeaseLost] {
        let steps = run(
            Intent::ActivateDesired,
            vec![prepared(), ok(), Event::Launched { deadline_passed: false, worker_created: true }, Event::Failed(reason),
                Event::Ready, Event::Registered(true)],
        );
        assert_eq!(steps[3], (Phase::Cleaning, Action::MarkStopping { reason, registered: false }));
        assert_eq!(steps[4], (Phase::Cleaning, Action::Ignore));
        assert_eq!(steps[5], (Phase::Cleaning, Action::Ignore));
    }
    let early = run(Intent::ActivateDesired, vec![prepared(), Event::Ready]);
    assert_eq!(early[1], (Phase::Starting, Action::Ignore));
}

#[test]
fn restoration_checks_the_target_instead_of_promoting() {
    let head = vec![prepared(), ok(), Event::Launched { deadline_passed: false, worker_created: true }, Event::Ready,
        Event::Registered(true), ok()];
    let mut matching = head.clone();
    matching.push(Event::TargetRead { target: Some(target(7, "enabled")), revision_id: 7 });
    let steps = run(Intent::RestoreActive, matching);
    assert_eq!(steps[5], (Phase::CheckingTarget, Action::CheckTarget));
    assert_eq!(steps[6], (Phase::Serving, Action::Serve));
    let mut paused = head;
    paused.push(Event::TargetRead { target: Some(target(7, "paused")), revision_id: 7 });
    let steps = run(Intent::RestoreActive, paused);
    assert_eq!(steps[6], (Phase::Cleaning, Action::MarkStopping { reason: Reason::TargetUnavailable, registered: true }));
}

#[test]
fn early_failures_clean_up_the_prepared_vm() {
    let late = Event::Prepared {
        exit: GatewayServicePreparationExit::Complete, prepared: true, deadline_passed: true, lease_current: true,
    };
    assert_eq!(run(Intent::ActivateDesired, vec![late])[0], (Phase::Cleaning, Action::CleanupPrepared(Reason::StartupDeadline)));
    let lost = Event::Prepared {
        exit: GatewayServicePreparationExit::Complete, prepared: true, deadline_passed: false, lease_current: false,
    };
    assert_eq!(run(Intent::ActivateDesired, vec![lost])[0], (Phase::Cleaning, Action::CleanupPrepared(Reason::LeaseLost)));
    let failed = Event::Prepared {
        exit: GatewayServicePreparationExit::Complete, prepared: false, deadline_passed: false, lease_current: true,
    };
    assert_eq!(
        run(Intent::ActivateDesired, vec![failed])[0],
        (Phase::Cleaning, Action::CleanupPreparationFailure(Reason::Preparation))
    );
    let rejected = Event::TransitionEnded(GatewayServiceTransitionEvent::Completed(Err(GatewayServiceOwnershipError::StaleLease)));
    assert_eq!(
        run(Intent::ActivateDesired, vec![prepared(), rejected])[1],
        (Phase::Cleaning, Action::CleanupPrepared(Reason::Ownership))
    );
    let no_worker = run(Intent::ActivateDesired, vec![prepared(), ok(), Event::Launched { deadline_passed: false, worker_created: false }]);
    assert_eq!(no_worker[2], (Phase::Cleaning, Action::CleanupVm(Reason::Runtime)));
}

#[test]
fn a_serving_instance_settles_registered() {
    let steps = run(
        Intent::ActivateDesired,
        vec![prepared(), ok(), Event::Launched { deadline_passed: false, worker_created: true }, Event::Ready,
            Event::Registered(true), ok(), ok(), Event::Failed(Reason::LeaseLost)],
    );
    assert_eq!(steps[7], (Phase::Cleaning, Action::MarkStopping { reason: Reason::LeaseLost, registered: true }));
}

fn response() -> GatewayResponse {
    GatewayResponse { status: 200, headers: Vec::new(), body: b"ok".to_vec() }
}

fn one_shot(events: Vec<GatewayOneShotEvent>) -> GatewayOneShotAction {
    let mut phase = GatewayOneShotPhase::Launching;
    let mut last = GatewayOneShotAction::Ignore;
    for event in events {
        let (next, action) = one_shot_step(phase, event);
        phase = next;
        last = action;
    }
    last
}

#[test]
fn one_shot_vms_are_destroyed_before_any_result() {
    assert_eq!(
        one_shot(vec![Launched(Ok(())), Started(true), Invoked(Some(response())), Destroyed(true)]),
        GatewayOneShotAction::Finish(Ok(response()))
    );
    assert_eq!(
        one_shot(vec![Launched(Ok(())), Started(true), Invoked(Some(response()))]),
        GatewayOneShotAction::Destroy
    );
    assert_eq!(
        one_shot(vec![Launched(Ok(())), Started(true), Invoked(Some(response())), Destroyed(false)]),
        GatewayOneShotAction::Finish(Err(GatewayEdgeError::HandlerUnavailable))
    );
    assert_eq!(one_shot(vec![Launched(Ok(())), Started(false)]), GatewayOneShotAction::Destroy);
    assert_eq!(
        one_shot(vec![Launched(Ok(())), Started(false), Destroyed(false)]),
        GatewayOneShotAction::Finish(Err(GatewayEdgeError::HandlerUnavailable))
    );
    assert_eq!(
        one_shot(vec![Launched(Ok(())), Started(true), Invoked(None), Destroyed(true)]),
        GatewayOneShotAction::Finish(Err(GatewayEdgeError::HandlerUnavailable))
    );
    assert_eq!(
        one_shot(vec![Launched(Err(GatewayEdgeError::Unavailable))]),
        GatewayOneShotAction::Finish(Err(GatewayEdgeError::Unavailable))
    );
}

fn request() -> GatewayRequest {
    GatewayRequest {
        method: "GET".to_owned(),
        path_and_query: "/gateway/echo".to_owned(),
        headers: Vec::new(),
        body: Vec::new(),
        trusted: TrustedRequestMetadata {
            scheme: GatewayScheme::Https,
            authority: "edge.example".to_owned(),
            client_address: "127.0.0.1".to_owned(),
            request_id: 4,
        },
    }
}

#[test]
fn dispatch_failures_have_fixed_public_answers() {
    let answer = fallback_response(503);
    assert_eq!(answer.response.status, 503);
    assert!(answer.response.headers.is_empty() && answer.response.body.is_empty());
    assert_eq!(answer.invocation_id, 0);
    assert_eq!(recorded_invocation(Ok(9)), Ok(9));
    assert_eq!(recorded_invocation(Err(GatewayEdgeError::Unavailable)), Err(503));
    assert_eq!(substituted_request(Ok(request())), Ok(request()));
    assert_eq!(
        substituted_request(Err(GatewayEdgeError::SecretRejected)),
        Err((GatewayInvocationOutcome::Rejected, 404))
    );
}

#[test]
fn a_failed_load_leaves_the_observed_revision() {
    let old = GatewayConfigRevision::from_uuid(1);
    let new = GatewayConfigRevision::from_uuid(2);
    assert_eq!(observed_after_load(Some(old), new, Ok(())), (Some(new), Ok(new)));
    assert_eq!(
        observed_after_load(Some(old), new, Err(GatewayEdgeError::Unavailable)),
        (Some(old), Err(GatewayEdgeError::Unavailable))
    );
    assert_eq!(observed_after_load(None, new, Err(GatewayEdgeError::Unavailable)), (None, Err(GatewayEdgeError::Unavailable)));
}
