//! Dispatch of accepted invocations to stateless handlers or warm services,
//! and the constructors of the runtime bridges.
//!
//! The ports themselves are awaited outside this module; the deadlines and
//! fallbacks of an invocation are decided here.
use vstd::prelude::*;
use crate::ident::GatewayServiceOwner;
use crate::routes::{GatewayEdgeError, GatewayResponse};

verus! {

/// Dispatches an already accepted invocation to its immutable execution target.
pub struct GatewayServiceHandler<R, H, G> {
    /// Execution-target resolver.
    pub resolver: R,
    /// Stateless VM handler.
    pub stateless: H,
    /// Warm-instance registry.
    pub registry: G,
    /// Local service owner.
    pub owner: GatewayServiceOwner,
}

impl<R, H, G> GatewayServiceHandler<R, H, G> {
    /// Creates a dispatcher with one local service owner and warm-instance
    /// registry; a malformed owner is refused.
    pub fn new(resolver: R, stateless: H, registry: G, owner: GatewayServiceOwner) -> (result: Result<Self, GatewayEdgeError>)
        ensures
            result is Ok <==> owner.spec_valid(),
            result matches Ok(handler) ==> handler.resolver == resolver && handler.stateless == stateless
                && handler.registry == registry && handler.owner == owner,
            result matches Err(e) ==> e == GatewayEdgeError::InvalidRoute("invalid service owner"),
    {
        if owner.validate().is_err() {
            return Err(GatewayEdgeError::InvalidRoute("invalid service owner"));
        }
        Ok(GatewayServiceHandler { resolver, stateless, registry, owner })
    }
}

/// Where an accepted invocation runs.
#[derive(Debug, Clone, Copy, PartialEq, Eq, Structural)]
pub enum GatewayExecutionTarget {
    /// A one-shot stateless VM.
    Stateless,
    /// A warm service instance with this much authority time left, in
    /// nanoseconds.
    Service(u128),
}

/// The route's deadline on the caller's monotonic clock: `now` plus the
/// route's execution timeout; an overflowing deadline makes the handler
/// unavailable.
pub fn route_deadline(now_nanos: u128, execution_timeout_nanos: u128) -> (deadline: Result<u128, GatewayEdgeError>)
    ensures
        now_nanos + execution_timeout_nanos <= u128::MAX ==> deadline == Ok::<u128, GatewayEdgeError>((now_nanos + execution_timeout_nanos) as u128),
        now_nanos + execution_timeout_nanos > u128::MAX ==> deadline == Err::<u128, GatewayEdgeError>(GatewayEdgeError::HandlerUnavailable),
{
    match now_nanos.checked_add(execution_timeout_nanos) {
        Some(d) => Ok(d),
        None => Err(GatewayEdgeError::HandlerUnavailable),
    }
}

/// The time a warm-service exchange may take: until the earlier of the
/// service authority's deadline and the route's deadline; none left (or an
/// overflowing authority deadline) makes the handler unavailable.
pub fn service_exchange_timeout(now_nanos: u128, remaining_nanos: u128, route_deadline_nanos: u128) -> (timeout: Result<u128, GatewayEdgeError>)
    ensures
        now_nanos + remaining_nanos > u128::MAX ==> timeout == Err::<u128, GatewayEdgeError>(GatewayEdgeError::HandlerUnavailable),
        now_nanos + remaining_nanos <= u128::MAX ==> {
            let authority = if now_nanos + remaining_nanos <= route_deadline_nanos { now_nanos + remaining_nanos } else { route_deadline_nanos as int };
            if authority <= now_nanos {
                timeout == Err::<u128, GatewayEdgeError>(GatewayEdgeError::HandlerUnavailable)
            } else {
                timeout == Ok::<u128, GatewayEdgeError>((authority - now_nanos) as u128)
            }
        },
{
    let authority = match now_nanos.checked_add(remaining_nanos) {
        Some(d) => if d <= route_deadline_nanos { d } else { route_deadline_nanos },
        None => return Err(GatewayEdgeError::HandlerUnavailable),
    };
    if authority <= now_nanos {
        return Err(GatewayEdgeError::HandlerUnavailable);
    }
    Ok(authority - now_nanos)
}

/// Minimal runtime bridge: immutable release selection, then VM
/// provisioning.
pub struct GatewayRuntimeService<R, L> {
    /// Release resolver.
    pub releases: R,
    /// VM launcher.
    pub launcher: L,
}

impl<R, L> GatewayRuntimeService<R, L> {
    /// Creates an injected release-resolution and VM-provisioning bridge.
    pub fn new(releases: R, launcher: L) -> (service: Self)
        ensures
            service.releases == releases,
            service.launcher == launcher,
    {
        GatewayRuntimeService { releases, launcher }
    }
}

/// Bridges canonical gateway HTTP to a VM provider's private host-to-guest
/// handler transport.
pub struct PrivateHttpVmGatewayHandler<L> {
    /// Release-aware VM launcher.
    pub launcher: L,
}

impl<L> PrivateHttpVmGatewayHandler<L> {
    /// Creates an adapter from the release-aware VM launcher.
    pub fn new(launcher: L) -> (handler: Self)
        ensures
            handler.launcher == launcher,
    {
        PrivateHttpVmGatewayHandler { launcher }
    }
}

/// How a one-shot VM invocation ends: a successful invocation whose VM
/// could not be destroyed becomes unavailable.
pub fn one_shot_result<T>(invocation: Result<T, GatewayEdgeError>, destroyed: bool) -> (result: Result<T, GatewayEdgeError>)
    ensures
        (!destroyed && invocation is Ok) ==> result == Err::<T, GatewayEdgeError>(GatewayEdgeError::HandlerUnavailable),
        !(!destroyed && invocation is Ok) ==> result == invocation,
{
    if !destroyed && invocation.is_ok() {
        return Err(GatewayEdgeError::HandlerUnavailable);
    }
    invocation
}

/// Where one one-shot VM invocation stands.
#[derive(Debug, PartialEq, Eq)]
pub enum GatewayOneShotPhase {
    /// The exact released VM is being launched.
    Launching,
    /// The launched VM is starting.
    Starting,
    /// Private HTTP is being exchanged with the started VM.
    Invoking,
    /// The VM is being destroyed; the invocation's own result waits.
    Destroying(Result<GatewayResponse, GatewayEdgeError>),
    /// The result has been handed back.
    Finished,
}

/// What the outside work of the current phase reported.
#[derive(Debug, PartialEq, Eq)]
pub enum GatewayOneShotEvent {
    /// The launcher returned an instance, or its error.
    Launched(Result<(), GatewayEdgeError>),
    /// The VM started, or failed to.
    Started(bool),
    /// The private HTTP exchange returned a response, or failed.
    Invoked(Option<GatewayResponse>),
    /// The VM was destroyed, or its destruction failed.
    Destroyed(bool),
}

/// The outside work that follows.
#[derive(Debug, PartialEq, Eq)]
pub enum GatewayOneShotAction {
    /// Start the launched VM.
    Start,
    /// Exchange the request with the started VM.
    Invoke,
    /// Destroy the VM.
    Destroy,
    /// Hand this result back.
    Finish(Result<GatewayResponse, GatewayEdgeError>),
    /// The event does not belong to this phase: nothing changes.
    Ignore,
}

/// One step of a one-shot invocation: a launched VM is always destroyed
/// before any result is handed back, start and exchange failures become
/// `HandlerUnavailable`, and a failed destruction turns a response into
/// `HandlerUnavailable`.
pub open spec fn spec_one_shot_step(
    phase: GatewayOneShotPhase,
    event: GatewayOneShotEvent,
) -> (GatewayOneShotPhase, GatewayOneShotAction) {
    let unavailable = Err::<GatewayResponse, GatewayEdgeError>(GatewayEdgeError::HandlerUnavailable);
    match (phase, event) {
        (GatewayOneShotPhase::Launching, GatewayOneShotEvent::Launched(Err(e))) =>
            (GatewayOneShotPhase::Finished, GatewayOneShotAction::Finish(Err(e))),
        (GatewayOneShotPhase::Launching, GatewayOneShotEvent::Launched(Ok(()))) =>
            (GatewayOneShotPhase::Starting, GatewayOneShotAction::Start),
        (GatewayOneShotPhase::Starting, GatewayOneShotEvent::Started(true)) =>
            (GatewayOneShotPhase::Invoking, GatewayOneShotAction::Invoke),
        (GatewayOneShotPhase::Starting, GatewayOneShotEvent::Started(false)) =>
            (GatewayOneShotPhase::Destroying(unavailable), GatewayOneShotAction::Destroy),
        (GatewayOneShotPhase::Invoking, GatewayOneShotEvent::Invoked(Some(response))) =>
            (GatewayOneShotPhase::Destroying(Ok(response)), GatewayOneShotAction::Destroy),
        (GatewayOneShotPhase::Invoking, GatewayOneShotEvent::Invoked(None)) =>
            (GatewayOneShotPhase::Destroying(unavailable), GatewayOneShotAction::Destroy),
        (GatewayOneShotPhase::Destroying(result), GatewayOneShotEvent::Destroyed(destroyed)) =>
            (GatewayOneShotPhase::Finished, GatewayOneShotAction::Finish(
                if !destroyed && result is Ok { unavailable } else { result })),
        (p, _) => (p, GatewayOneShotAction::Ignore),
    }
}

/// Decides one step of a one-shot VM invocation.
pub fn one_shot_step(phase: GatewayOneShotPhase, event: GatewayOneShotEvent) -> (next: (GatewayOneShotPhase, GatewayOneShotAction))
    ensures
        next == spec_one_shot_step(phase, event),
        next.1 is Finish && phase != GatewayOneShotPhase::Launching ==> event is Destroyed,
        next.1 matches GatewayOneShotAction::Finish(Ok(_)) ==> event == GatewayOneShotEvent::Destroyed(true),
        phase == GatewayOneShotPhase::Starting && event == GatewayOneShotEvent::Started(false) ==> next == (
            GatewayOneShotPhase::Destroying(Err(GatewayEdgeError::HandlerUnavailable)), GatewayOneShotAction::Destroy),
        phase == GatewayOneShotPhase::Invoking && event == GatewayOneShotEvent::Invoked(None) ==> next == (
            GatewayOneShotPhase::Destroying(Err(GatewayEdgeError::HandlerUnavailable)), GatewayOneShotAction::Destroy),
{
    match (phase, event) {
        (GatewayOneShotPhase::Launching, GatewayOneShotEvent::Launched(Err(e))) =>
            (GatewayOneShotPhase::Finished, GatewayOneShotAction::Finish(Err(e))),
        (GatewayOneShotPhase::Launching, GatewayOneShotEvent::Launched(Ok(()))) =>
            (GatewayOneShotPhase::Starting, GatewayOneShotAction::Start),
        (GatewayOneShotPhase::Starting, GatewayOneShotEvent::Started(started)) => if started {
            (GatewayOneShotPhase::Invoking, GatewayOneShotAction::Invoke)
        } else {
            (GatewayOneShotPhase::Destroying(Err(GatewayEdgeError::HandlerUnavailable)), GatewayOneShotAction::Destroy)
        },
        (GatewayOneShotPhase::Invoking, GatewayOneShotEvent::Invoked(invoked)) => match invoked {
            Some(response) => (GatewayOneShotPhase::Destroying(Ok(response)), GatewayOneShotAction::Destroy),
            None => (GatewayOneShotPhase::Destroying(Err(GatewayEdgeError::HandlerUnavailable)), GatewayOneShotAction::Destroy),
        },
        (GatewayOneShotPhase::Destroying(result), GatewayOneShotEvent::Destroyed(destroyed)) =>
            (GatewayOneShotPhase::Finished, GatewayOneShotAction::Finish(one_shot_result(result, destroyed))),
        (p, _) => (p, GatewayOneShotAction::Ignore),
    }
}

} // verus!
