//! Durable persistent-gateway service targets and their bounded pages.
use vstd::prelude::*;
use crate::ident::NIL_UUID;
use crate::routes::GatewayEdgeError;

verus! {

/// Maximum number of gateways returned by one service-target page.
pub const MAX_SERVICE_TARGET_PAGE_SIZE: u16 = 128;

/// Bounded stable-UUID cursor request for service targets.
#[derive(Debug, Clone, Copy, PartialEq, Eq, Structural)]
pub struct GatewayServiceTargetPage {
    /// Return gateways strictly after this gateway identity.
    pub after: Option<u128>,
    /// Maximum number of gateways to return.
    pub limit: u16,
}

impl GatewayServiceTargetPage {
    /// A nonzero, bounded page whose cursor, if any, is not nil.
    pub open spec fn spec_valid(self) -> bool {
        &&& 0 < self.limit <= MAX_SERVICE_TARGET_PAGE_SIZE
        &&& self.after matches Some(a) ==> a != NIL_UUID
    }

    /// Creates a validated service-target page request.
    pub fn new(after: Option<u128>, limit: u16) -> (result: Result<Self, GatewayEdgeError>)
        ensures
            result is Ok <==> (GatewayServiceTargetPage { after, limit }).spec_valid(),
            result matches Ok(page) ==> page == (GatewayServiceTargetPage { after, limit }),
            result matches Err(e) ==> e == GatewayEdgeError::Contract("invalid gateway service target page"),
    {
        let page = GatewayServiceTargetPage { after, limit };
        match page.validate() {
            Ok(()) => Ok(page),
            Err(e) => Err(e),
        }
    }

    /// Validates a page value assembled by an internal caller.
    pub fn validate(self) -> (result: Result<(), GatewayEdgeError>)
        ensures
            result is Ok <==> self.spec_valid(),
            result matches Err(e) ==> e == GatewayEdgeError::Contract("invalid gateway service target page"),
    {
        let nil_cursor = match self.after {
            Some(value) => value == NIL_UUID,
            None => false,
        };
        if self.limit == 0 || self.limit > MAX_SERVICE_TARGET_PAGE_SIZE || nil_cursor {
            return Err(GatewayEdgeError::Contract("invalid gateway service target page"));
        }
        Ok(())
    }
}

/// One immutable service revision and its publication eligibility.
#[derive(Debug, Clone, PartialEq, Eq)]
pub struct GatewayServiceRevisionTarget {
    /// Exact immutable gateway revision identity.
    pub revision_id: u128,
    /// Release supplying the service, when the revision still references one.
    pub release_id: Option<u128>,
    /// Persisted release publication state.
    pub release_state: Option<String>,
    /// Whether this release may be launched by the service resolver.
    pub publication_eligible: bool,
}

/// Current service-related target state for one enabled gateway.
#[derive(Debug, Clone, PartialEq, Eq)]
pub struct GatewayServiceTarget {
    /// Durable gateway identity.
    pub gateway_id: u128,
    /// Durable gateway lifecycle, expected to be `enabled` for page results.
    pub lifecycle: String,
    /// Revision currently serving.
    pub active_revision_id: Option<u128>,
    /// Latest declared service revision awaiting readiness or activation.
    pub desired_service_revision_id: Option<u128>,
    /// Active revision when it is an HTTP service revision.
    pub active_service_revision: Option<GatewayServiceRevisionTarget>,
    /// Desired service revision, including an unpublished candidate.
    pub desired_service_revision: Option<GatewayServiceRevisionTarget>,
}

/// Exact service revision target for an owned instance, including lifecycle.
#[derive(Debug, Clone, PartialEq, Eq)]
pub struct GatewayServiceOwnedTarget {
    /// Durable gateway identity.
    pub gateway_id: u128,
    /// Current gateway lifecycle, including paused or removed states.
    pub lifecycle: String,
    /// Revision currently serving, if any.
    pub active_revision_id: Option<u128>,
    /// Latest desired service revision, if any.
    pub desired_service_revision_id: Option<u128>,
    /// Exact immutable service revision used by the owned instance.
    pub revision: GatewayServiceRevisionTarget,
}

/// One bounded page of service target state.
#[derive(Debug, Clone, PartialEq, Eq)]
pub struct GatewayServiceTargetPageResult {
    /// Targets ordered by gateway UUID.
    pub targets: Vec<GatewayServiceTarget>,
    /// Cursor for the next page, when more rows exist.
    pub next_after: Option<u128>,
}

} // verus!
