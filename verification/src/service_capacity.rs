//! Supervisor-owned capacity accounting for persistent gateway services.
use vstd::prelude::*;
use std::collections::HashMap;
use vstd::std_specs::iter::IteratorSpec;
use crate::ident::{NIL_UUID, random_uuid};
use crate::policy::{
    GatewayServiceLeasePolicy, ServiceInstancePolicy, MAX_SERVICE_REGISTRY_CAPACITY,
    MAX_SERVICE_REQUEST_CAPACITY,
};

verus! {

broadcast use vstd::std_specs::hash::group_hash_axioms;

/// Default number of gateways allowed to have a serving or replacement instance.
pub const DEFAULT_SERVICE_SERVING_CAPACITY: usize = 8;
/// Default number of extra instances reserved for replacement and draining.
pub const DEFAULT_SERVICE_REPLACEMENT_CAPACITY: usize = 2;
/// Default maximum number of concurrent revisions for one gateway.
pub const DEFAULT_SERVICE_MAX_REVISIONS_PER_GATEWAY: usize = 2;
/// Default number of starts that may be in progress at once.
pub const DEFAULT_SERVICE_MAX_STARTUPS: usize = 2;
/// Default concurrent HTTP request capacity for one service instance.
pub const DEFAULT_SERVICE_REQUEST_CAPACITY: usize = 16;
/// Default health-check interval, in nanoseconds.
pub const DEFAULT_SERVICE_HEALTH_INTERVAL_NANOS: u128 = 10_000_000_000;
/// Default consecutive health failures before a service is considered lost.
pub const DEFAULT_SERVICE_HEALTH_FAILURES: u32 = 3;
/// Default drain grace period, in nanoseconds.
pub const DEFAULT_SERVICE_DRAIN_TIMEOUT_NANOS: u128 = 30_000_000_000;

/// Maximum health-check interval, in nanoseconds.
pub const MAX_SERVICE_HEALTH_INTERVAL_NANOS: u128 = 300_000_000_000;
/// Maximum consecutive health failures tolerated.
pub const MAX_SERVICE_HEALTH_FAILURES: u32 = 32;
/// Maximum drain grace period, in nanoseconds.
pub const MAX_SERVICE_DRAIN_TIMEOUT_NANOS: u128 = 600_000_000_000;

/// Validated platform policy shared by the persistent-service supervisor.
#[derive(Debug, Clone, Copy, PartialEq, Eq, Structural)]
pub struct GatewayServiceSupervisorPolicy {
    /// Maximum number of distinct gateways with live instances.
    pub serving_gateway_capacity: usize,
    /// Additional instance slots for replacement and draining.
    pub replacement_capacity: usize,
    /// Maximum live revisions for one gateway.
    pub max_revisions_per_gateway: usize,
    /// Maximum starts whose readiness has not completed.
    pub max_simultaneous_startups: usize,
    /// Maximum concurrent HTTP requests admitted to one instance.
    pub requests_per_instance: usize,
    /// Durable ownership heartbeat policy.
    pub lease: GatewayServiceLeasePolicy,
    /// VM start, readiness, and shutdown policy.
    pub instance: ServiceInstancePolicy,
    /// Delay between health probes while the instance is serving.
    pub health_interval_nanos: u128,
    /// Consecutive health failures tolerated before draining.
    pub health_failure_threshold: u32,
    /// Maximum time allowed for a draining instance to finish.
    pub drain_timeout_nanos: u128,
}

/// Capacity accounting failures that the supervisor can handle without
/// mutating durable ownership.
#[derive(Debug, Clone, Copy, PartialEq, Eq, Structural)]
pub enum GatewayServiceCapacityError {
    /// The policy or gateway/revision identity is invalid.
    InvalidPolicy,
    /// The distinct-gateway serving capacity is full for a new gateway.
    ServingCapacityExhausted,
    /// The total instance capacity is full.
    TotalCapacityExhausted,
    /// This gateway already has its maximum live revisions.
    RevisionCapacityExhausted,
    /// The startup allowance is full.
    StartupCapacityExhausted,
    /// The exact gateway/revision pair is already reserved.
    DuplicateRevision,
    /// The token does not identify a live reservation.
    UnknownReservation,
    /// Startup was already completed for this token.
    StartupAlreadyComplete,
}

impl Default for GatewayServiceSupervisorPolicy {
    /// The platform default policy.
    fn default() -> (policy: Self)
        ensures
            policy == Self::spec_default(),
    {
        Self::default_policy()
    }
}

impl GatewayServiceSupervisorPolicy {
    /// The platform default policy.
    pub open spec fn spec_default() -> Self {
        GatewayServiceSupervisorPolicy {
            serving_gateway_capacity: DEFAULT_SERVICE_SERVING_CAPACITY,
            replacement_capacity: DEFAULT_SERVICE_REPLACEMENT_CAPACITY,
            max_revisions_per_gateway: DEFAULT_SERVICE_MAX_REVISIONS_PER_GATEWAY,
            max_simultaneous_startups: DEFAULT_SERVICE_MAX_STARTUPS,
            requests_per_instance: DEFAULT_SERVICE_REQUEST_CAPACITY,
            lease: GatewayServiceLeasePolicy {
                lease_duration_nanos: 30_000_000_000u128,
                renewal_interval_nanos: 5_000_000_000u128,
            },
            instance: ServiceInstancePolicy {
                startup_timeout_nanos: 120_000_000_000u128,
                probe_interval_nanos: 500_000_000u128,
                probe_timeout_nanos: 2_000_000_000u128,
                shutdown_timeout_nanos: 10_000_000_000u128,
            },
            health_interval_nanos: DEFAULT_SERVICE_HEALTH_INTERVAL_NANOS,
            health_failure_threshold: DEFAULT_SERVICE_HEALTH_FAILURES,
            drain_timeout_nanos: DEFAULT_SERVICE_DRAIN_TIMEOUT_NANOS,
        }
    }

    /// Returns the platform default policy.
    pub fn default_policy() -> (policy: Self)
        ensures
            policy == Self::spec_default(),
            policy.spec_valid(),
    {
        GatewayServiceSupervisorPolicy {
            serving_gateway_capacity: DEFAULT_SERVICE_SERVING_CAPACITY,
            replacement_capacity: DEFAULT_SERVICE_REPLACEMENT_CAPACITY,
            max_revisions_per_gateway: DEFAULT_SERVICE_MAX_REVISIONS_PER_GATEWAY,
            max_simultaneous_startups: DEFAULT_SERVICE_MAX_STARTUPS,
            requests_per_instance: DEFAULT_SERVICE_REQUEST_CAPACITY,
            lease: GatewayServiceLeasePolicy {
                lease_duration_nanos: 30_000_000_000u128,
                renewal_interval_nanos: 5_000_000_000u128,
            },
            instance: ServiceInstancePolicy::new(
                120_000_000_000u128,
                500_000_000u128,
                2_000_000_000u128,
                10_000_000_000u128,
            ),
            health_interval_nanos: DEFAULT_SERVICE_HEALTH_INTERVAL_NANOS,
            health_failure_threshold: DEFAULT_SERVICE_HEALTH_FAILURES,
            drain_timeout_nanos: DEFAULT_SERVICE_DRAIN_TIMEOUT_NANOS,
        }
    }

    /// Every capacity, duration, and lifecycle ratio is inside its bound.
    pub open spec fn spec_valid(self) -> bool {
        &&& self.serving_gateway_capacity != 0
        &&& self.replacement_capacity != 0
        &&& self.max_revisions_per_gateway == 2
        &&& self.max_simultaneous_startups != 0
        &&& self.requests_per_instance != 0
        &&& self.serving_gateway_capacity <= MAX_SERVICE_REGISTRY_CAPACITY
        &&& self.serving_gateway_capacity + self.replacement_capacity <= MAX_SERVICE_REGISTRY_CAPACITY
        &&& self.requests_per_instance <= MAX_SERVICE_REQUEST_CAPACITY
        &&& self.max_simultaneous_startups <= self.serving_gateway_capacity + self.replacement_capacity
        &&& self.lease.spec_valid()
        &&& self.instance.spec_valid()
        &&& self.instance.probe_timeout_nanos <= self.instance.startup_timeout_nanos
        &&& 0 < self.health_interval_nanos <= MAX_SERVICE_HEALTH_INTERVAL_NANOS
        &&& 1 <= self.health_failure_threshold <= MAX_SERVICE_HEALTH_FAILURES
        &&& 0 < self.drain_timeout_nanos <= MAX_SERVICE_DRAIN_TIMEOUT_NANOS
    }

    /// Validates all supervisor bounds and timing relationships.
    pub fn validate(self) -> (result: Result<(), GatewayServiceCapacityError>)
        ensures
            result is Ok <==> self.spec_valid(),
            result is Err ==> result == Err::<(), _>(GatewayServiceCapacityError::InvalidPolicy),
    {
        let total = self.serving_gateway_capacity.checked_add(self.replacement_capacity);
        let total_too_large = match total {
            None => true,
            Some(t) => t > MAX_SERVICE_REGISTRY_CAPACITY,
        };
        if self.serving_gateway_capacity == 0 || self.replacement_capacity == 0
            || self.max_revisions_per_gateway != 2 || self.max_simultaneous_startups == 0
            || self.requests_per_instance == 0
            || self.serving_gateway_capacity > MAX_SERVICE_REGISTRY_CAPACITY
            || total_too_large
            || self.requests_per_instance > MAX_SERVICE_REQUEST_CAPACITY
            || self.max_simultaneous_startups
                > self.serving_gateway_capacity.saturating_add(self.replacement_capacity) {
            return Err(GatewayServiceCapacityError::InvalidPolicy);
        }
        if self.lease.validate().is_err() {
            return Err(GatewayServiceCapacityError::InvalidPolicy);
        }
        if self.instance.validate().is_err() {
            return Err(GatewayServiceCapacityError::InvalidPolicy);
        }
        if self.instance.probe_timeout_nanos > self.instance.startup_timeout_nanos
            || self.health_interval_nanos == 0
            || self.health_interval_nanos > MAX_SERVICE_HEALTH_INTERVAL_NANOS
            || self.health_failure_threshold < 1
            || self.health_failure_threshold > MAX_SERVICE_HEALTH_FAILURES
            || self.drain_timeout_nanos == 0
            || self.drain_timeout_nanos > MAX_SERVICE_DRAIN_TIMEOUT_NANOS {
            return Err(GatewayServiceCapacityError::InvalidPolicy);
        }
        Ok(())
    }
}

/// Opaque token for one capacity reservation.  Dropping it never releases
/// capacity; the supervisor must call [`GatewayServiceCapacity::complete`].
#[derive(Debug, Clone, Copy, PartialEq, Eq, Structural, Hash)]
pub struct GatewayServiceCapacityToken {
    /// Random reservation identifier.
    pub id: u128,
}

/// Bounded capacity counts for supervisor reconciliation and diagnostics.
#[derive(Debug, Clone, Copy, PartialEq, Eq, Structural)]
pub struct GatewayServiceCapacitySnapshot {
    /// Number of distinct gateways with a live reservation.
    pub serving_gateways: usize,
    /// Number of live instance reservations, including draining instances.
    pub live_instances: usize,
    /// Number of reservations that have not completed startup.
    pub starting_instances: usize,
}

/// One live reservation.
#[derive(Debug, Clone, Copy, PartialEq, Eq, Structural)]
pub struct CapacityReservation {
    /// Token identifier.
    pub token: u128,
    /// Reserved gateway.
    pub gateway_id: u128,
    /// Reserved revision.
    pub revision_id: u128,
    /// Whether readiness released the startup allowance.
    pub startup_complete: bool,
}

/// Number of reservations still starting.
pub open spec fn spec_starting(s: Seq<CapacityReservation>) -> nat
    decreases s.len(),
{
    if s.len() == 0 {
        0
    } else {
        spec_starting(s.drop_last()) + if s.last().startup_complete { 0nat } else { 1nat }
    }
}

/// Number of reservations held by one gateway.
pub open spec fn spec_gateway_count(s: Seq<CapacityReservation>, gateway_id: u128) -> nat
    decreases s.len(),
{
    if s.len() == 0 {
        0
    } else {
        spec_gateway_count(s.drop_last(), gateway_id) + if s.last().gateway_id == gateway_id {
            1nat
        } else {
            0nat
        }
    }
}

/// Gateways with at least one reservation.
pub open spec fn spec_gateways(s: Seq<CapacityReservation>) -> Set<u128>
    decreases s.len(),
{
    if s.len() == 0 {
        Set::empty()
    } else {
        spec_gateways(s.drop_last()).insert(s.last().gateway_id)
    }
}

/// The counts reported for a reservation sequence.
pub open spec fn spec_snapshot(s: Seq<CapacityReservation>) -> GatewayServiceCapacitySnapshot {
    GatewayServiceCapacitySnapshot {
        serving_gateways: spec_gateways(s).len() as usize,
        live_instances: s.len() as usize,
        starting_instances: spec_starting(s) as usize,
    }
}

/// Whether a token is live.
pub open spec fn spec_has_token(s: Seq<CapacityReservation>, token: u128) -> bool {
    exists|i: int| 0 <= i < s.len() && s[i].token == token
}

/// Whether a gateway/revision pair is reserved.
pub open spec fn spec_has_revision(s: Seq<CapacityReservation>, gateway_id: u128, revision_id: u128) -> bool {
    exists|i: int| 0 <= i < s.len() && s[i].gateway_id == gateway_id && s[i].revision_id == revision_id
}

/// Tokens and gateway/revision pairs are unique.
pub open spec fn spec_unique(s: Seq<CapacityReservation>) -> bool {
    forall|i: int, j: int|
        0 <= i < s.len() && 0 <= j < s.len() && i != j ==> {
            &&& s[i].token != s[j].token
            &&& !(s[i].gateway_id == s[j].gateway_id && s[i].revision_id == s[j].revision_id)
        }
}

/// Every policy bound holds for a reservation sequence.
pub open spec fn spec_within_policy(s: Seq<CapacityReservation>, policy: GatewayServiceSupervisorPolicy) -> bool {
    &&& s.len() <= policy.serving_gateway_capacity + policy.replacement_capacity
    &&& spec_starting(s) <= policy.max_simultaneous_startups
    &&& spec_gateways(s).len() <= policy.serving_gateway_capacity
    &&& forall|g: u128| #[trigger] spec_gateway_count(s, g) <= policy.max_revisions_per_gateway
}

/// Result of a reservation attempt on a given state, in the order the
/// bounds are checked.
pub open spec fn spec_reserve_error(
    s: Seq<CapacityReservation>,
    policy: GatewayServiceSupervisorPolicy,
    gateway_id: u128,
    revision_id: u128,
) -> Option<GatewayServiceCapacityError> {
    if gateway_id == NIL_UUID || revision_id == NIL_UUID {
        Some(GatewayServiceCapacityError::InvalidPolicy)
    } else if spec_has_revision(s, gateway_id, revision_id) {
        Some(GatewayServiceCapacityError::DuplicateRevision)
    } else if spec_gateway_count(s, gateway_id) >= policy.max_revisions_per_gateway {
        Some(GatewayServiceCapacityError::RevisionCapacityExhausted)
    } else if spec_starting(s) >= policy.max_simultaneous_startups {
        Some(GatewayServiceCapacityError::StartupCapacityExhausted)
    } else if spec_gateway_count(s, gateway_id) == 0
        && spec_gateways(s).len() >= policy.serving_gateway_capacity {
        Some(GatewayServiceCapacityError::ServingCapacityExhausted)
    } else if s.len() >= policy.serving_gateway_capacity + policy.replacement_capacity {
        Some(GatewayServiceCapacityError::TotalCapacityExhausted)
    } else {
        None
    }
}

// ----- counting lemmas -----

proof fn lemma_gateways_finite(s: Seq<CapacityReservation>)
    ensures
        spec_gateways(s).finite(),
        spec_gateways(s).len() <= s.len(),
    decreases s.len(),
{
    if s.len() > 0 {
        lemma_gateways_finite(s.drop_last());
    }
}

proof fn lemma_gateways_contains(s: Seq<CapacityReservation>, g: u128)
    ensures
        spec_gateways(s).contains(g) <==> spec_gateway_count(s, g) > 0,
        spec_gateway_count(s, g) > 0 <==> (exists|i: int| 0 <= i < s.len() && s[i].gateway_id == g),
    decreases s.len(),
{
    if s.len() > 0 {
        lemma_gateways_contains(s.drop_last(), g);
        if exists|i: int| 0 <= i < s.len() && s[i].gateway_id == g {
            let i = choose|i: int| 0 <= i < s.len() && s[i].gateway_id == g;
            if i < s.len() - 1 {
                assert(s.drop_last()[i].gateway_id == g);
            }
        }
        if exists|i: int| 0 <= i < s.drop_last().len() && s.drop_last()[i].gateway_id == g {
            let i = choose|i: int| 0 <= i < s.drop_last().len() && s.drop_last()[i].gateway_id == g;
            assert(s[i].gateway_id == g);
        }
    }
}

proof fn lemma_counts_push(s: Seq<CapacityReservation>, e: CapacityReservation)
    ensures
        s.push(e).drop_last() == s,
        spec_starting(s.push(e)) == spec_starting(s) + if e.startup_complete { 0nat } else { 1nat },
        forall|g: u128| #[trigger] spec_gateway_count(s.push(e), g)
            == spec_gateway_count(s, g) + if e.gateway_id == g { 1nat } else { 0nat },
        spec_gateways(s.push(e)) == spec_gateways(s).insert(e.gateway_id),
{
    assert(s.push(e).drop_last() =~= s);
}

proof fn lemma_counts_remove(s: Seq<CapacityReservation>, i: int)
    requires
        0 <= i < s.len(),
    ensures
        spec_starting(s) == spec_starting(s.remove(i)) + if s[i].startup_complete { 0nat } else { 1nat },
        forall|g: u128| #[trigger] spec_gateway_count(s, g)
            == spec_gateway_count(s.remove(i), g) + if s[i].gateway_id == g { 1nat } else { 0nat },
        spec_gateways(s.remove(i)).subset_of(spec_gateways(s)),
    decreases s.len(),
{
    if i == s.len() - 1 {
        assert(s.remove(i) =~= s.drop_last());
    } else {
        let t = s.drop_last();
        lemma_counts_remove(t, i);
        assert(s.remove(i) =~= t.remove(i).push(s.last()));
        lemma_counts_push(t.remove(i), s.last());
        assert forall|g: u128| #[trigger] spec_gateway_count(s, g)
            == spec_gateway_count(s.remove(i), g) + if s[i].gateway_id == g { 1nat } else { 0nat } by {
            assert(t[i] == s[i]);
            assert(spec_gateway_count(t, g) == spec_gateway_count(t.remove(i), g) + if t[i].gateway_id == g { 1nat } else { 0nat });
            assert(spec_gateway_count(t.remove(i).push(s.last()), g) == spec_gateway_count(t.remove(i), g) + if s.last().gateway_id == g { 1nat } else { 0nat });
        }
        assert(t[i] == s[i]);
    }
}

/// Tokens are unique along a reservation sequence.
pub open spec fn spec_tokens_unique(s: Seq<CapacityReservation>) -> bool {
    forall|i: int, j: int| 0 <= i < s.len() && 0 <= j < s.len() && i != j ==> s[i].token != s[j].token
}

/// Two reservation sequences hold the same reservations, each token once.
pub open spec fn spec_same_reservations(a: Seq<CapacityReservation>, b: Seq<CapacityReservation>) -> bool {
    &&& spec_tokens_unique(a)
    &&& spec_tokens_unique(b)
    &&& forall|x: CapacityReservation| a.contains(x) <==> b.contains(x)
}

/// Sequences that hold the same reservations have the same counts.
proof fn lemma_same_counts(a: Seq<CapacityReservation>, b: Seq<CapacityReservation>)
    requires
        spec_same_reservations(a, b),
    ensures
        a.len() == b.len(),
        spec_starting(a) == spec_starting(b),
        forall|g: u128| #[trigger] spec_gateway_count(a, g) == spec_gateway_count(b, g),
        spec_gateways(a) == spec_gateways(b),
    decreases a.len(),
{
    if a.len() == 0 {
        if b.len() > 0 {
            assert(b.contains(b[0]));
        }
        assert(b =~= a);
    } else {
        let x = a.last();
        let a2 = a.drop_last();
        assert(a.contains(x));
        let j = choose|j: int| 0 <= j < b.len() && b[j] == x;
        let b2 = b.remove(j);
        assert forall|y: CapacityReservation| a2.contains(y) <==> b2.contains(y) by {
            if a2.contains(y) {
                let i = choose|i: int| 0 <= i < a2.len() && a2[i] == y;
                assert(a[i] == y);
                assert(a.contains(y));
                let k = choose|k: int| 0 <= k < b.len() && b[k] == y;
                if k == j {
                    assert(a[a.len() - 1].token == a[i].token);
                }
                if k < j {
                    assert(b2[k] == y);
                } else {
                    assert(b2[k - 1] == y);
                }
            }
            if b2.contains(y) {
                let k = choose|k: int| 0 <= k < b2.len() && b2[k] == y;
                let k2 = if k < j { k } else { k + 1 };
                assert(b[k2] == y);
                assert(b.contains(y));
                let i = choose|i: int| 0 <= i < a.len() && a[i] == y;
                if i == a.len() - 1 {
                    assert(b[k2].token == b[j].token);
                }
                assert(a2[i] == y);
            }
        }
        assert forall|p: int, q: int| 0 <= p < b2.len() && 0 <= q < b2.len() && p != q implies b2[p].token != b2[q].token by {
            let p2 = if p < j { p } else { p + 1 };
            let q2 = if q < j { q } else { q + 1 };
            assert(b2[p] == b[p2] && b2[q] == b[q2]);
        }
        assert forall|p: int, q: int| 0 <= p < a2.len() && 0 <= q < a2.len() && p != q implies a2[p].token != a2[q].token by {
            assert(a2[p] == a[p] && a2[q] == a[q]);
        }
        lemma_same_counts(a2, b2);
        assert(a =~= a2.push(x));
        lemma_counts_push(a2, x);
        lemma_counts_remove(b, j);
        assert forall|g: u128| #[trigger] spec_gateway_count(a, g) == spec_gateway_count(b, g) by {}
        assert(spec_gateways(a) =~= spec_gateways(b)) by {
            assert forall|g: u128| spec_gateways(a).contains(g) <==> spec_gateways(b).contains(g) by {
                lemma_gateways_contains(a, g);
                lemma_gateways_contains(b, g);
            }
        }
    }
}

/// Mutable single-owner capacity accounting for the service supervisor:
/// live reservations keyed by their token, and the tokens in the order the
/// reservations were made.
#[derive(Debug)]
pub struct GatewayServiceCapacity {
    policy: GatewayServiceSupervisorPolicy,
    reservations: HashMap<u128, CapacityReservation>,
    order: Vec<u128>,
}

impl View for GatewayServiceCapacity {
    type V = Seq<CapacityReservation>;

    /// The live reservations, in the order they were made.
    closed spec fn view(&self) -> Seq<CapacityReservation> {
        self.order@.map_values(|token: u128| self.reservations@[token])
    }
}

impl GatewayServiceCapacity {
    /// The validated policy used by this accounting state.
    pub closed spec fn spec_policy(&self) -> GatewayServiceSupervisorPolicy {
        self.policy
    }

    /// The map holds exactly the live reservations, each under its token.
    pub closed spec fn spec_stored(&self) -> bool {
        &&& forall|k: u128| #[trigger] self.reservations@.contains_key(k) <==> spec_has_token(self@, k)
        &&& forall|i: int| 0 <= i < self@.len() ==> #[trigger] self.reservations@[self@[i].token] == self@[i]
        &&& forall|i: int| 0 <= i < self@.len() ==> #[trigger] self@[i].token == self.order@[i]
    }

    /// The policy is valid, the map holds the reservations, reservations are
    /// unique, and every bound holds.
    pub open spec fn wf(&self) -> bool {
        &&& self.spec_policy().spec_valid()
        &&& self.spec_stored()
        &&& spec_unique(self@)
        &&& spec_within_policy(self@, self.spec_policy())
    }

    /// Creates an empty accounting state after validating the policy.
    pub fn new(policy: GatewayServiceSupervisorPolicy) -> (result: Result<Self, GatewayServiceCapacityError>)
        ensures
            result is Ok <==> policy.spec_valid(),
            result is Err ==> result == Err::<Self, _>(GatewayServiceCapacityError::InvalidPolicy),
            result matches Ok(capacity) ==> {
                &&& capacity.wf()
                &&& capacity.spec_policy() == policy
                &&& capacity@ == Seq::<CapacityReservation>::empty()
            },
    {
        policy.validate()?;
        let capacity = GatewayServiceCapacity {
            policy,
            reservations: HashMap::new(),
            order: Vec::new(),
        };
        proof {
            assert(capacity@ =~= Seq::<CapacityReservation>::empty());
            assert(spec_gateways(capacity@) == Set::<u128>::empty());
        }
        Ok(capacity)
    }

    /// Returns the validated policy used by this accounting state.
    pub fn policy(&self) -> (policy: GatewayServiceSupervisorPolicy)
        ensures
            policy == self.spec_policy(),
    {
        self.policy
    }

    fn find_token(&self, token: u128) -> (found: bool)
        requires
            self.spec_stored(),
        ensures
            found == spec_has_token(self@, token),
    {
        self.reservations.contains_key(&token)
    }

    /// Lists the live reservations, in the map's order.
    fn listed(&self) -> (listed: Vec<CapacityReservation>)
        requires
            self.wf(),
        ensures
            spec_same_reservations(listed@, self@),
    {
        let mut listed: Vec<CapacityReservation> = Vec::new();
        let ghost all = self.reservations.iter().remaining().map_values(
            |p: (&u128, &CapacityReservation)| *p.1,
        );
        let ghost keys = self.reservations.iter().remaining().map_values(|p: (&u128, &CapacityReservation)| *p.0);
        let probe = self.reservations.iter();
        proof {
            assert(probe.remaining().no_duplicates());
        }
        for (_token, reservation) in it: self.reservations.iter()
            invariant
                all == it.seq().map_values(|p: (&u128, &CapacityReservation)| *p.1),
                listed@ == all.take(it.index() as int),
        {
            proof {
                assert(all.take(it.index() + 1) =~= all.take(it.index() as int).push(all[it.index() as int]));
            }
            listed.push(*reservation);
        }
        proof {
            assert(all.take(all.len() as int) =~= all);
            let v = self.reservations.iter().remaining();
            let m = self.reservations@;
            assert(all.len() == v.len());
            assert forall|i: int| 0 <= i < v.len() implies m.contains_key(*v[i].0) && m[*v[i].0] == *v[i].1
                && (#[trigger] all[i]).token == *v[i].0 by {
                assert(m.contains_key(*v[i].0));
                let k = *v[i].0;
                let t = choose|t: int| 0 <= t < self@.len() && self@[t].token == k;
                assert(m[self@[t].token] == self@[t]);
            }
            assert forall|x: CapacityReservation| all.contains(x) <==> self@.contains(x) by {
                if all.contains(x) {
                    let i = choose|i: int| 0 <= i < all.len() && all[i] == x;
                    let k = *v[i].0;
                    let t = choose|t: int| 0 <= t < self@.len() && self@[t].token == k;
                    assert(m[self@[t].token] == self@[t]);
                    assert(self@[t] == x);
                }
                if self@.contains(x) {
                    let t = choose|t: int| 0 <= t < self@.len() && self@[t] == x;
                    assert(m[self@[t].token] == self@[t]);
                    assert(spec_has_token(self@, x.token));
                    assert(m.contains_key(x.token));
                    assert(v.contains((&x.token, &m[x.token])));
                    let i = choose|i: int| 0 <= i < v.len() && v[i] == (&x.token, &m[x.token]);
                    assert(all[i] == x);
                }
            }
            assert forall|i: int, j: int| 0 <= i < all.len() && 0 <= j < all.len() && i != j
                implies all[i].token != all[j].token by {
                if all[i].token == all[j].token {
                    assert(*v[i].0 == *v[j].0);
                    assert(v[i] == v[j]);
                }
            }
            assert forall|i: int, j: int| 0 <= i < self@.len() && 0 <= j < self@.len() && i != j
                implies self@[i].token != self@[j].token by {}
        }
        listed
    }

    /// Returns bounded current counts.  Every reservation remains counted
    /// until its explicit completion.
    pub fn snapshot(&self) -> (snapshot: GatewayServiceCapacitySnapshot)
        requires
            self.wf(),
        ensures
            snapshot == spec_snapshot(self@),
    {
        let v = self.listed();
        let s = Ghost(v@);
        proof {
            lemma_same_counts(v@, self@);
        }
        let mut serving: usize = 0;
        let mut starting: usize = 0;
        let mut i: usize = 0;
        proof {
            assert(s@.take(0) =~= Seq::<CapacityReservation>::empty());
        }
        while i < v.len()
            invariant
                s@ == v@,
                s@.len() <= MAX_SERVICE_REGISTRY_CAPACITY,
                i <= s@.len(),
                serving == spec_gateways(s@.take(i as int)).len(),
                starting == spec_starting(s@.take(i as int)),
                serving <= i,
                starting <= i,
            decreases s@.len() - i,
        {
            let entry = v[i];
            let mut seen = false;
            let mut j: usize = 0;
            while j < i
                invariant
                    s@ == v@,
                    j <= i < s@.len(),
                    entry == s@[i as int],
                    seen <==> exists|k: int| 0 <= k < j && s@[k].gateway_id == entry.gateway_id,
                decreases i - j,
            {
                if v[j].gateway_id == entry.gateway_id {
                    seen = true;
                }
                j += 1;
            }
            proof {
                let t = s@.take(i as int);
                assert(s@.take(i + 1) =~= t.push(entry));
                lemma_counts_push(t, entry);
                lemma_gateways_contains(t, entry.gateway_id);
                lemma_gateways_finite(t);
                assert(seen <==> exists|k: int| 0 <= k < t.len() && t[k].gateway_id == entry.gateway_id) by {
                    if seen {
                        let k = choose|k: int| 0 <= k < i && s@[k].gateway_id == entry.gateway_id;
                        assert(t[k].gateway_id == entry.gateway_id);
                    }
                }
            }
            if !seen {
                serving += 1;
            }
            if !entry.startup_complete {
                starting += 1;
            }
            i += 1;
        }
        proof {
            assert(s@.take(s@.len() as int) =~= s@);
        }
        GatewayServiceCapacitySnapshot {
            serving_gateways: serving,
            live_instances: v.len(),
            starting_instances: starting,
        }
    }

    fn gateway_instances(&self, gateway_id: u128) -> (count: usize)
        requires
            self.wf(),
        ensures
            count == spec_gateway_count(self@, gateway_id),
    {
        let v = self.listed();
        let s = Ghost(v@);
        proof {
            lemma_same_counts(v@, self@);
        }
        let mut count: usize = 0;
        let mut i: usize = 0;
        proof {
            assert(s@.take(0) =~= Seq::<CapacityReservation>::empty());
        }
        while i < v.len()
            invariant
                s@ == v@,
                s@.len() <= MAX_SERVICE_REGISTRY_CAPACITY,
                i <= s@.len(),
                count == spec_gateway_count(s@.take(i as int), gateway_id),
                count <= i,
            decreases s@.len() - i,
        {
            proof {
                assert(s@.take(i + 1) =~= s@.take(i as int).push(s@[i as int]));
                lemma_counts_push(s@.take(i as int), s@[i as int]);
            }
            if v[i].gateway_id == gateway_id {
                count += 1;
            }
            i += 1;
        }
        proof {
            assert(s@.take(s@.len() as int) =~= s@);
        }
        count
    }

    fn has_revision(&self, gateway_id: u128, revision_id: u128) -> (found: bool)
        requires
            self.wf(),
        ensures
            found == spec_has_revision(self@, gateway_id, revision_id),
    {
        let v = self.listed();
        let mut i: usize = 0;
        while i < v.len()
            invariant
                i <= v@.len(),
                spec_same_reservations(v@, self@),
                forall|j: int| 0 <= j < i ==> !(v@[j].gateway_id == gateway_id && v@[j].revision_id == revision_id),
            decreases v@.len() - i,
        {
            if v[i].gateway_id == gateway_id && v[i].revision_id == revision_id {
                proof {
                    assert(v@.contains(v@[i as int]));
                    assert(self@.contains(v@[i as int]));
                }
                return true;
            }
            i += 1;
        }
        proof {
            if spec_has_revision(self@, gateway_id, revision_id) {
                let k = choose|k: int| 0 <= k < self@.len() && self@[k].gateway_id == gateway_id
                    && self@[k].revision_id == revision_id;
                assert(self@.contains(self@[k]));
                assert(v@.contains(self@[k]));
            }
        }
        false
    }

    /// Chooses an identifier not used by a live reservation, preferring a
    /// fresh random one.
    fn fresh_token(&self) -> (token: u128)
        requires
            self.wf(),
        ensures
            !spec_has_token(self@, token),
    {
        let candidate = random_uuid();
        if !self.find_token(candidate) {
            return candidate;
        }
        let listed = self.listed();
        let n = listed.len();
        proof {
            lemma_same_counts(listed@, self@);
        }
        let base: u128 = if candidate <= u128::MAX - 128 { candidate } else { candidate - 128 };
        let mut k: usize = 0;
        let ghost mut tried: Set<u128> = Set::empty();
        while k <= n
            invariant
                n == self@.len(),
                n <= MAX_SERVICE_REGISTRY_CAPACITY,
                self.wf(),
                base <= u128::MAX - 128,
                k <= n + 1,
                tried.finite(),
                tried.len() == k,
                forall|x: u128| #[trigger] tried.contains(x) ==> base <= x < base + k && spec_has_token(self@, x),
                spec_unique(self@),
            decreases n + 1 - k,
        {
            let value: u128 = base + k as u128;
            if !self.find_token(value) {
                return value;
            }
            proof {
                assert(!tried.contains(value));
                tried = tried.insert(value);
            }
            k += 1;
        }
        proof {
            let tokens = self@.map_values(|e: CapacityReservation| e.token).to_set();
            assert(tried.subset_of(tokens)) by {
                assert forall|x: u128| tried.contains(x) implies tokens.contains(x) by {
                    let i = choose|i: int| 0 <= i < self@.len() && self@[i].token == x;
                    assert(self@.map_values(|e: CapacityReservation| e.token)[i] == x);
                }
            }
            self@.map_values(|e: CapacityReservation| e.token).lemma_cardinality_of_set();
            vstd::set_lib::lemma_len_subset(tried, tokens);
        }
        candidate
    }

    /// Reserves startup and live-instance capacity before durable DB claim.
    pub fn reserve(&mut self, gateway_id: u128, revision_id: u128) -> (result: Result<GatewayServiceCapacityToken, GatewayServiceCapacityError>)
        requires
            old(self).wf(),
        ensures
            final(self).wf(),
            final(self).spec_policy() == old(self).spec_policy(),
            match spec_reserve_error(old(self)@, old(self).spec_policy(), gateway_id, revision_id) {
                Some(error) => result == Err::<GatewayServiceCapacityToken, _>(error) && final(self)@ == old(self)@,
                None => result matches Ok(token) && {
                    &&& !spec_has_token(old(self)@, token.id)
                    &&& final(self)@ == old(self)@.push(CapacityReservation {
                        token: token.id,
                        gateway_id,
                        revision_id,
                        startup_complete: false,
                    })
                },
            },
    {
        if gateway_id == NIL_UUID || revision_id == NIL_UUID {
            return Err(GatewayServiceCapacityError::InvalidPolicy);
        }
        let snapshot = self.snapshot();
        if self.has_revision(gateway_id, revision_id) {
            return Err(GatewayServiceCapacityError::DuplicateRevision);
        }
        let gateway_instances = self.gateway_instances(gateway_id);
        if gateway_instances >= self.policy.max_revisions_per_gateway {
            return Err(GatewayServiceCapacityError::RevisionCapacityExhausted);
        }
        if snapshot.starting_instances >= self.policy.max_simultaneous_startups {
            return Err(GatewayServiceCapacityError::StartupCapacityExhausted);
        }
        let gateway_exists = gateway_instances > 0;
        if !gateway_exists && snapshot.serving_gateways >= self.policy.serving_gateway_capacity {
            return Err(GatewayServiceCapacityError::ServingCapacityExhausted);
        }
        if snapshot.live_instances >= self.policy.serving_gateway_capacity.saturating_add(self.policy.replacement_capacity) {
            return Err(GatewayServiceCapacityError::TotalCapacityExhausted);
        }
        let id = self.fresh_token();
        let entry = CapacityReservation { token: id, gateway_id, revision_id, startup_complete: false };
        let ghost old_s = self@;
        let ghost old_m = self.reservations@;
        let ghost old_order = self.order@;
        self.reservations.insert(id, entry);
        self.order.push(id);
        proof {
            assert forall|t: int| 0 <= t < old_s.len() implies old_order[t] != id by {
                assert(old_s[t].token == old_order[t]);
            }
            assert(self@ =~= old_s.push(entry)) by {
                assert forall|t: int| 0 <= t < old_s.len() implies #[trigger] self@[t] == old_s[t] by {
                    assert(old_s[t].token == old_order[t]);
                    assert(old_m[old_s[t].token] == old_s[t]);
                }
            }
            assert forall|k: u128| #[trigger] self.reservations@.contains_key(k) <==> spec_has_token(self@, k) by {
                if k == id {
                    assert(self@[old_s.len() as int].token == id);
                }
                if spec_has_token(old_s, k) {
                    let t = choose|t: int| 0 <= t < old_s.len() && old_s[t].token == k;
                    assert(self@[t].token == k);
                }
                if spec_has_token(self@, k) {
                    let t = choose|t: int| 0 <= t < self@.len() && self@[t].token == k;
                    if t < old_s.len() {
                        assert(old_s[t].token == k);
                    }
                }
            }
            assert forall|t: int| 0 <= t < self@.len() implies #[trigger] self.reservations@[self@[t].token] == self@[t] by {
                if t < old_s.len() {
                    assert(old_s[t] == self@[t]);
                    assert(spec_has_token(old_s, old_s[t].token));
                    assert(old_m[old_s[t].token] == old_s[t]);
                }
            }
            lemma_counts_push(old_s, entry);
            lemma_gateways_contains(old_s, gateway_id);
            lemma_gateways_finite(old_s);
            assert(self@ == old_s.push(entry));
            assert forall|i: int, j: int|
                0 <= i < self@.len() && 0 <= j < self@.len() && i != j implies {
                    &&& self@[i].token != self@[j].token
                    &&& !(self@[i].gateway_id == self@[j].gateway_id && self@[i].revision_id == self@[j].revision_id)
                } by {
                if i == old_s.len() {
                    assert(self@[j] == old_s[j]);
                } else if j == old_s.len() {
                    assert(self@[i] == old_s[i]);
                } else {
                    assert(self@[i] == old_s[i] && self@[j] == old_s[j]);
                }
            }
        }
        Ok(GatewayServiceCapacityToken { id })
    }

    /// Marks startup complete and releases only this reservation's startup
    /// allowance while retaining its live capacity.
    pub fn finish_startup(&mut self, token: GatewayServiceCapacityToken) -> (result: Result<(), GatewayServiceCapacityError>)
        requires
            old(self).wf(),
        ensures
            final(self).wf(),
            final(self).spec_policy() == old(self).spec_policy(),
            !spec_has_token(old(self)@, token.id) ==> {
                &&& result == Err::<(), _>(GatewayServiceCapacityError::UnknownReservation)
                &&& final(self)@ == old(self)@
            },
            forall|i: int| #![trigger old(self)@[i]] 0 <= i < old(self)@.len() && old(self)@[i].token == token.id ==> {
                if old(self)@[i].startup_complete {
                    &&& result == Err::<(), _>(GatewayServiceCapacityError::StartupAlreadyComplete)
                    &&& final(self)@ == old(self)@
                } else {
                    &&& result is Ok
                    &&& final(self)@ == old(self)@.update(i, CapacityReservation {
                        startup_complete: true,
                        ..old(self)@[i]
                    })
                }
            },
    {
        let entry = match self.reservations.get(&token.id) {
            None => return Err(GatewayServiceCapacityError::UnknownReservation),
            Some(entry) => *entry,
        };
        let ghost i = choose|i: int| 0 <= i < self@.len() && self@[i].token == token.id;
        proof {
            assert(self.reservations@[self@[i].token] == self@[i]);
            assert(entry == self@[i]);
        }
        if entry.startup_complete {
            return Err(GatewayServiceCapacityError::StartupAlreadyComplete);
        }
        let updated = CapacityReservation { startup_complete: true, ..entry };
        let ghost old_s = self@;
        let ghost old_m = self.reservations@;
        let ghost old_order = self.order@;
        self.reservations.insert(token.id, updated);
        proof {
            assert(self@ =~= old_s.update(i, updated)) by {
                assert forall|t: int| 0 <= t < old_s.len() implies #[trigger] self@[t] == old_s.update(i, updated)[t] by {
                    assert(old_s[t].token == old_order[t]);
                    assert(old_m[old_s[t].token] == old_s[t]);
                    if t != i {
                        assert(old_s[t].token != old_s[i].token);
                    }
                }
            }
            assert forall|k: u128| #[trigger] self.reservations@.contains_key(k) <==> spec_has_token(self@, k) by {
                if spec_has_token(old_s, k) {
                    let t = choose|t: int| 0 <= t < old_s.len() && old_s[t].token == k;
                    assert(self@[t].token == k);
                }
                if spec_has_token(self@, k) {
                    let t = choose|t: int| 0 <= t < self@.len() && self@[t].token == k;
                    assert(old_s[t].token == k);
                }
            }
            assert forall|t: int| 0 <= t < self@.len() implies #[trigger] self.reservations@[self@[t].token] == self@[t] by {
                if t != i {
                    assert(old_s[t] == self@[t]);
                    assert(old_m[old_s[t].token] == old_s[t]);
                }
            }
            assert(self@ == old_s.update(i, updated));
            // Counting through the update: remove the entry, then push back
            // in either form; the starting count drops by one.
            lemma_counts_remove(old_s, i);
            lemma_counts_remove(self@, i);
            assert(old_s.remove(i) =~= self@.remove(i));
            assert forall|g: u128| #[trigger] spec_gateway_count(self@, g) == spec_gateway_count(old_s, g) by {}
            assert(spec_gateways(self@) =~= spec_gateways(old_s)) by {
                assert forall|g: u128| spec_gateways(self@).contains(g) <==> spec_gateways(old_s).contains(g) by {
                    lemma_gateways_contains(self@, g);
                    lemma_gateways_contains(old_s, g);
                }
            }
            assert forall|a: int, b: int| 0 <= a < self@.len() && 0 <= b < self@.len() && a != b implies {
                &&& self@[a].token != self@[b].token
                &&& !(self@[a].gateway_id == self@[b].gateway_id && self@[a].revision_id == self@[b].revision_id)
            } by {
                assert(old_s[a].token == self@[a].token && old_s[b].token == self@[b].token);
                assert(old_s[a].gateway_id == self@[a].gateway_id && old_s[b].gateway_id == self@[b].gateway_id);
                assert(old_s[a].revision_id == self@[a].revision_id && old_s[b].revision_id == self@[b].revision_id);
            }
            assert forall|k: int| 0 <= k < old_s.len() && old_s[k].token == token.id implies k == i by {}
        }
        Ok(())
    }

    /// Completes exact-token cleanup and releases its retained capacity.
    pub fn complete(&mut self, token: GatewayServiceCapacityToken) -> (result: Result<(), GatewayServiceCapacityError>)
        requires
            old(self).wf(),
        ensures
            final(self).wf(),
            final(self).spec_policy() == old(self).spec_policy(),
            !spec_has_token(old(self)@, token.id) ==> {
                &&& result == Err::<(), _>(GatewayServiceCapacityError::UnknownReservation)
                &&& final(self)@ == old(self)@
            },
            forall|i: int| #![trigger old(self)@[i]] 0 <= i < old(self)@.len() && old(self)@[i].token == token.id ==> {
                &&& result is Ok
                &&& final(self)@ == old(self)@.remove(i)
            },
    {
        let mut index: usize = 0;
        while index < self.order.len() && self.order[index] != token.id
            invariant
                self.wf(),
                index <= self@.len(),
                forall|j: int| 0 <= j < index ==> self@[j].token != token.id,
            decreases self@.len() - index,
        {
            index += 1;
        }
        if index == self.order.len() {
            return Err(GatewayServiceCapacityError::UnknownReservation);
        }
        let ghost i = index as int;
        let ghost old_s = self@;
        let ghost old_m = self.reservations@;
        let ghost old_order = self.order@;
        self.reservations.remove(&token.id);
        self.order.remove(index);
        proof {
            assert(old_s[i].token == token.id);
            assert(self@ =~= old_s.remove(i)) by {
                assert forall|t: int| 0 <= t < self@.len() implies #[trigger] self@[t] == old_s.remove(i)[t] by {
                    let t2 = if t < i { t } else { t + 1 };
                    assert(old_s[t2].token == old_order[t2]);
                    assert(old_m[old_s[t2].token] == old_s[t2]);
                    assert(old_s[t2].token != old_s[i].token);
                }
            }
            assert forall|k: u128| #[trigger] self.reservations@.contains_key(k) <==> spec_has_token(self@, k) by {
                if spec_has_token(old_s, k) && k != token.id {
                    let t = choose|t: int| 0 <= t < old_s.len() && old_s[t].token == k;
                    if t < i {
                        assert(self@[t].token == k);
                    } else {
                        assert(self@[t - 1].token == k);
                    }
                }
                if spec_has_token(self@, k) {
                    let t = choose|t: int| 0 <= t < self@.len() && self@[t].token == k;
                    let t2 = if t < i { t } else { t + 1 };
                    assert(old_s[t2].token == k);
                    assert(t2 != i);
                }
            }
            assert forall|t: int| 0 <= t < self@.len() implies #[trigger] self.reservations@[self@[t].token] == self@[t] by {
                let t2 = if t < i { t } else { t + 1 };
                assert(old_s[t2] == self@[t]);
                assert(old_m[old_s[t2].token] == old_s[t2]);
                assert(t2 != i);
            }
            lemma_counts_remove(old_s, i);
            lemma_gateways_finite(old_s);
            vstd::set_lib::lemma_len_subset(spec_gateways(self@), spec_gateways(old_s));
            assert forall|g: u128| #[trigger] spec_gateway_count(self@, g) <= self.policy.max_revisions_per_gateway by {
                assert(spec_gateway_count(old_s, g) <= self.policy.max_revisions_per_gateway);
            }
            assert forall|a: int, b: int| 0 <= a < self@.len() && 0 <= b < self@.len() && a != b implies {
                &&& self@[a].token != self@[b].token
                &&& !(self@[a].gateway_id == self@[b].gateway_id && self@[a].revision_id == self@[b].revision_id)
            } by {
                let a2 = if a < i { a } else { a + 1 };
                let b2 = if b < i { b } else { b + 1 };
                assert(self@[a] == old_s[a2] && self@[b] == old_s[b2]);
            }
            assert forall|k: int| 0 <= k < old_s.len() && old_s[k].token == token.id implies k == i by {}
        }
        Ok(())
    }
}

/// Reserving a fresh token and then completing that same token gives the
/// reservations back exactly as they were.
pub proof fn lemma_reserve_then_complete_restores(s: Seq<CapacityReservation>, gateway_id: u128, revision_id: u128, token: u128)
    requires
        !spec_has_token(s, token),
    ensures
        ({
            let pushed = s.push(CapacityReservation { token, gateway_id, revision_id, startup_complete: false });
            forall|i: int| 0 <= i < pushed.len() && #[trigger] pushed[i].token == token ==> pushed.remove(i) == s
        }),
{
    let e = CapacityReservation { token, gateway_id, revision_id, startup_complete: false };
    let pushed = s.push(e);
    assert forall|i: int| 0 <= i < pushed.len() && #[trigger] pushed[i].token == token implies pushed.remove(i) == s by {
        if i < s.len() {
            assert(s[i].token == token);
        }
        assert(pushed.remove(i) =~= s);
    }
}

/// A reservation for one gateway leaves every other gateway's count, and
/// the starting count of an already-started reservation, unchanged.
pub proof fn lemma_reservation_counts_isolated(s: Seq<CapacityReservation>, e: CapacityReservation, other: u128)
    requires
        other != e.gateway_id,
    ensures
        spec_gateway_count(s.push(e), other) == spec_gateway_count(s, other),
        spec_gateway_count(s.push(e), e.gateway_id) == spec_gateway_count(s, e.gateway_id) + 1,
{
    lemma_counts_push(s, e);
}

} // verus!
