//! The shared-Caddy configuration template's rules: its one dedicated
//! gateway subroute slot, and the deterministic order of the routes placed
//! in it. `caddy_template` applies them to the operator's JSON.
use vstd::prelude::*;
use crate::routes::{
    GatewayConfigRevision, GatewayDesiredConfiguration, GatewayEdgeError, GatewayRouteBinding, ensure_unique_routes,
    spec_has_duplicate_prefix,
};
use crate::text::{chars_of, text_eq};

verus! {

/// The `group` that reserves the gateway's subroute in the shared baseline.
pub const GATEWAY_ROUTE_GROUP: &'static str = "hephaestus.gateway";
/// The handler the reserved route must start with.
pub const SUBROUTE_HANDLER: &'static str = "subroute";

/// What the template reads of one route of the selected server.
#[derive(Debug, Clone, PartialEq, Eq)]
pub struct CaddyRouteSummary {
    /// The route's `group`, when it is a string.
    pub group: Option<String>,
    /// The `handler` of the route's first handle entry, when it is a string.
    pub first_handler: Option<String>,
}

/// Whether a route is in the gateway group.
pub open spec fn spec_in_gateway_group(route: CaddyRouteSummary) -> bool {
    route.group matches Some(g) && g@ == GATEWAY_ROUTE_GROUP@
}

/// Index `i` is the one and only gateway-group route.
pub open spec fn spec_sole_gateway_route(routes: Seq<CaddyRouteSummary>, i: int) -> bool {
    &&& 0 <= i < routes.len()
    &&& spec_in_gateway_group(routes[i])
    &&& forall|j: int| 0 <= j < routes.len() && #[trigger] spec_in_gateway_group(routes[j]) ==> j == i
}

/// The reserved slot: the one gateway-group route, whose first handler is a
/// subroute.
pub open spec fn spec_gateway_slot(routes: Seq<CaddyRouteSummary>, i: int) -> bool {
    &&& spec_sole_gateway_route(routes, i)
    &&& routes[i].first_handler matches Some(h) && h@ == SUBROUTE_HANDLER@
}

/// Finds the one reserved gateway subroute of the selected server.
pub fn gateway_subroute_index(routes: &Vec<CaddyRouteSummary>) -> (result: Result<usize, GatewayEdgeError>)
    ensures
        result matches Ok(i) ==> spec_gateway_slot(routes@, i as int),
        result is Err ==> result == Err::<usize, GatewayEdgeError>(GatewayEdgeError::InvalidCaddyConfiguration)
            && !exists|i: int| spec_gateway_slot(routes@, i),
{
    let mut found: Option<usize> = None;
    let mut k: usize = 0;
    while k < routes.len()
        invariant
            k <= routes@.len(),
            match found {
                None => forall|j: int| 0 <= j < k ==> !#[trigger] spec_in_gateway_group(routes@[j]),
                Some(i) => i < k && spec_in_gateway_group(routes@[i as int])
                    && forall|j: int| 0 <= j < k && #[trigger] spec_in_gateway_group(routes@[j]) ==> j == i,
            },
        decreases routes@.len() - k,
    {
        let in_group = match &routes[k].group {
            Some(g) => text_eq(g.as_str(), GATEWAY_ROUTE_GROUP),
            None => false,
        };
        if in_group {
            if let Some(i) = found {
                proof {
                    assert(spec_in_gateway_group(routes@[k as int]));
                    assert(!exists|x: int| spec_gateway_slot(routes@, x)) by {
                        if exists|x: int| spec_gateway_slot(routes@, x) {
                            let x = choose|x: int| spec_gateway_slot(routes@, x);
                            assert(spec_in_gateway_group(routes@[i as int]));
                        }
                    }
                }
                return Err(GatewayEdgeError::InvalidCaddyConfiguration);
            }
            found = Some(k);
        } else {
            assert(!spec_in_gateway_group(routes@[k as int]));
        }
        k += 1;
    }
    match found {
        None => {
            proof {
                assert(!exists|x: int| spec_gateway_slot(routes@, x)) by {
                    if exists|x: int| spec_gateway_slot(routes@, x) {
                        let x = choose|x: int| spec_gateway_slot(routes@, x);
                        assert(spec_in_gateway_group(routes@[x]));
                    }
                }
            }
            Err(GatewayEdgeError::InvalidCaddyConfiguration)
        },
        Some(i) => {
            let subroute = match &routes[i].first_handler {
                Some(h) => text_eq(h.as_str(), SUBROUTE_HANDLER),
                None => false,
            };
            if !subroute {
                proof {
                    assert(!exists|x: int| spec_gateway_slot(routes@, x)) by {
                        if exists|x: int| spec_gateway_slot(routes@, x) {
                            let x = choose|x: int| spec_gateway_slot(routes@, x);
                            assert(spec_in_gateway_group(routes@[i as int]));
                        }
                    }
                }
                return Err(GatewayEdgeError::InvalidCaddyConfiguration);
            }
            Ok(i)
        },
    }
}

/// Validates a template from its selected server's name and the routes
/// read from it (`None` when the bytes are not JSON or the server has no
/// route list), returning the reserved slot.
pub fn validate_template(server: &str, routes: Option<Vec<CaddyRouteSummary>>) -> (result: Result<usize, GatewayEdgeError>)
    ensures
        server@.len() == 0 || routes is None ==> result == Err::<usize, GatewayEdgeError>(GatewayEdgeError::InvalidCaddyConfiguration),
        server@.len() > 0 ==> (routes matches Some(r) ==> {
            &&& result matches Ok(i) ==> spec_gateway_slot(r@, i as int)
            &&& result is Err <==> !exists|i: int| spec_gateway_slot(r@, i)
            &&& result is Err ==> result == Err::<usize, GatewayEdgeError>(GatewayEdgeError::InvalidCaddyConfiguration)
        }),
{
    if server.is_empty() {
        return Err(GatewayEdgeError::InvalidCaddyConfiguration);
    }
    match routes {
        None => Err(GatewayEdgeError::InvalidCaddyConfiguration),
        Some(r) => gateway_subroute_index(&r),
    }
}

/// Strict lexicographic order of character sequences, by code point; a
/// proper prefix comes first.  This is the order of Rust's `String`.
pub open spec fn spec_lex_lt(a: Seq<char>, b: Seq<char>) -> bool
    decreases a.len(),
{
    if a.len() == 0 {
        b.len() > 0
    } else if b.len() == 0 {
        false
    } else if a[0] != b[0] {
        a[0] < b[0]
    } else {
        spec_lex_lt(a.drop_first(), b.drop_first())
    }
}

/// Non-strict lexicographic order.
pub open spec fn spec_lex_le(a: Seq<char>, b: Seq<char>) -> bool {
    spec_lex_lt(a, b) || a == b
}

/// Any two sequences are ordered one way or the other, or equal.
pub proof fn lemma_lex_total(a: Seq<char>, b: Seq<char>)
    ensures
        spec_lex_lt(a, b) || spec_lex_lt(b, a) || a == b,
    decreases a.len(),
{
    if a.len() > 0 && b.len() > 0 && a[0] == b[0] {
        lemma_lex_total(a.drop_first(), b.drop_first());
        if a.drop_first() == b.drop_first() {
            assert(a.drop_first().len() == b.drop_first().len());
            assert(a.len() == b.len());
            assert forall|i: int| 0 <= i < a.len() implies a[i] == b[i] by {
                if i > 0 {
                    assert(a[i] == a.drop_first()[i - 1]);
                    assert(b[i] == b.drop_first()[i - 1]);
                }
            }
            assert(a =~= b);
        }
    } else if a.len() == 0 && b.len() == 0 {
        assert(a =~= b);
    }
}

/// The strict order is transitive.
pub proof fn lemma_lex_trans(a: Seq<char>, b: Seq<char>, c: Seq<char>)
    requires
        spec_lex_lt(a, b),
        spec_lex_lt(b, c),
    ensures
        spec_lex_lt(a, c),
    decreases a.len(),
{
    if a.len() > 0 && a[0] == b[0] && b[0] == c[0] {
        lemma_lex_trans(a.drop_first(), b.drop_first(), c.drop_first());
    }
}

/// The strict order is irreflexive.
pub proof fn lemma_lex_irreflexive(a: Seq<char>)
    ensures
        !spec_lex_lt(a, a),
    decreases a.len(),
{
    if a.len() > 0 {
        lemma_lex_irreflexive(a.drop_first());
    }
}

/// Returns whether `a` comes strictly before `b`.
pub fn lex_lt(a: &Vec<char>, b: &Vec<char>) -> (lt: bool)
    ensures
        lt == spec_lex_lt(a@, b@),
{
    let mut i: usize = 0;
    assert(a@.skip(0) =~= a@);
    assert(b@.skip(0) =~= b@);
    while i < a.len() && i < b.len()
        invariant
            i <= a@.len(),
            i <= b@.len(),
            spec_lex_lt(a@, b@) == spec_lex_lt(a@.skip(i as int), b@.skip(i as int)),
        decreases a@.len() - i,
    {
        if a[i] != b[i] {
            proof {
                assert(a@.skip(i as int)[0] == a@[i as int]);
                assert(b@.skip(i as int)[0] == b@[i as int]);
            }
            return a[i] < b[i];
        }
        proof {
            assert(a@.skip(i as int).drop_first() =~= a@.skip(i as int + 1));
            assert(b@.skip(i as int).drop_first() =~= b@.skip(i as int + 1));
        }
        i += 1;
    }
    i < b.len()
}

/// Views of a list of strings.
pub open spec fn spec_views(s: Seq<String>) -> Seq<Seq<char>> {
    s.map_values(|x: String| x@)
}

/// The route prefixes of a route set.
pub open spec fn spec_prefixes(routes: Seq<GatewayRouteBinding>) -> Seq<Seq<char>> {
    routes.map_values(|r: GatewayRouteBinding| r.path_prefix@)
}

/// Whether a sequence is in non-decreasing lexicographic order.
pub open spec fn spec_sorted(s: Seq<Seq<char>>) -> bool {
    forall|i: int, j: int| 0 <= i < j < s.len() ==> spec_lex_le(s[i], s[j])
}

/// The route prefixes in the deterministic order Caddy receives them: the
/// same prefixes, sorted.
pub fn sorted_route_prefixes(routes: &Vec<GatewayRouteBinding>) -> (sorted: Vec<String>)
    ensures
        spec_views(sorted@).to_multiset() == spec_prefixes(routes@).to_multiset(),
        spec_sorted(spec_views(sorted@)),
{
    let mut sorted: Vec<String> = Vec::new();
    let mut k: usize = 0;
    assert(spec_views(sorted@) =~= spec_prefixes(routes@).take(0));
    while k < routes.len()
        invariant
            k <= routes@.len(),
            spec_views(sorted@).to_multiset() == spec_prefixes(routes@).take(k as int).to_multiset(),
            spec_sorted(spec_views(sorted@)),
        decreases routes@.len() - k,
    {
        let x = routes[k].path_prefix.clone();
        let xc = chars_of(x.as_str());
        let ghost sv = spec_views(sorted@);
        let mut p: usize = 0;
        while p < sorted.len()
            invariant
                p <= sorted@.len(),
                sv == spec_views(sorted@),
                xc@ == x@,
                forall|j: int| 0 <= j < p ==> !spec_lex_lt(x@, #[trigger] sv[j]),
            ensures
                p <= sorted@.len(),
                sv == spec_views(sorted@),
                forall|j: int| 0 <= j < p ==> !spec_lex_lt(x@, #[trigger] sv[j]),
                p < sorted@.len() ==> spec_lex_lt(x@, sv[p as int]),
            decreases sorted@.len() - p,
        {
            let yc = chars_of(sorted[p].as_str());
            if lex_lt(&xc, &yc) {
                break;
            }
            p += 1;
        }
        sorted.insert(p, x);
        proof {
            let nv = spec_views(sorted@);
            assert(nv =~= sv.insert(p as int, x@));
            vstd::seq_lib::to_multiset_insert(sv, p as int, x@);
            let pre = spec_prefixes(routes@);
            assert(pre.take(k as int + 1) =~= pre.take(k as int).push(x@));
            vstd::seq_lib::to_multiset_build(pre.take(k as int), x@);
            assert(nv.to_multiset() =~= pre.take(k as int + 1).to_multiset());
            assert forall|i: int, j: int| 0 <= i < j < nv.len() implies spec_lex_le(nv[i], nv[j]) by {
                if i < p && j < p {
                    assert(nv[i] == sv[i] && nv[j] == sv[j]);
                } else if i < p && j == p {
                    lemma_lex_total(x@, sv[i]);
                } else if i < p && j > p {
                    assert(nv[i] == sv[i] && nv[j] == sv[j - 1]);
                } else if i == p {
                    assert(nv[j] == sv[j - 1]);
                    if p < sv.len() {
                        assert(spec_lex_lt(x@, sv[p as int]));
                        if j - 1 > p {
                            assert(spec_lex_le(sv[p as int], sv[j - 1]));
                            if spec_lex_lt(sv[p as int], sv[j - 1]) {
                                lemma_lex_trans(x@, sv[p as int], sv[j - 1]);
                            }
                        }
                    }
                } else {
                    assert(nv[i] == sv[i - 1] && nv[j] == sv[j - 1]);
                }
            }
        }
        k += 1;
    }
    proof {
        assert(spec_prefixes(routes@).take(routes@.len() as int) =~= spec_prefixes(routes@));
    }
    sorted
}

/// What validating a route set returns: the first route's error, if any.
pub open spec fn spec_routes_result(routes: Seq<GatewayRouteBinding>) -> Result<(), GatewayEdgeError>
    decreases routes.len(),
{
    if routes.len() == 0 {
        Ok(())
    } else {
        match spec_routes_result(routes.drop_last()) {
            Err(e) => Err(e),
            Ok(()) => routes.last().spec_validate_result(),
        }
    }
}

/// What reconciliation does with a valid desired configuration.
#[derive(Debug, Clone, PartialEq, Eq)]
pub enum GatewayReconcileStep {
    /// The revision is already applied: nothing to load.
    AlreadyApplied,
    /// Render and load the template with these route prefixes, in order.
    Load(Vec<String>),
}

/// Plans one reconciliation: every route must validate (the first error
/// is returned) and prefixes must be unique; an already-applied revision
/// needs nothing; otherwise a template and a dispatcher upstream are
/// required, and the routes are rendered in prefix order.
pub fn plan_reconcile(
    desired: &GatewayDesiredConfiguration,
    observed: Option<GatewayConfigRevision>,
    has_template: bool,
    dispatcher_upstream: &str,
) -> (step: Result<GatewayReconcileStep, GatewayEdgeError>)
    ensures
        spec_routes_result(desired.routes@) matches Err(e) ==> step == Err::<GatewayReconcileStep, GatewayEdgeError>(e),
        spec_routes_result(desired.routes@) is Ok ==> {
            if spec_has_duplicate_prefix(desired.routes@) {
                step == Err::<GatewayReconcileStep, GatewayEdgeError>(GatewayEdgeError::InvalidRoute("duplicate active gateway path"))
            } else if observed == Some(desired.revision) {
                step == Ok::<GatewayReconcileStep, GatewayEdgeError>(GatewayReconcileStep::AlreadyApplied)
            } else if !has_template || dispatcher_upstream@.len() == 0 {
                step == Err::<GatewayReconcileStep, GatewayEdgeError>(GatewayEdgeError::Unavailable)
            } else {
                step matches Ok(GatewayReconcileStep::Load(prefixes)) && {
                    &&& spec_views(prefixes@).to_multiset() == spec_prefixes(desired.routes@).to_multiset()
                    &&& spec_sorted(spec_views(prefixes@))
                }
            }
        },
{
    let mut k: usize = 0;
    while k < desired.routes.len()
        invariant
            k <= desired.routes@.len(),
            spec_routes_result(desired.routes@.take(k as int)) is Ok,
        decreases desired.routes@.len() - k,
    {
        proof {
            assert(desired.routes@.take(k as int + 1).drop_last() =~= desired.routes@.take(k as int));
        }
        if let Err(e) = desired.routes[k].validate() {
            proof {
                lemma_routes_error_persists(desired.routes@, k as int + 1);
            }
            return Err(e);
        }
        k += 1;
    }
    proof {
        assert(desired.routes@.take(desired.routes@.len() as int) =~= desired.routes@);
    }
    let unique = ensure_unique_routes(&desired.routes);
    if unique.is_err() {
        return Err(GatewayEdgeError::InvalidRoute("duplicate active gateway path"));
    }
    if observed == Some(desired.revision) {
        return Ok(GatewayReconcileStep::AlreadyApplied);
    }
    if !has_template || dispatcher_upstream.is_empty() {
        return Err(GatewayEdgeError::Unavailable);
    }
    Ok(GatewayReconcileStep::Load(sorted_route_prefixes(&desired.routes)))
}

/// Once a prefix of a route list fails validation, the whole list fails
/// with that first error.
proof fn lemma_routes_error_persists(routes: Seq<GatewayRouteBinding>, k: int)
    requires
        0 <= k <= routes.len(),
        spec_routes_result(routes.take(k)) is Err,
    ensures
        spec_routes_result(routes) == spec_routes_result(routes.take(k)),
    decreases routes.len() - k,
{
    if k < routes.len() {
        assert(routes.take(k + 1).drop_last() =~= routes.take(k));
        lemma_routes_error_persists(routes, k + 1);
    } else {
        assert(routes.take(k) =~= routes);
    }
}

/// Two sorted sequences with the same elements are the same sequence: the
/// order Caddy receives routes in depends on the route set alone, not on
/// the order the control plane listed it in.
pub proof fn lemma_sorted_is_unique(a: Seq<Seq<char>>, b: Seq<Seq<char>>)
    requires
        spec_sorted(a),
        spec_sorted(b),
        a.to_multiset() == b.to_multiset(),
    ensures
        a == b,
    decreases a.len(),
{
    broadcast use vstd::seq_lib::group_to_multiset_ensures;
    vstd::seq_lib::to_multiset_len(a);
    vstd::seq_lib::to_multiset_len(b);
    if a.len() == 0 {
        assert(b.len() == 0);
        assert(a =~= b);
    } else {
        assert(b.len() > 0);
        // The first element of each is the least element of the other.
        assert(b.to_multiset().contains(a[0]));
        let j = choose|j: int| 0 <= j < b.len() && b[j] == a[0];
        assert(a.to_multiset().contains(b[0]));
        let k = choose|k: int| 0 <= k < a.len() && a[k] == b[0];
        assert(spec_lex_le(b[0], a[0])) by {
            if j > 0 {
                assert(spec_lex_le(b[0], b[j]));
            }
        }
        assert(spec_lex_le(a[0], b[0])) by {
            if k > 0 {
                assert(spec_lex_le(a[0], a[k]));
            }
        }
        if a[0] != b[0] {
            lemma_lex_trans(a[0], b[0], a[0]);
            lemma_lex_irreflexive(a[0]);
        }
        vstd::seq_lib::to_multiset_remove(a, 0);
        vstd::seq_lib::to_multiset_remove(b, 0);
        assert(a.remove(0) =~= a.drop_first());
        assert(b.remove(0) =~= b.drop_first());
        assert forall|x: int, y: int| 0 <= x < y < a.drop_first().len() implies spec_lex_le(a.drop_first()[x], a.drop_first()[y]) by {
            assert(spec_lex_le(a[x + 1], a[y + 1]));
        }
        assert forall|x: int, y: int| 0 <= x < y < b.drop_first().len() implies spec_lex_le(b.drop_first()[x], b.drop_first()[y]) by {
            assert(spec_lex_le(b[x + 1], b[y + 1]));
        }
        lemma_sorted_is_unique(a.drop_first(), b.drop_first());
        assert(a =~= b) by {
            assert forall|i: int| 0 <= i < a.len() implies a[i] == b[i] by {
                if i > 0 {
                    assert(a[i] == a.drop_first()[i - 1]);
                    assert(b[i] == b.drop_first()[i - 1]);
                }
            }
        }
    }
}

/// Sorting two route lists with the same prefixes, in any order, gives the
/// same prefix order.
pub proof fn lemma_route_order_is_deterministic(
    left: Seq<GatewayRouteBinding>,
    right: Seq<GatewayRouteBinding>,
    left_sorted: Seq<String>,
    right_sorted: Seq<String>,
)
    requires
        spec_prefixes(left).to_multiset() == spec_prefixes(right).to_multiset(),
        spec_views(left_sorted).to_multiset() == spec_prefixes(left).to_multiset(),
        spec_views(right_sorted).to_multiset() == spec_prefixes(right).to_multiset(),
        spec_sorted(spec_views(left_sorted)),
        spec_sorted(spec_views(right_sorted)),
    ensures
        spec_views(left_sorted) == spec_views(right_sorted),
{
    lemma_sorted_is_unique(spec_views(left_sorted), spec_views(right_sorted));
}

/// The applied revision and the reconciliation's answer after a load.
pub open spec fn spec_observed_after_load(
    observed: Option<GatewayConfigRevision>,
    desired: GatewayConfigRevision,
    loaded: Result<(), GatewayEdgeError>,
) -> (Option<GatewayConfigRevision>, Result<GatewayConfigRevision, GatewayEdgeError>) {
    match loaded {
        Ok(()) => (Some(desired), Ok(desired)),
        Err(e) => (observed, Err(e)),
    }
}

/// The applied revision after a reconciliation's load: a successful load
/// applies the desired revision and reports it; a failed load leaves the
/// applied revision as it was and reports the failure.
pub fn observed_after_load(
    observed: Option<GatewayConfigRevision>,
    desired: GatewayConfigRevision,
    loaded: Result<(), GatewayEdgeError>,
) -> (next: (Option<GatewayConfigRevision>, Result<GatewayConfigRevision, GatewayEdgeError>))
    ensures
        next == spec_observed_after_load(observed, desired, loaded),
        match loaded {
            Ok(()) => next == (Some(desired), Ok::<GatewayConfigRevision, GatewayEdgeError>(desired)),
            Err(e) => next == (observed, Err::<GatewayConfigRevision, GatewayEdgeError>(e)),
        },
{
    match loaded {
        Ok(()) => (Some(desired), Ok(desired)),
        Err(e) => (observed, Err(e)),
    }
}

} // verus!
