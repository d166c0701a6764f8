//! Gateway routes, canonical requests, and bounded admission to a handler.
use vstd::prelude::*;
use crate::ident::{NIL_UUID, random_uuid, spec_random_uuid_layout};
use crate::text::{
    before_char, chars_of, has_dot_segment, has_empty_segment, has_pair, seq_eq, spec_before_char,
    spec_has_dot_segment, spec_has_empty_segment, spec_has_pair, starts_with, spec_starts_with,
    spec_has_char, lemma_before_first_separator,
};

verus! {

/// Reserved public path prefix owned by gateway routing.
pub const GATEWAY_NAMESPACE: &'static str = "/gateway/";
/// Provider-controlled forwarding headers which never reach a gateway.
pub const UNTRUSTED_FORWARDING_HEADERS: [&'static str; 4] = ["forwarded", "x-forwarded-for", "x-forwarded-host", "x-forwarded-proto"];

/// Stable identity of a derived Caddy configuration.
#[derive(Debug, Clone, Copy, PartialEq, Eq, Structural)]
pub struct GatewayConfigRevision {
    value: u128,
}

impl GatewayConfigRevision {
    /// The revision's identifier.
    pub closed spec fn spec_value(self) -> u128 {
        self.value
    }

    /// Creates an opaque derived configuration revision from a fresh random
    /// version-4 identifier, which is never nil.
    pub fn new() -> (revision: Self)
        ensures
            spec_random_uuid_layout(revision.spec_value()),
            revision.spec_value() != NIL_UUID,
    {
        GatewayConfigRevision { value: random_uuid() }
    }

    /// Reconstitutes a control-plane-derived configuration revision.
    pub fn from_uuid(value: u128) -> (revision: Self)
        ensures
            revision.spec_value() == value,
    {
        GatewayConfigRevision { value }
    }

    /// Returns the revision's identifier.
    pub fn value(self) -> (value: u128)
        ensures
            value == self.spec_value(),
    {
        self.value
    }
}

/// An authoritative desired configuration revision and its complete route set.
#[derive(Debug, Clone, PartialEq, Eq)]
pub struct GatewayDesiredConfiguration {
    /// Immutable desired revision supplied by the control plane.
    pub revision: GatewayConfigRevision,
    /// Every enabled gateway route.  Absence removes a previously derived route.
    pub routes: Vec<GatewayRouteBinding>,
}

/// Gateway reconciliation or dispatch failure.  Public adapters must map this
/// to a generic safe response rather than exposing internals.
#[derive(Debug, Clone, Copy, PartialEq, Eq)]
pub enum GatewayEdgeError {
    /// Route data violates the canonical contract.
    InvalidRoute(&'static str),
    /// Request or response violates a declared bound.
    Contract(&'static str),
    /// Caddy administration or a durable adapter failed.
    Unavailable,
    /// The Caddy administration endpoint is not a loopback HTTP address.
    InvalidAdministrationEndpoint,
    /// The operator-owned shared Caddy baseline lacks the exact gateway slot.
    InvalidCaddyConfiguration,
    /// VM startup or private handler invocation failed.
    HandlerUnavailable,
    /// An inbound real-secret matcher did not pass its exact host-side lease.
    SecretRejected,
}

/// Explicit bounds for a route and its invocation.
#[derive(Debug, Clone, Copy, PartialEq, Eq, Structural)]
pub struct GatewayLimits {
    /// Maximum request body bytes.
    pub max_request_body_bytes: usize,
    /// Maximum response body bytes.
    pub max_response_body_bytes: usize,
    /// Maximum request headers.
    pub max_request_headers: usize,
    /// Maximum response headers.
    pub max_response_headers: usize,
    /// Maximum complete request path and query length in bytes.
    pub max_path_and_query_bytes: usize,
    /// Maximum startup and handler execution duration, in nanoseconds.
    pub execution_timeout_nanos: u128,
}

impl GatewayLimits {
    /// Every bound is nonzero.
    pub open spec fn spec_valid(self) -> bool {
        &&& self.max_request_body_bytes != 0
        &&& self.max_response_body_bytes != 0
        &&& self.max_request_headers != 0
        &&& self.max_response_headers != 0
        &&& self.max_path_and_query_bytes != 0
        &&& self.execution_timeout_nanos != 0
    }

    /// What validating the limits returns.
    pub open spec fn spec_validate_result(self) -> Result<(), GatewayEdgeError> {
        if self.spec_valid() {
            Ok(())
        } else {
            Err(GatewayEdgeError::InvalidRoute("gateway limits must be nonzero"))
        }
    }

    /// Validates all limits fail closed rather than silently becoming unlimited.
    pub fn validate(self) -> (result: Result<(), GatewayEdgeError>)
        ensures
            result == self.spec_validate_result(),
    {
        if self.max_request_body_bytes == 0 || self.max_response_body_bytes == 0
            || self.max_request_headers == 0 || self.max_response_headers == 0
            || self.max_path_and_query_bytes == 0 || self.execution_timeout_nanos == 0 {
            return Err(GatewayEdgeError::InvalidRoute("gateway limits must be nonzero"));
        }
        Ok(())
    }
}

/// One HTTP header: a lower-case name and its raw value.
#[derive(Debug, Clone, PartialEq, Eq)]
pub struct GatewayHeader {
    /// Header name.
    pub name: String,
    /// Raw header value.
    pub value: Vec<u8>,
}

/// Abstract value of a header.
pub struct HeaderView {
    /// Name characters.
    pub name: Seq<char>,
    /// Value bytes.
    pub value: Seq<u8>,
}

impl View for GatewayHeader {
    type V = HeaderView;

    open spec fn view(&self) -> HeaderView {
        HeaderView { name: self.name@, value: self.value@ }
    }
}

/// Abstract values of a header list.
pub open spec fn spec_headers(headers: Seq<GatewayHeader>) -> Seq<HeaderView> {
    headers.map_values(|h: GatewayHeader| h@)
}

/// Who may reach a route.
#[derive(Debug, Clone, Copy, PartialEq, Eq, Structural)]
pub enum GatewayExposure {
    /// Reachable from the public edge.
    Public,
    /// Reachable only through the authenticated UI origin.
    HephAuthenticated,
}

/// One enabled route selected by the control plane.
#[derive(Debug, Clone, PartialEq, Eq)]
pub struct GatewayRouteBinding {
    /// Stable authoritative route identity.
    pub route_id: u128,
    /// Exact immutable released handler revision to invoke.
    pub gateway_revision_id: u128,
    /// Who may reach the route.
    pub exposure: GatewayExposure,
    /// Normalized public path prefix below `/gateway/`.
    pub path_prefix: String,
    /// Permitted canonical HTTP method names.
    pub methods: Vec<String>,
    /// Per-route resource and execution limits.
    pub limits: GatewayLimits,
}

/// Characters allowed in a route prefix.
pub open spec fn spec_prefix_char(c: char) -> bool {
    ('a' <= c && c <= 'z') || ('A' <= c && c <= 'Z') || ('0' <= c && c <= '9') || c == '-' || c == '_' || c == '/'
}

/// A normalized relative route prefix: nonempty, no leading or trailing
/// slash, no empty or dot segment, and only ASCII letters, digits, `-`, `_`
/// and `/`.
pub open spec fn spec_prefix_valid(p: Seq<char>) -> bool {
    &&& p.len() > 0
    &&& p[0] != '/'
    &&& p[p.len() - 1] != '/'
    &&& !spec_has_pair(p, '/', '/')
    &&& !spec_has_empty_segment(p)
    &&& !spec_has_dot_segment(p)
    &&& forall|i: int| 0 <= i < p.len() ==> #[trigger] spec_prefix_char(p[i])
}

/// What validating a route prefix returns.
pub open spec fn spec_prefix_result(p: Seq<char>) -> Result<(), GatewayEdgeError> {
    if spec_prefix_valid(p) {
        Ok(())
    } else {
        Err(GatewayEdgeError::InvalidRoute("path prefix must be normalized relative path"))
    }
}

/// Returns whether a character sequence is a normalized relative route prefix.
pub fn prefix_chars_valid(p: &Vec<char>) -> (valid: bool)
    ensures
        valid == spec_prefix_valid(p@),
{
    let mut allowed = true;
    let mut i: usize = 0;
    while i < p.len()
        invariant
            i <= p@.len(),
            allowed <==> forall|j: int| 0 <= j < i ==> #[trigger] spec_prefix_char(p@[j]),
        decreases p@.len() - i,
    {
        let c = p[i];
        if !(('a' <= c && c <= 'z') || ('A' <= c && c <= 'Z') || ('0' <= c && c <= '9') || c == '-'
            || c == '_' || c == '/') {
            assert(!spec_prefix_char(p@[i as int]));
            allowed = false;
        } else {
            assert(spec_prefix_char(p@[i as int]));
        }
        i += 1;
    }
    !(p.len() == 0 || p[0] == '/' || p[p.len() - 1] == '/' || has_pair(p, '/', '/')
        || has_empty_segment(p) || has_dot_segment(p) || !allowed)
}

/// Validates a route prefix below the gateway namespace.
pub fn validate_gateway_prefix(prefix: &str) -> (result: Result<(), GatewayEdgeError>)
    ensures
        result == spec_prefix_result(prefix@),
{
    let p = chars_of(prefix);
    if !prefix_chars_valid(&p) {
        return Err(GatewayEdgeError::InvalidRoute("path prefix must be normalized relative path"));
    }
    Ok(())
}

/// Whether a method name is in a method list.
pub open spec fn spec_method_allowed(methods: Seq<String>, method: Seq<char>) -> bool {
    exists|i: int| 0 <= i < methods.len() && methods[i]@ == method
}

/// Returns whether `method` is one of `methods`.
pub fn method_allowed(methods: &Vec<String>, method: &str) -> (allowed: bool)
    ensures
        allowed == spec_method_allowed(methods@, method@),
{
    let target = chars_of(method);
    let mut i: usize = 0;
    while i < methods.len()
        invariant
            target@ == method@,
            i <= methods@.len(),
            forall|j: int| 0 <= j < i ==> methods@[j]@ != method@,
        decreases methods@.len() - i,
    {
        let candidate = chars_of(methods[i].as_str());
        if seq_eq(&candidate, &target) {
            return true;
        }
        i += 1;
    }
    false
}

/// The public path of a route: the namespace followed by its prefix.
pub open spec fn spec_public_path(prefix: Seq<char>) -> Seq<char> {
    GATEWAY_NAMESPACE@ + prefix
}

impl GatewayRouteBinding {
    /// The prefix is normalized, a method is permitted, and limits are nonzero.
    pub open spec fn spec_valid(&self) -> bool {
        &&& spec_prefix_valid(self.path_prefix@)
        &&& self.methods@.len() > 0
        &&& self.limits.spec_valid()
    }

    /// What validating the binding returns: the prefix error, then an empty
    /// method set, then the limits error.
    pub open spec fn spec_validate_result(&self) -> Result<(), GatewayEdgeError> {
        if !spec_prefix_valid(self.path_prefix@) {
            spec_prefix_result(self.path_prefix@)
        } else if self.methods@.len() == 0 {
            Err(GatewayEdgeError::InvalidRoute("methods cannot be empty"))
        } else {
            self.limits.spec_validate_result()
        }
    }

    /// Validates this binding is safe to place below the shared gateway namespace.
    pub fn validate(&self) -> (result: Result<(), GatewayEdgeError>)
        ensures
            result == self.spec_validate_result(),
            result is Ok <==> self.spec_valid(),
    {
        validate_gateway_prefix(self.path_prefix.as_str())?;
        if self.methods.len() == 0 {
            return Err(GatewayEdgeError::InvalidRoute("methods cannot be empty"));
        }
        self.limits.validate()
    }

    /// Returns the public path prefix owned by Caddy.
    pub fn public_path(&self) -> (path: String)
        ensures
            path@ == spec_public_path(self.path_prefix@),
    {
        GATEWAY_NAMESPACE.to_owned().concat(self.path_prefix.as_str())
    }
}

/// Whether some two routes share a prefix.
pub open spec fn spec_has_duplicate_prefix(routes: Seq<GatewayRouteBinding>) -> bool {
    exists|i: int, j: int| 0 <= i < j < routes.len() && routes[i].path_prefix@ == routes[j].path_prefix@
}

/// Rejects a route set in which two routes claim the same prefix.
pub fn ensure_unique_routes(routes: &Vec<GatewayRouteBinding>) -> (result: Result<(), GatewayEdgeError>)
    ensures
        result is Ok <==> !spec_has_duplicate_prefix(routes@),
        result matches Err(e) ==> e is InvalidRoute,
{
    let mut j: usize = 0;
    while j < routes.len()
        invariant
            j <= routes@.len(),
            forall|a: int, b: int| 0 <= a < b < j ==> routes@[a].path_prefix@ != routes@[b].path_prefix@,
        decreases routes@.len() - j,
    {
        let current = chars_of(routes[j].path_prefix.as_str());
        let mut i: usize = 0;
        while i < j
            invariant
                j < routes@.len(),
                i <= j,
                current@ == routes@[j as int].path_prefix@,
                forall|a: int| 0 <= a < i ==> routes@[a].path_prefix@ != routes@[j as int].path_prefix@,
            decreases j - i,
        {
            let other = chars_of(routes[i].path_prefix.as_str());
            if seq_eq(&other, &current) {
                return Err(GatewayEdgeError::InvalidRoute("duplicate active gateway path"));
            }
            i += 1;
        }
        j += 1;
    }
    Ok(())
}

/// The public scheme observed by the trusted adapter.
#[derive(Debug, Clone, Copy, PartialEq, Eq, Structural)]
pub enum GatewayScheme {
    /// HTTP.
    Http,
    /// HTTPS terminated at Caddy.
    Https,
}

/// Trusted metadata produced only by a concrete edge adapter.
#[derive(Debug, Clone, PartialEq, Eq)]
pub struct TrustedRequestMetadata {
    /// Scheme terminated by the public edge.
    pub scheme: GatewayScheme,
    /// Public listener authority selected by the adapter, never `Host` input.
    pub authority: String,
    /// Immediate client address observed by the trusted edge, as text.
    pub client_address: String,
    /// Edge-generated opaque request correlation identifier.
    pub request_id: u128,
}

/// Canonical normalized inbound HTTP request sent to a gateway handler.
#[derive(Debug, Clone, PartialEq, Eq)]
pub struct GatewayRequest {
    /// HTTP method name.
    pub method: String,
    /// Normalized path and optional query, always beginning with `/`.
    pub path_and_query: String,
    /// Allowlisted non-forwarding headers.
    pub headers: Vec<GatewayHeader>,
    /// Complete bounded body.
    pub body: Vec<u8>,
    /// Metadata trusted from the edge adapter.
    pub trusted: TrustedRequestMetadata,
}

/// Canonical bounded response returned by a handler.
#[derive(Debug, Clone, PartialEq, Eq)]
pub struct GatewayResponse {
    /// HTTP status.
    pub status: u16,
    /// Allowlisted response headers.
    pub headers: Vec<GatewayHeader>,
    /// Complete bounded response body.
    pub body: Vec<u8>,
}

/// Lower-cases an ASCII letter's code point.
pub open spec fn spec_ascii_lower(c: char) -> u32 {
    if 'A' <= c && c <= 'Z' { (c as u32 + 32) as u32 } else { c as u32 }
}

/// ASCII case-insensitive equality.
pub open spec fn spec_eq_ignore_ascii_case(a: Seq<char>, b: Seq<char>) -> bool {
    a.len() == b.len() && forall|i: int| 0 <= i < a.len() ==> #[trigger] spec_ascii_lower(a[i]) == spec_ascii_lower(b[i])
}

fn ascii_lower(c: char) -> (code: u32)
    ensures
        code == spec_ascii_lower(c),
{
    if 'A' <= c && c <= 'Z' {
        (c as u32) + 32
    } else {
        c as u32
    }
}

fn eq_ignore_ascii_case(a: &Vec<char>, b: &str) -> (equal: bool)
    ensures
        equal == spec_eq_ignore_ascii_case(a@, b@),
{
    let bc = chars_of(b);
    if a.len() != bc.len() {
        return false;
    }
    let mut i: usize = 0;
    while i < a.len()
        invariant
            bc@ == b@,
            a@.len() == bc@.len(),
            i <= a@.len(),
            forall|j: int| 0 <= j < i ==> #[trigger] spec_ascii_lower(a@[j]) == spec_ascii_lower(bc@[j]),
        decreases a@.len() - i,
    {
        if ascii_lower(a[i]) != ascii_lower(bc[i]) {
            assert(spec_ascii_lower(a@[i as int]) != spec_ascii_lower(bc@[i as int]));
            return false;
        }
        i += 1;
    }
    true
}

/// Hop-by-hop header names, which never cross the gateway.
pub open spec fn spec_is_hop_by_hop(name: Seq<char>) -> bool {
    name == "connection"@ || name == "keep-alive"@ || name == "proxy-authenticate"@
        || name == "proxy-authorization"@ || name == "te"@ || name == "trailer"@
        || name == "transfer-encoding"@ || name == "upgrade"@
}

/// Provider-controlled forwarding header names, matched case-insensitively.
pub open spec fn spec_is_untrusted_forwarding(name: Seq<char>) -> bool {
    spec_eq_ignore_ascii_case(name, "forwarded"@) || spec_eq_ignore_ascii_case(name, "x-forwarded-for"@)
        || spec_eq_ignore_ascii_case(name, "x-forwarded-host"@)
        || spec_eq_ignore_ascii_case(name, "x-forwarded-proto"@)
}

/// Returns whether a header name is hop-by-hop.
pub fn is_hop_by_hop(name: &str) -> (hop: bool)
    ensures
        hop == spec_is_hop_by_hop(name@),
{
    let n = chars_of(name);
    let candidates = [
        "connection", "keep-alive", "proxy-authenticate", "proxy-authorization", "te", "trailer",
        "transfer-encoding", "upgrade",
    ];
    let c0 = chars_of(candidates[0]);
    let c1 = chars_of(candidates[1]);
    let c2 = chars_of(candidates[2]);
    let c3 = chars_of(candidates[3]);
    let c4 = chars_of(candidates[4]);
    let c5 = chars_of(candidates[5]);
    let c6 = chars_of(candidates[6]);
    let c7 = chars_of(candidates[7]);
    seq_eq(&n, &c0) || seq_eq(&n, &c1) || seq_eq(&n, &c2) || seq_eq(&n, &c3) || seq_eq(&n, &c4)
        || seq_eq(&n, &c5) || seq_eq(&n, &c6) || seq_eq(&n, &c7)
}

/// Returns whether a header name is a provider forwarding header.
pub fn is_untrusted_forwarding(name: &str) -> (forwarding: bool)
    ensures
        forwarding == spec_is_untrusted_forwarding(name@),
{
    let n = chars_of(name);
    eq_ignore_ascii_case(&n, "forwarded") || eq_ignore_ascii_case(&n, "x-forwarded-for")
        || eq_ignore_ascii_case(&n, "x-forwarded-host") || eq_ignore_ascii_case(&n, "x-forwarded-proto")
}

/// Whether a request path (before its query) addresses the route: it is
/// the route's public path or lies below it.
pub open spec fn spec_targets_route(prefix: Seq<char>, path_and_query: Seq<char>) -> bool {
    let path = spec_before_char(path_and_query, '?');
    let public = spec_public_path(prefix);
    path == public || (spec_starts_with(path, public) && path.len() > public.len() && path[public.len() as int] == '/')
}

/// Route matching looks only at the path before the first `?`: appending a
/// query to a path that has none never changes whether it addresses a route.
pub proof fn lemma_route_match_ignores_query(prefix: Seq<char>, path: Seq<char>, query: Seq<char>)
    requires
        !spec_has_char(path, '?'),
    ensures
        spec_targets_route(prefix, path + seq!['?'] + query) == spec_targets_route(prefix, path),
{
    lemma_before_first_separator(path, '?', query);
}

/// A route's public path addresses the route, with or without a query
/// string after it.
pub proof fn lemma_public_path_targets_route(prefix: Seq<char>, query: Seq<char>)
    requires
        !spec_has_char(prefix, '?'),
    ensures
        spec_targets_route(prefix, GATEWAY_NAMESPACE@ + prefix),
        spec_targets_route(prefix, GATEWAY_NAMESPACE@ + prefix + seq!['?'] + query),
{
    reveal_strlit("/gateway/");
    let public = GATEWAY_NAMESPACE@ + prefix;
    assert(!spec_has_char(public, '?')) by {
        assert forall|i: int| 0 <= i < public.len() implies public[i] != '?' by {
            if i >= GATEWAY_NAMESPACE@.len() {
                assert(public[i] == prefix[i - GATEWAY_NAMESPACE@.len()]);
            }
        }
    }
    lemma_before_first_separator(public, '?', query);
}

/// Returns whether a request addresses the route's public path.
pub fn request_targets_route(route: &GatewayRouteBinding, path_and_query: &str) -> (targets: bool)
    ensures
        targets == spec_targets_route(route.path_prefix@, path_and_query@),
{
    let pq = chars_of(path_and_query);
    let path = before_char(&pq, '?');
    let public = chars_of(route.public_path().as_str());
    if seq_eq(&path, &public) {
        return true;
    }
    starts_with(&path, &public) && path.len() > public.len() && path[public.len()] == '/'
}

/// Byte length of a string's UTF-8 encoding, as `str::len` reports it.
pub open spec fn spec_byte_len(s: Seq<char>) -> usize {
    vstd::utf8::encode_utf8(s).len() as usize
}

/// Whether a header is forbidden in a request.
pub open spec fn spec_forbidden_request_header(name: Seq<char>) -> bool {
    spec_is_hop_by_hop(name) || spec_is_untrusted_forwarding(name)
}

/// The path is unambiguous: absolute, no `//`, no dot segment before the query.
pub open spec fn spec_request_path_unambiguous(pq: Seq<char>) -> bool {
    &&& pq.len() > 0 && pq[0] == '/'
    &&& !spec_has_pair(pq, '/', '/')
    &&& !spec_has_dot_segment(spec_before_char(pq, '?'))
}

/// A request is admissible for a route.
pub open spec fn spec_request_valid(route: GatewayRouteBinding, request: GatewayRequest) -> bool {
    let pq = request.path_and_query@;
    &&& spec_request_path_unambiguous(pq)
    &&& spec_targets_route(route.path_prefix@, pq)
    &&& spec_method_allowed(route.methods@, request.method@)
    &&& spec_byte_len(pq) <= route.limits.max_path_and_query_bytes
    &&& request.body@.len() <= route.limits.max_request_body_bytes
    &&& request.headers@.len() <= route.limits.max_request_headers
    &&& forall|i: int| 0 <= i < request.headers@.len()
        ==> !spec_forbidden_request_header(#[trigger] request.headers@[i].name@)
}

/// Validates a request against its route's grammar, methods, and bounds.
pub fn validate_request(route: &GatewayRouteBinding, request: &GatewayRequest) -> (result: Result<(), GatewayEdgeError>)
    ensures
        result is Ok <==> spec_request_valid(*route, *request),
        result matches Err(e) ==> e is Contract,
{
    let pq = chars_of(request.path_and_query.as_str());
    let path = before_char(&pq, '?');
    if pq.len() == 0 || pq[0] != '/' || has_pair(&pq, '/', '/') || has_dot_segment(&path) {
        return Err(GatewayEdgeError::Contract("ambiguous request path"));
    }
    if !request_targets_route(route, request.path_and_query.as_str()) {
        return Err(GatewayEdgeError::Contract("route mismatch"));
    }
    if !method_allowed(&route.methods, request.method.as_str()) {
        return Err(GatewayEdgeError::Contract("method is not allowed"));
    }
    if request.path_and_query.as_str().len() > route.limits.max_path_and_query_bytes
        || request.body.len() > route.limits.max_request_body_bytes
        || request.headers.len() > route.limits.max_request_headers {
        return Err(GatewayEdgeError::Contract("request exceeds route limits"));
    }
    let mut i: usize = 0;
    while i < request.headers.len()
        invariant
            i <= request.headers@.len(),
            forall|j: int| 0 <= j < i ==> !spec_forbidden_request_header(#[trigger] request.headers@[j].name@),
        decreases request.headers@.len() - i,
    {
        let name = request.headers[i].name.as_str();
        if is_hop_by_hop(name) || is_untrusted_forwarding(name) {
            return Err(GatewayEdgeError::Contract("forbidden request header"));
        }
        i += 1;
    }
    Ok(())
}

/// A response is within the route's bounds and carries no hop-by-hop header.
pub open spec fn spec_response_valid(route: GatewayRouteBinding, response: GatewayResponse) -> bool {
    &&& response.body@.len() <= route.limits.max_response_body_bytes
    &&& response.headers@.len() <= route.limits.max_response_headers
    &&& forall|i: int| 0 <= i < response.headers@.len() ==> !spec_is_hop_by_hop(#[trigger] response.headers@[i].name@)
}

/// Validates a handler response against its route's bounds.
pub fn validate_response(route: &GatewayRouteBinding, response: &GatewayResponse) -> (result: Result<(), GatewayEdgeError>)
    ensures
        result is Ok <==> spec_response_valid(*route, *response),
        result matches Err(e) ==> e is Contract,
{
    if response.body.len() > route.limits.max_response_body_bytes
        || response.headers.len() > route.limits.max_response_headers {
        return Err(GatewayEdgeError::Contract("response violates route limits"));
    }
    let mut i: usize = 0;
    while i < response.headers.len()
        invariant
            i <= response.headers@.len(),
            forall|j: int| 0 <= j < i ==> !spec_is_hop_by_hop(#[trigger] response.headers@[j].name@),
        decreases response.headers@.len() - i,
    {
        if is_hop_by_hop(response.headers[i].name.as_str()) {
            return Err(GatewayEdgeError::Contract("response violates route limits"));
        }
        i += 1;
    }
    Ok(())
}

/// HTTP statuses used by the dispatcher's fallbacks.
pub const STATUS_BAD_REQUEST: u16 = 400;
/// Not found.
pub const STATUS_NOT_FOUND: u16 = 404;
/// Bad gateway.
pub const STATUS_BAD_GATEWAY: u16 = 502;
/// Service unavailable.
pub const STATUS_SERVICE_UNAVAILABLE: u16 = 503;
/// Gateway timeout.
pub const STATUS_GATEWAY_TIMEOUT: u16 = 504;

/// Builds a response with no headers and no body.
pub fn empty_response(status: u16) -> (response: GatewayResponse)
    ensures
        response.status == status,
        response.headers@.len() == 0,
        response.body@.len() == 0,
{
    GatewayResponse { status, headers: Vec::new(), body: Vec::new() }
}

/// A provider's answer: the public response and the accepted invocation
/// (nil when none was accepted).
#[derive(Debug, Clone, PartialEq, Eq)]
pub struct GatewayProviderResponse {
    /// Public response.
    pub response: GatewayResponse,
    /// Accepted invocation, or the nil identifier.
    pub invocation_id: u128,
}

/// Persistable terminal outcome with no request/response payload.
#[derive(Debug, Clone, Copy, PartialEq, Eq, Structural)]
pub enum GatewayInvocationOutcome {
    /// Handler returned a bounded response.
    Completed,
    /// Handler/startup failed.
    Failed,
    /// Deadline elapsed.
    TimedOut,
    /// Request was rejected before launch.
    Rejected,
}

/// What the handler produced within the route's execution timeout.
#[derive(Debug, Clone, PartialEq, Eq)]
pub enum GatewayHandlerResult {
    /// The handler returned a response.
    Responded(GatewayResponse),
    /// The handler or its VM failed.
    Failed,
    /// The execution timeout elapsed first.
    TimedOut,
}

/// Maps the handler's result to the public response and the persisted
/// outcome: a bounded response is relayed as completed, an out-of-bounds
/// response or failure becomes an empty 502, a timeout an empty 504.
pub fn complete_invocation(route: &GatewayRouteBinding, result: GatewayHandlerResult) -> (done: (GatewayResponse, GatewayInvocationOutcome))
    ensures
        match result {
            GatewayHandlerResult::Responded(response) => if spec_response_valid(*route, response) {
                done.0 == response && done.1 == GatewayInvocationOutcome::Completed
            } else {
                done.0.status == STATUS_BAD_GATEWAY && done.0.headers@.len() == 0 && done.0.body@.len() == 0
                    && done.1 == GatewayInvocationOutcome::Failed
            },
            GatewayHandlerResult::Failed => done.0.status == STATUS_BAD_GATEWAY && done.0.headers@.len() == 0
                && done.0.body@.len() == 0 && done.1 == GatewayInvocationOutcome::Failed,
            GatewayHandlerResult::TimedOut => done.0.status == STATUS_GATEWAY_TIMEOUT && done.0.headers@.len() == 0
                && done.0.body@.len() == 0 && done.1 == GatewayInvocationOutcome::TimedOut,
        },
{
    match result {
        GatewayHandlerResult::Responded(response) => {
            if validate_response(route, &response).is_ok() {
                (response, GatewayInvocationOutcome::Completed)
            } else {
                (empty_response(STATUS_BAD_GATEWAY), GatewayInvocationOutcome::Failed)
            }
        },
        GatewayHandlerResult::Failed => (empty_response(STATUS_BAD_GATEWAY), GatewayInvocationOutcome::Failed),
        GatewayHandlerResult::TimedOut => (empty_response(STATUS_GATEWAY_TIMEOUT), GatewayInvocationOutcome::TimedOut),
    }
}

/// Admits a request after route resolution: a resolver failure is answered
/// 503, an unknown route 404, and an inadmissible request 400.
pub fn admit_request(
    resolved: Result<Option<GatewayRouteBinding>, GatewayEdgeError>,
    request: &GatewayRequest,
) -> (admitted: Result<GatewayRouteBinding, u16>)
    ensures
        match resolved {
            Err(_) => admitted == Err::<GatewayRouteBinding, u16>(STATUS_SERVICE_UNAVAILABLE),
            Ok(None) => admitted == Err::<GatewayRouteBinding, u16>(STATUS_NOT_FOUND),
            Ok(Some(route)) => if spec_request_valid(route, *request) {
                admitted == Ok::<GatewayRouteBinding, u16>(route)
            } else {
                admitted == Err::<GatewayRouteBinding, u16>(STATUS_BAD_REQUEST)
            },
        },
{
    match resolved {
        Err(_) => Err(STATUS_SERVICE_UNAVAILABLE),
        Ok(None) => Err(STATUS_NOT_FOUND),
        Ok(Some(route)) => {
            if validate_request(&route, request).is_ok() {
                Ok(route)
            } else {
                Err(STATUS_BAD_REQUEST)
            }
        },
    }
}

/// Returns the answer of a request that no invocation was accepted for: an
/// empty response with `status` and the nil invocation.
pub fn fallback_response(status: u16) -> (answer: GatewayProviderResponse)
    ensures
        answer.response.status == status,
        answer.response.headers@.len() == 0,
        answer.response.body@.len() == 0,
        answer.invocation_id == 0,
{
    GatewayProviderResponse { response: empty_response(status), invocation_id: 0 }
}

/// Decides what follows recording an admitted invocation: its identifier,
/// or, when the recorder fails, the answer 503.
pub fn recorded_invocation(accepted: Result<u128, GatewayEdgeError>) -> (next: Result<u128, u16>)
    ensures
        match accepted {
            Ok(id) => next == Ok::<u128, u16>(id),
            Err(_) => next == Err::<u128, u16>(STATUS_SERVICE_UNAVAILABLE),
        },
{
    match accepted {
        Ok(id) => Ok(id),
        Err(_) => Err(STATUS_SERVICE_UNAVAILABLE),
    }
}

/// Decides what follows inbound secret substitution: the rewritten request,
/// or, for any missing, repeated, mismatched, revoked or expired secret, the
/// recorded outcome `Rejected` and the same answer as an unknown route (404).
pub fn substituted_request(
    substituted: Result<GatewayRequest, GatewayEdgeError>,
) -> (next: Result<GatewayRequest, (GatewayInvocationOutcome, u16)>)
    ensures
        match substituted {
            Ok(request) => next == Ok::<GatewayRequest, (GatewayInvocationOutcome, u16)>(request),
            Err(_) => next == Err::<GatewayRequest, (GatewayInvocationOutcome, u16)>(
                (GatewayInvocationOutcome::Rejected, STATUS_NOT_FOUND)),
        },
        next matches Err((_, status)) ==> status == STATUS_NOT_FOUND,
{
    match substituted {
        Ok(request) => Ok(request),
        Err(_) => Err((GatewayInvocationOutcome::Rejected, STATUS_NOT_FOUND)),
    }
}

} // verus!
