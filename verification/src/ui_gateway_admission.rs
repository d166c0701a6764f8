//! Boundary for requests arriving from the trusted UI handler.
//!
//! The durable provider resolves the route and gateway revision from the
//! child session, never from UI input; this module checks what it returns.
use vstd::prelude::*;
use crate::ident::NIL_UUID;
use crate::routes::{
    GatewayEdgeError, GatewayExposure, GatewayHeader, GatewayRequest, GatewayResponse, GatewayRouteBinding,
    HeaderView, TrustedRequestMetadata, method_allowed, request_targets_route, spec_headers,
    spec_method_allowed, spec_prefix_valid, spec_targets_route, prefix_chars_valid, STATUS_NOT_FOUND,
    STATUS_SERVICE_UNAVAILABLE,
};
use crate::text::{
    before_char, chars_of, has_char, has_dot_segment, has_empty_segment, has_pair, seq_eq, spec_before_char,
    spec_has_char, spec_has_dot_segment, spec_has_empty_segment, spec_has_pair, spec_starts_with, starts_with,
};

verus! {

/// HTTP 401.
pub const STATUS_UNAUTHORIZED: u16 = 401;

/// The only request kinds the UI origin may ask the gateway to serve.
#[derive(Debug, Clone, Copy, PartialEq, Eq, Structural)]
pub enum UiGatewayRequestKind {
    /// A path under a managed release route.
    Managed,
    /// An exact API route declared by the release.
    Api,
}

/// Safe, typed authority issued by the authenticated UI handler.
#[derive(Debug, Clone, PartialEq, Eq)]
pub struct UiGatewayAuthority {
    /// Canonical child browser session identity.
    pub child_session_id: u128,
    /// Authenticated actor bound to the child session.
    pub actor_id: u128,
    /// Canonical organization bound to the child session.
    pub organization_id: u128,
    /// Installation selected by the child session.
    pub installation_id: u128,
    /// Current installation generation asserted by the UI handler.
    pub generation_id: u128,
    /// Canonical request path: platform-relative for managed requests,
    /// absolute for API requests.
    pub canonical_request_path: String,
    /// Typed route kind declared by the UI verifier.
    pub request_kind: UiGatewayRequestKind,
    /// Exact method asserted by the UI verifier.
    pub method: String,
}

/// Unicode white space, as `char::is_whitespace` defines it.
pub open spec fn spec_is_whitespace(c: char) -> bool {
    ||| c == ' ' || c == '\t' || c == '\n' || c == '\u{b}' || c == '\u{c}' || c == '\r'
    ||| c == '\u{85}' || c == '\u{a0}' || c == '\u{1680}'
    ||| ('\u{2000}' <= c && c <= '\u{200a}')
    ||| c == '\u{2028}' || c == '\u{2029}' || c == '\u{202f}' || c == '\u{205f}' || c == '\u{3000}'
}

fn is_whitespace(c: char) -> (white: bool)
    ensures
        white == spec_is_whitespace(c),
{
    c == ' ' || c == '\t' || c == '\n' || c == '\u{b}' || c == '\u{c}' || c == '\r' || c == '\u{85}'
        || c == '\u{a0}' || c == '\u{1680}' || ('\u{2000}' <= c && c <= '\u{200a}') || c == '\u{2028}'
        || c == '\u{2029}' || c == '\u{202f}' || c == '\u{205f}' || c == '\u{3000}'
}

/// A path that could be read two ways: white space, `?`, `#`, `%`, `\` or `//`.
pub open spec fn spec_ambiguous_ui_path(path: Seq<char>) -> bool {
    ||| exists|i: int| 0 <= i < path.len() && #[trigger] spec_is_whitespace(path[i])
    ||| spec_has_char(path, '?') || spec_has_char(path, '#') || spec_has_char(path, '%')
    ||| spec_has_char(path, '\\')
    ||| spec_has_pair(path, '/', '/')
}

/// A canonical API route: one leading slash followed by a normalized
/// relative route path.
pub open spec fn spec_api_path_valid(path: Seq<char>) -> bool {
    path.len() > 1 && path[0] == '/' && spec_prefix_valid(path.drop_first())
}

/// What checking a canonical UI path returns.
pub open spec fn spec_canonical_path_result(kind: UiGatewayRequestKind, path: Seq<char>) -> Result<(), GatewayEdgeError> {
    if spec_ambiguous_ui_path(path) {
        Err(GatewayEdgeError::Contract("ambiguous UI request path"))
    } else {
        match kind {
            UiGatewayRequestKind::Managed => if spec_has_empty_segment(path) || spec_has_dot_segment(path) {
                Err(GatewayEdgeError::Contract("managed UI path is not platform-relative"))
            } else {
                Ok(())
            },
            UiGatewayRequestKind::Api => if !spec_api_path_valid(path) {
                Err(GatewayEdgeError::Contract("API UI path is not a canonical gateway route"))
            } else {
                Ok(())
            },
        }
    }
}

fn has_whitespace(path: &Vec<char>) -> (found: bool)
    ensures
        found == exists|i: int| 0 <= i < path@.len() && #[trigger] spec_is_whitespace(path@[i]),
{
    let mut i: usize = 0;
    while i < path.len()
        invariant
            i <= path@.len(),
            forall|j: int| 0 <= j < i ==> !#[trigger] spec_is_whitespace(path@[j]),
        decreases path@.len() - i,
    {
        if is_whitespace(path[i]) {
            return true;
        }
        i += 1;
    }
    false
}

/// Checks a canonical UI request path against the grammar of its kind.
pub fn validate_canonical_path(kind: UiGatewayRequestKind, path: &str) -> (result: Result<(), GatewayEdgeError>)
    ensures
        result == spec_canonical_path_result(kind, path@),
{
    let p = chars_of(path);
    if has_whitespace(&p) || has_char(&p, '?') || has_char(&p, '#') || has_char(&p, '%') || has_char(&p, '\\')
        || has_pair(&p, '/', '/') {
        return Err(GatewayEdgeError::Contract("ambiguous UI request path"));
    }
    match kind {
        UiGatewayRequestKind::Managed => {
            if has_empty_segment(&p) || has_dot_segment(&p) {
                return Err(GatewayEdgeError::Contract("managed UI path is not platform-relative"));
            }
        },
        UiGatewayRequestKind::Api => {
            if p.len() <= 1 || p[0] != '/' {
                return Err(GatewayEdgeError::Contract("API UI path is not a canonical gateway route"));
            }
            let mut rest: Vec<char> = Vec::new();
            let mut i: usize = 1;
            while i < p.len()
                invariant
                    1 <= i <= p@.len(),
                    rest@ == p@.subrange(1, i as int),
                decreases p@.len() - i,
            {
                rest.push(p[i]);
                i += 1;
            }
            assert(rest@ == p@.drop_first());
            if !prefix_chars_valid(&rest) {
                return Err(GatewayEdgeError::Contract("API UI path is not a canonical gateway route"));
            }
        },
    }
    Ok(())
}

/// What checking an authority against a request returns.
pub open spec fn spec_authority_result(
    authority: UiGatewayAuthority,
    method: Seq<char>,
    request_path_and_query: Seq<char>,
) -> Result<(), GatewayEdgeError> {
    let path = spec_before_char(request_path_and_query, '?');
    if authority.child_session_id == NIL_UUID || authority.actor_id == NIL_UUID
        || authority.organization_id == NIL_UUID || authority.installation_id == NIL_UUID
        || authority.generation_id == NIL_UUID {
        Err(GatewayEdgeError::Contract("UI authority has a nil identity"))
    } else if authority.method@ != method || authority.canonical_request_path@ != path {
        Err(GatewayEdgeError::Contract("UI authority does not match request"))
    } else {
        spec_canonical_path_result(authority.request_kind, path)
    }
}

impl UiGatewayAuthority {
    /// Checks the structural parts that do not require durable authority:
    /// no nil identity, the exact method and path, and the path grammar.
    pub fn validate_for(&self, method: &str, request_path_and_query: &str) -> (result: Result<(), GatewayEdgeError>)
        ensures
            result == spec_authority_result(*self, method@, request_path_and_query@),
    {
        if self.child_session_id == NIL_UUID || self.actor_id == NIL_UUID || self.organization_id == NIL_UUID
            || self.installation_id == NIL_UUID || self.generation_id == NIL_UUID {
            return Err(GatewayEdgeError::Contract("UI authority has a nil identity"));
        }
        let rpq = chars_of(request_path_and_query);
        let path = before_char(&rpq, '?');
        let own_method = chars_of(self.method.as_str());
        let requested_method = chars_of(method);
        let own_path = chars_of(self.canonical_request_path.as_str());
        if !seq_eq(&own_method, &requested_method) || !seq_eq(&own_path, &path) {
            return Err(GatewayEdgeError::Contract("UI authority does not match request"));
        }
        validate_canonical_path(self.request_kind, self.canonical_request_path.as_str())
    }
}

/// Request envelope received by the trusted UI-origin handler.
#[derive(Debug, Clone, PartialEq, Eq)]
pub struct UiGatewayRequest {
    /// Safe authority for this one request.
    pub authority: UiGatewayAuthority,
    /// Browser method, checked against `authority.method`.
    pub method: String,
    /// Canonical request path plus an optional opaque query.
    pub request_path_and_query: String,
    /// Browser headers before UI guest-policy stripping.
    pub headers: Vec<GatewayHeader>,
    /// Bounded request body.
    pub body: Vec<u8>,
    /// Metadata trusted by the loopback UI-origin handler.
    pub trusted: TrustedRequestMetadata,
}

/// Route and canonical gateway path selected by the durable authority port.
#[derive(Debug, Clone, PartialEq, Eq)]
pub struct UiGatewayAdmission {
    /// Current route and immutable released handler revision.
    pub route: GatewayRouteBinding,
    /// Canonical `/gateway/...` path passed to the dispatcher core.
    pub gateway_path_and_query: String,
}

/// The gateway path of an admission is absolute, unambiguous and addresses
/// the route.
pub open spec fn spec_gateway_path_ok(route: GatewayRouteBinding, gateway_path_and_query: Seq<char>) -> bool {
    let path = spec_before_char(gateway_path_and_query, '?');
    &&& path.len() > 0 && path[0] == '/'
    &&& !spec_has_pair(path, '/', '/')
    &&& !spec_has_char(path, '#')
    &&& !spec_has_char(path, '%')
    &&& spec_targets_route(route.path_prefix@, gateway_path_and_query)
}

/// What checking an admission returns.
pub open spec fn spec_admission_result(
    admission: UiGatewayAdmission,
    authority: UiGatewayAuthority,
    method: Seq<char>,
    request_path_and_query: Seq<char>,
) -> Result<(), GatewayEdgeError> {
    let checked = spec_authority_result(authority, method, request_path_and_query);
    if checked is Err {
        checked
    } else if admission.route.exposure != GatewayExposure::HephAuthenticated {
        Err(GatewayEdgeError::Contract("UI admission selected a public or unknown exposure"))
    } else if admission.route.spec_validate_result() is Err {
        admission.route.spec_validate_result()
    } else if !spec_method_allowed(admission.route.methods@, method)
        || !spec_gateway_path_ok(admission.route, admission.gateway_path_and_query@) {
        Err(GatewayEdgeError::Contract("UI admission route mismatch"))
    } else {
        Ok(())
    }
}

impl UiGatewayAdmission {
    /// Rejects a provider result that cannot enter the authenticated path.
    pub fn validate_for(&self, authority: &UiGatewayAuthority, method: &str, request_path_and_query: &str) -> (result: Result<(), GatewayEdgeError>)
        ensures
            result == spec_admission_result(*self, *authority, method@, request_path_and_query@),
    {
        let checked = authority.validate_for(method, request_path_and_query);
        if checked.is_err() {
            return checked;
        }
        if self.route.exposure != GatewayExposure::HephAuthenticated {
            return Err(GatewayEdgeError::Contract("UI admission selected a public or unknown exposure"));
        }
        let valid = self.route.validate();
        if valid.is_err() {
            return valid;
        }
        let gpq = chars_of(self.gateway_path_and_query.as_str());
        let path = before_char(&gpq, '?');
        if !method_allowed(&self.route.methods, method) || path.len() == 0 || path[0] != '/'
            || has_pair(&path, '/', '/') || has_char(&path, '#') || has_char(&path, '%')
            || !request_targets_route(&self.route, self.gateway_path_and_query.as_str()) {
            return Err(GatewayEdgeError::Contract("UI admission route mismatch"));
        }
        Ok(())
    }
}

/// Header names removed before a UI request reaches guest code: browser
/// credentials, the host, and every forwarding header.
pub open spec fn spec_ui_stripped(name: Seq<char>) -> bool {
    ||| name == "authorization"@ || name == "cookie"@ || name == "host"@ || name == "proxy-authorization"@
    ||| name == "x-api-key"@ || name == "x-auth-token"@ || name == "x-access-token"@ || name == "forwarded"@
    ||| name == "x-forwarded-for"@ || name == "x-forwarded-host"@ || name == "x-forwarded-proto"@
    ||| spec_starts_with(name, "x-forwarded-"@)
}

/// The headers that survive UI stripping, in order.
pub open spec fn spec_ui_strip(headers: Seq<HeaderView>) -> Seq<HeaderView> {
    headers.filter(|h: HeaderView| spec_ui_kept(h))
}

/// Whether a header survives UI stripping.
pub open spec fn spec_ui_kept(h: HeaderView) -> bool {
    !spec_ui_stripped(h.name)
}

fn is_ui_stripped(name: &str) -> (stripped: bool)
    ensures
        stripped == spec_ui_stripped(name@),
{
    let n = chars_of(name);
    let listed = [
        "authorization", "cookie", "host", "proxy-authorization", "x-api-key", "x-auth-token",
        "x-access-token", "forwarded", "x-forwarded-for", "x-forwarded-host", "x-forwarded-proto",
    ];
    let c0 = chars_of(listed[0]);
    let c1 = chars_of(listed[1]);
    let c2 = chars_of(listed[2]);
    let c3 = chars_of(listed[3]);
    let c4 = chars_of(listed[4]);
    let c5 = chars_of(listed[5]);
    let c6 = chars_of(listed[6]);
    let c7 = chars_of(listed[7]);
    let c8 = chars_of(listed[8]);
    let c9 = chars_of(listed[9]);
    let c10 = chars_of(listed[10]);
    let forwarding = chars_of("x-forwarded-");
    seq_eq(&n, &c0) || seq_eq(&n, &c1) || seq_eq(&n, &c2) || seq_eq(&n, &c3) || seq_eq(&n, &c4)
        || seq_eq(&n, &c5) || seq_eq(&n, &c6) || seq_eq(&n, &c7) || seq_eq(&n, &c8) || seq_eq(&n, &c9)
        || seq_eq(&n, &c10) || starts_with(&n, &forwarding)
}

/// Removes browser credentials and edge-routing headers before guest code,
/// keeping every other header in its order.
pub fn strip_ui_guest_headers(headers: &mut Vec<GatewayHeader>)
    ensures
        spec_headers(final(headers)@) == spec_ui_strip(spec_headers(old(headers)@)),
{
    let ghost all = spec_headers(headers@);
    let mut kept: Vec<GatewayHeader> = Vec::new();
    let mut i: usize = 0;
    while i < headers.len()
        invariant
            all == spec_headers(headers@),
            i <= headers@.len(),
            spec_headers(kept@) == all.take(i as int).filter(|h: HeaderView| spec_ui_kept(h)),
        decreases headers@.len() - i,
    {
        proof {
            reveal(Seq::filter);
            assert(all.take(i as int + 1).drop_last() =~= all.take(i as int));
            assert(all.take(i as int + 1).last() == all[i as int]);
        }
        if !is_ui_stripped(headers[i].name.as_str()) {
            let h = GatewayHeader { name: headers[i].name.clone(), value: headers[i].value.clone() };
            let ghost before = spec_headers(kept@);
            kept.push(h);
            proof {
                assert(spec_headers(kept@) =~= before.push(all[i as int]));
            }
        }
        i += 1;
    }
    proof {
        assert(all.take(headers@.len() as int) =~= all);
    }
    *headers = kept;
}

/// Whether a header list sets a browser cookie.
pub open spec fn spec_sets_cookie(headers: Seq<GatewayHeader>) -> bool {
    exists|i: int| 0 <= i < headers.len() && #[trigger] headers[i].name@ == "set-cookie"@
}

/// Rejects guest responses that could create a browser credential.
pub fn reject_ui_set_cookie(response: &GatewayResponse) -> (result: Result<(), GatewayEdgeError>)
    ensures
        result is Ok <==> !spec_sets_cookie(response.headers@),
        result matches Err(e) ==> e == GatewayEdgeError::Contract("UI guest responses cannot set cookies"),
{
    let target = chars_of("set-cookie");
    let mut i: usize = 0;
    while i < response.headers.len()
        invariant
            target@ == "set-cookie"@,
            i <= response.headers@.len(),
            forall|j: int| 0 <= j < i ==> #[trigger] response.headers@[j].name@ != "set-cookie"@,
        decreases response.headers@.len() - i,
    {
        let name = chars_of(response.headers[i].name.as_str());
        if seq_eq(&name, &target) {
            return Err(GatewayEdgeError::Contract("UI guest responses cannot set cookies"));
        }
        i += 1;
    }
    Ok(())
}

/// Applies the UI response policy before the response reaches the browser.
pub fn validate_ui_response(response: &GatewayResponse) -> (result: Result<(), GatewayEdgeError>)
    ensures
        result is Ok <==> !spec_sets_cookie(response.headers@),
        result matches Err(e) ==> e == GatewayEdgeError::Contract("UI guest responses cannot set cookies"),
{
    reject_ui_set_cookie(response)
}

/// Converts an admitted UI request into the dispatcher envelope: the
/// admission is checked first, the browser's guest-forbidden headers are
/// stripped, and the gateway path comes from the admission.
pub fn prepare_gateway_request(request: &UiGatewayRequest, admission: &UiGatewayAdmission) -> (result: Result<GatewayRequest, GatewayEdgeError>)
    ensures
        spec_admission_result(*admission, request.authority, request.method@, request.request_path_and_query@) matches Err(e)
            ==> result == Err::<GatewayRequest, GatewayEdgeError>(e),
        spec_admission_result(*admission, request.authority, request.method@, request.request_path_and_query@) is Ok
            ==> (result matches Ok(r) && r.method@ == request.method@
                && r.path_and_query@ == admission.gateway_path_and_query@
                && spec_headers(r.headers@) == spec_ui_strip(spec_headers(request.headers@))
                && r.body@ == request.body@ && r.trusted == request.trusted),
{
    let checked = admission.validate_for(&request.authority, request.method.as_str(), request.request_path_and_query.as_str());
    match checked {
        Err(e) => Err(e),
        Ok(()) => {
            let mut headers: Vec<GatewayHeader> = Vec::new();
            let mut i: usize = 0;
            while i < request.headers.len()
                invariant
                    i <= request.headers@.len(),
                    spec_headers(headers@) == spec_headers(request.headers@.take(i as int)),
                decreases request.headers@.len() - i,
            {
                let h = GatewayHeader { name: request.headers[i].name.clone(), value: request.headers[i].value.clone() };
                let ghost before = spec_headers(headers@);
                headers.push(h);
                proof {
                    assert(spec_headers(headers@) =~= before.push(request.headers@[i as int]@));
                    assert(request.headers@.take(i as int + 1) =~= request.headers@.take(i as int).push(request.headers@[i as int]));
                    assert(spec_headers(request.headers@.take(i as int + 1)) =~= spec_headers(request.headers@.take(i as int)).push(request.headers@[i as int]@));
                }
                i += 1;
            }
            proof {
                assert(request.headers@.take(request.headers@.len() as int) =~= request.headers@);
            }
            strip_ui_guest_headers(&mut headers);
            Ok(GatewayRequest {
                method: request.method.clone(),
                path_and_query: admission.gateway_path_and_query.clone(),
                headers,
                body: request.body.clone(),
                trusted: copy_trusted(&request.trusted),
            })
        },
    }
}

fn copy_trusted(trusted: &TrustedRequestMetadata) -> (copy: TrustedRequestMetadata)
    ensures
        copy == *trusted,
{
    TrustedRequestMetadata {
        scheme: trusted.scheme,
        authority: trusted.authority.clone(),
        client_address: trusted.client_address.clone(),
        request_id: trusted.request_id,
    }
}

/// Redacted result classes for the UI-origin handler.
#[derive(Debug, Clone, Copy, PartialEq, Eq, Structural)]
pub enum UiGatewayAdmissionError {
    /// The child, actor, generation, route, or permission is not authorized.
    Denied,
    /// The requested UI route does not exist in the current release.
    NotFound,
    /// Durable authority or gateway execution state is unavailable.
    Unavailable,
}

/// The browser status for an admission failure.
pub open spec fn spec_admission_failure_status(error: UiGatewayAdmissionError) -> u16 {
    match error {
        UiGatewayAdmissionError::Denied => STATUS_UNAUTHORIZED,
        UiGatewayAdmissionError::NotFound => STATUS_NOT_FOUND,
        UiGatewayAdmissionError::Unavailable => STATUS_SERVICE_UNAVAILABLE,
    }
}

/// Maps a UI authority failure to the safe, empty browser response.
pub fn admission_failure_response(error: UiGatewayAdmissionError) -> (response: GatewayResponse)
    ensures
        response.status == spec_admission_failure_status(error),
        response.headers@.len() == 0,
        response.body@.len() == 0,
{
    let status = match error {
        UiGatewayAdmissionError::Denied => STATUS_UNAUTHORIZED,
        UiGatewayAdmissionError::NotFound => STATUS_NOT_FOUND,
        UiGatewayAdmissionError::Unavailable => STATUS_SERVICE_UNAVAILABLE,
    };
    GatewayResponse { status, headers: Vec::new(), body: Vec::new() }
}

/// A sequence whose every element passes a filter is its own filtering.
proof fn lemma_filter_keeps_all(s: Seq<HeaderView>)
    requires
        forall|i: int| 0 <= i < s.len() ==> spec_ui_kept(#[trigger] s[i]),
    ensures
        s.filter(|h: HeaderView| spec_ui_kept(h)) == s,
    decreases s.len(),
{
    reveal(Seq::filter);
    if s.len() > 0 {
        assert forall|i: int| 0 <= i < s.drop_last().len() implies spec_ui_kept(#[trigger] s.drop_last()[i]) by {
            assert(s.drop_last()[i] == s[i]);
        }
        lemma_filter_keeps_all(s.drop_last());
        assert(spec_ui_kept(s[s.len() - 1]));
        assert(s.drop_last().push(s.last()) =~= s);
    } else {
        assert(s.filter(|h: HeaderView| spec_ui_kept(h)) =~= s);
    }
}

/// Stripping leaves no credential, host or forwarding header, and
/// stripping again changes nothing.
pub proof fn lemma_strip_is_complete_and_idempotent(headers: Seq<HeaderView>)
    ensures
        forall|i: int| 0 <= i < spec_ui_strip(headers).len() ==> !spec_ui_stripped(#[trigger] spec_ui_strip(headers)[i].name),
        spec_ui_strip(spec_ui_strip(headers)) == spec_ui_strip(headers),
{
    let pred = |h: HeaderView| spec_ui_kept(h);
    let kept = spec_ui_strip(headers);
    assert(kept == headers.filter(pred));
    assert forall|i: int| 0 <= i < kept.len() implies spec_ui_kept(#[trigger] kept[i]) by {
        headers.lemma_filter_pred(pred, i);
    }
    lemma_filter_keeps_all(kept);
}

} // verus!
