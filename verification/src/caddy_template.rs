//! The operator's complete shared-Caddy configuration, held as the bytes it
//! arrived in, with its one reserved gateway slot; and the configuration
//! rendered from it for one desired route set.
//!
//! serde_json reads and rewrites the document; this module chooses what it
//! reads, where the routes go, and the exact text of each derived route.
use vstd::prelude::*;
use crate::caddy::{
    CaddyRouteSummary, GATEWAY_ROUTE_GROUP, GatewayReconcileStep, SUBROUTE_HANDLER, plan_reconcile, spec_gateway_slot,
    spec_observed_after_load,
    spec_in_gateway_group, spec_prefixes, spec_routes_result, spec_sorted, spec_views, validate_template,
};
use crate::ident::spec_hex_digit;
use crate::routes::{
    GATEWAY_NAMESPACE, GatewayConfigRevision, GatewayDesiredConfiguration, GatewayEdgeError, spec_has_duplicate_prefix,
    spec_public_path,
};

verus! {

/// A string field as plain text.
pub open spec fn spec_text_view(text: Option<String>) -> Option<Seq<char>> {
    match text {
        Some(t) => Some(t@),
        None => None,
    }
}

/// A route summary as plain text: its group and its first handler.
pub open spec fn spec_summary_view(route: CaddyRouteSummary) -> (Option<Seq<char>>, Option<Seq<char>>) {
    (spec_text_view(route.group), spec_text_view(route.first_handler))
}

/// Route summaries as plain text.
pub open spec fn spec_summaries_view(routes: Option<Vec<CaddyRouteSummary>>) -> Option<Seq<(Option<Seq<char>>, Option<Seq<char>>)>> {
    match routes {
        Some(r) => Some(r@.map_values(|route: CaddyRouteSummary| spec_summary_view(route))),
        None => None,
    }
}

/// What serde_json reads from `document` at the JSON pointer: `None` unless
/// the bytes parse and the pointer addresses an array; otherwise, for each
/// element, its string `group` and the string `handler` of its first
/// `handle` entry.
pub uninterp spec fn json_route_summaries(
    document: Seq<u8>,
    pointer: Seq<char>,
) -> Option<Seq<(Option<Seq<char>>, Option<Seq<char>>)>>;

/// How serde_json writes one character inside a string literal: the quote
/// and the backslash are escaped, the control characters with a short form
/// use it, the other control characters become `\u00` and two lower-case
/// hexadecimal digits, and every other character stays.
pub open spec fn spec_json_escape_char(c: char) -> Seq<char> {
    if c == '"' {
        seq!['\\', '"']
    } else if c == '\\' {
        seq!['\\', '\\']
    } else if c == '\u{8}' {
        seq!['\\', 'b']
    } else if c == '\t' {
        seq!['\\', 't']
    } else if c == '\n' {
        seq!['\\', 'n']
    } else if c == '\u{c}' {
        seq!['\\', 'f']
    } else if c == '\r' {
        seq!['\\', 'r']
    } else if (c as u32) < 32 {
        seq!['\\', 'u', '0', '0', spec_hex_digit((c as u32 / 16) as nat), spec_hex_digit((c as u32 % 16) as nat)]
    } else {
        seq![c]
    }
}

/// The escaped characters of a string.
pub open spec fn spec_json_escape(text: Seq<char>) -> Seq<char>
    decreases text.len(),
{
    if text.len() == 0 {
        Seq::empty()
    } else {
        spec_json_escape(text.drop_last()) + spec_json_escape_char(text.last())
    }
}

/// `serde_json::to_string` of a string: its JSON string literal, which
/// serde_json always produces.
pub open spec fn json_quoted(text: Seq<char>) -> Option<Seq<char>> {
    Some(seq!['"'] + spec_json_escape(text) + seq!['"'])
}

/// Why replacing one value of a JSON document failed.
#[derive(Debug, Clone, Copy, PartialEq, Eq, Structural)]
pub enum JsonReplaceFailure {
    /// The document or the replacement is not JSON.
    Unparsable,
    /// The pointer addresses no value of the document.
    MissingTarget,
    /// serde_json could not write the document back.
    Unserializable,
}

/// What serde_json gives back for `document` with the value at the JSON
/// pointer replaced by the parsed `replacement`.
pub uninterp spec fn json_replaced_at(
    document: Seq<u8>,
    pointer: Seq<char>,
    replacement: Seq<char>,
) -> Result<Seq<u8>, JsonReplaceFailure>;

/// Reads the routes at `pointer` with `serde_json::from_slice`,
/// `Value::pointer`, `Value::as_array`, `Value::get` and `Value::as_str`.
/// Trusted: the summaries are what `json_route_summaries` names for the same
/// bytes and pointer.
#[verifier::external_body]
fn read_route_summaries(document: &[u8], pointer: &str) -> (routes: Option<Vec<CaddyRouteSummary>>)
    ensures
        spec_summaries_view(routes) == json_route_summaries(document@, pointer@),
{
    let parsed: serde_json::Value = serde_json::from_slice(document).ok()?;
    let routes = parsed.pointer(pointer)?.as_array()?;
    Some(routes.iter().map(|route| CaddyRouteSummary {
        group: route.get("group").and_then(serde_json::Value::as_str).map(str::to_owned),
        first_handler: route.get("handle").and_then(serde_json::Value::as_array)
            .and_then(|handlers| handlers.first()).and_then(|handler| handler.get("handler"))
            .and_then(serde_json::Value::as_str).map(str::to_owned),
    }).collect())
}

/// `serde_json::to_string` of a string. Trusted: serde_json writes a
/// string into a byte vector without failing, escaping it as `json_quoted`
/// states.
#[verifier::external_body]
fn quote_json(text: &str) -> (quoted: Option<String>)
    ensures
        spec_text_view(quoted) == json_quoted(text@),
{
    serde_json::to_string(text).ok()
}

/// Parses `document` and `replacement` with serde_json, replaces the value
/// that `Value::pointer_mut` finds, and writes the document back with
/// `serde_json::to_vec`. Trusted: the outcome is what `json_replaced_at`
/// names for the same arguments.
#[verifier::external_body]
fn replace_json_at(document: &[u8], pointer: &str, replacement: &str) -> (result: Result<Vec<u8>, JsonReplaceFailure>)
    ensures
        spec_bytes_result(result) == json_replaced_at(document@, pointer@, replacement@),
{
    let mut parsed: serde_json::Value = serde_json::from_slice(document).map_err(|_| JsonReplaceFailure::Unparsable)?;
    let value: serde_json::Value = serde_json::from_str(replacement).map_err(|_| JsonReplaceFailure::Unparsable)?;
    let target = parsed.pointer_mut(pointer).ok_or(JsonReplaceFailure::MissingTarget)?;
    *target = value;
    serde_json::to_vec(&parsed).map_err(|_| JsonReplaceFailure::Unserializable)
}

/// A byte result by its view.
pub open spec fn spec_bytes_result<E>(result: Result<Vec<u8>, E>) -> Result<Seq<u8>, E> {
    match result {
        Ok(b) => Ok(b@),
        Err(e) => Err(e),
    }
}

/// The reserved slot among plain route summaries: the one gateway-group
/// route, whose first handler is a subroute.
pub open spec fn spec_view_slot(routes: Seq<(Option<Seq<char>>, Option<Seq<char>>)>, i: int) -> bool {
    &&& 0 <= i < routes.len()
    &&& spec_view_in_group(routes[i])
    &&& forall|j: int| 0 <= j < routes.len() && #[trigger] spec_view_in_group(routes[j]) ==> j == i
    &&& routes[i].1 == Some(SUBROUTE_HANDLER@)
}

/// Whether a plain route summary is in the gateway group.
pub open spec fn spec_view_in_group(route: (Option<Seq<char>>, Option<Seq<char>>)) -> bool {
    route.0 == Some(GATEWAY_ROUTE_GROUP@)
}

/// The JSON pointer of the selected server's route list.
pub open spec fn spec_routes_pointer(server: Seq<char>) -> Seq<char> {
    "/apps/http/servers/"@ + server + "/routes"@
}

/// The reserved slot of a template: the server is named, the bytes are a
/// JSON document with a route list for it, and `slot` is its one gateway
/// subroute.
pub open spec fn spec_template_slot(configuration: Seq<u8>, server: Seq<char>, slot: int) -> bool {
    &&& server.len() > 0
    &&& json_route_summaries(configuration, spec_routes_pointer(server)) matches Some(routes)
    &&& spec_view_slot(routes, slot)
}

/// The slot test reads the same on route summaries and on their plain text.
proof fn lemma_slot_by_view(routes: Seq<CaddyRouteSummary>, i: int)
    ensures
        spec_gateway_slot(routes, i) <==> spec_view_slot(
            routes.map_values(|route: CaddyRouteSummary| spec_summary_view(route)),
            i,
        ),
{
    let views = routes.map_values(|route: CaddyRouteSummary| spec_summary_view(route));
    assert forall|j: int| 0 <= j < routes.len() implies (spec_in_gateway_group(routes[j])
        <==> spec_view_in_group(#[trigger] views[j])) by {
        assert(views[j] == spec_summary_view(routes[j]));
    }
    assert forall|j: int| 0 <= j < routes.len() implies (#[trigger] spec_in_gateway_group(routes[j])
        <==> spec_view_in_group(views[j])) by {
        assert(views[j] == spec_summary_view(routes[j]));
    }
    if 0 <= i < routes.len() {
        assert(views[i] == spec_summary_view(routes[i]));
    }
}

/// Returns the JSON pointer of the selected server's route list.
fn routes_pointer(server: &str) -> (pointer: String)
    ensures
        pointer@ == spec_routes_pointer(server@),
{
    "/apps/http/servers/".to_owned().concat(server).concat("/routes")
}

/// The decimal digit `d`.
pub open spec fn spec_digit(d: nat) -> Seq<char> {
    if d == 0 { "0"@ } else if d == 1 { "1"@ } else if d == 2 { "2"@ } else if d == 3 { "3"@ }
    else if d == 4 { "4"@ } else if d == 5 { "5"@ } else if d == 6 { "6"@ } else if d == 7 { "7"@ }
    else if d == 8 { "8"@ } else { "9"@ }
}

/// The decimal numeral of `n`, without leading zeros.
pub open spec fn spec_decimal(n: nat) -> Seq<char>
    decreases n,
{
    if n < 10 {
        spec_digit(n)
    } else {
        spec_decimal(n / 10) + spec_digit(n % 10)
    }
}

/// Returns the decimal digit `d`.
fn digit(d: usize) -> (text: String)
    requires
        d < 10,
    ensures
        text@ == spec_digit(d as nat),
{
    let t = if d == 0 { "0" } else if d == 1 { "1" } else if d == 2 { "2" } else if d == 3 { "3" }
        else if d == 4 { "4" } else if d == 5 { "5" } else if d == 6 { "6" } else if d == 7 { "7" }
        else if d == 8 { "8" } else { "9" };
    t.to_owned()
}

/// Returns the decimal numeral of `n`.
pub fn decimal(n: usize) -> (text: String)
    ensures
        text@ == spec_decimal(n as nat),
    decreases n,
{
    if n < 10 {
        digit(n)
    } else {
        let head = decimal(n / 10);
        let last = digit(n % 10);
        head.concat(last.as_str())
    }
}

/// The JSON pointer of the reserved slot's own route list.
pub open spec fn spec_slot_pointer(server: Seq<char>, slot: nat) -> Seq<char> {
    spec_routes_pointer(server) + "/"@ + spec_decimal(slot) + "/handle/0/routes"@
}

/// The Caddy route for one public path, given the quoted upstream: it
/// matches the path and everything below it and proxies to the upstream.
pub open spec fn spec_route_entry(path: Seq<char>, quoted_upstream: Seq<char>) -> Option<Seq<char>> {
    match (json_quoted(path), json_quoted(path + "/*"@)) {
        (Some(exact), Some(below)) => Some(
            "{\"match\":[{\"path\":["@ + exact + ","@ + below + "]}],\"handle\":[{\"handler\":\"reverse_proxy\",\"upstreams\":[{\"dial\":"@
                + quoted_upstream + "}]}],\"terminal\":true}"@,
        ),
        _ => None,
    }
}

/// The comma-separated Caddy routes for route prefixes, in their order.
pub open spec fn spec_route_entries(prefixes: Seq<Seq<char>>, quoted_upstream: Seq<char>) -> Option<Seq<char>>
    decreases prefixes.len(),
{
    if prefixes.len() == 0 {
        Some(Seq::empty())
    } else {
        match (
            spec_route_entries(prefixes.drop_last(), quoted_upstream),
            spec_route_entry(spec_public_path(prefixes.last()), quoted_upstream),
        ) {
            (Some(head), Some(entry)) => Some(if prefixes.len() == 1 { entry } else { head + ","@ + entry }),
            _ => None,
        }
    }
}

/// The JSON array of derived routes that fills the reserved slot.
pub open spec fn spec_routes_document(prefixes: Seq<Seq<char>>, upstream: Seq<char>) -> Option<Seq<char>> {
    match json_quoted(upstream) {
        Some(quoted) => match spec_route_entries(prefixes, quoted) {
            Some(entries) => Some("["@ + entries + "]"@),
            None => None,
        },
        None => None,
    }
}

/// What rendering returns: an upstream is required; the derived routes
/// replace the reserved slot's route list and the whole document is written
/// back.
pub open spec fn spec_render_result(
    configuration: Seq<u8>,
    server: Seq<char>,
    slot: nat,
    prefixes: Seq<Seq<char>>,
    upstream: Seq<char>,
) -> Result<Seq<u8>, GatewayEdgeError> {
    if upstream.len() == 0 {
        Err(GatewayEdgeError::Unavailable)
    } else {
        match spec_routes_document(prefixes, upstream) {
            None => Err(GatewayEdgeError::Unavailable),
            Some(document) => match json_replaced_at(configuration, spec_slot_pointer(server, slot), document) {
                Ok(bytes) => Ok(bytes),
                Err(JsonReplaceFailure::Unserializable) => Err(GatewayEdgeError::Unavailable),
                Err(_) => Err(GatewayEdgeError::InvalidCaddyConfiguration),
            },
        }
    }
}

/// Returns the Caddy route for one public path.
fn route_entry(path: &str, quoted_upstream: &str) -> (entry: Option<String>)
    ensures
        spec_text_view(entry) == spec_route_entry(path@, quoted_upstream@),
{
    let exact = quote_json(path)?;
    let below_path = path.to_owned().concat("/*");
    let below = quote_json(below_path.as_str())?;
    let entry = "{\"match\":[{\"path\":[".to_owned().concat(exact.as_str()).concat(",").concat(below.as_str())
        .concat("]}],\"handle\":[{\"handler\":\"reverse_proxy\",\"upstreams\":[{\"dial\":").concat(quoted_upstream)
        .concat("}]}],\"terminal\":true}");
    Some(entry)
}

/// Returns the JSON array of derived routes for prefixes, in their order.
fn routes_document(prefixes: &Vec<String>, upstream: &str) -> (document: Option<String>)
    ensures
        spec_text_view(document) == spec_routes_document(spec_views(prefixes@), upstream@),
{
    let quoted = quote_json(upstream)?;
    let mut entries = String::new();
    let mut k: usize = 0;
    while k < prefixes.len()
        invariant
            k <= prefixes@.len(),
            Some(quoted@) == json_quoted(upstream@),
            spec_route_entries(spec_views(prefixes@).take(k as int), quoted@) == Some(entries@),
        decreases prefixes@.len() - k,
    {
        let ghost before = spec_views(prefixes@).take(k as int);
        let ghost after = spec_views(prefixes@).take(k as int + 1);
        proof {
            assert(after.drop_last() =~= before);
            assert(after.last() == prefixes@[k as int]@);
        }
        let path = GATEWAY_NAMESPACE.to_owned().concat(prefixes[k].as_str());
        let entry = route_entry(path.as_str(), quoted.as_str());
        match entry {
            None => {
                proof {
                    lemma_entries_fail_persist(spec_views(prefixes@), quoted@, k as int + 1);
                }
                return None;
            },
            Some(e) => {
                if k == 0 {
                    entries = e;
                } else {
                    entries = entries.concat(",").concat(e.as_str());
                }
            },
        }
        k += 1;
    }
    proof {
        assert(spec_views(prefixes@).take(prefixes@.len() as int) =~= spec_views(prefixes@));
    }
    Some("[".to_owned().concat(entries.as_str()).concat("]"))
}

/// Once the routes of a prefix of the list cannot be written, none of the
/// list can.
proof fn lemma_entries_fail_persist(prefixes: Seq<Seq<char>>, quoted: Seq<char>, k: int)
    requires
        0 <= k <= prefixes.len(),
        spec_route_entries(prefixes.take(k), quoted) is None,
    ensures
        spec_route_entries(prefixes, quoted) is None,
    decreases prefixes.len() - k,
{
    if k < prefixes.len() {
        assert(prefixes.take(k + 1).drop_last() =~= prefixes.take(k));
        lemma_entries_fail_persist(prefixes, quoted, k + 1);
    } else {
        assert(prefixes.take(k) =~= prefixes);
    }
}

/// Complete operator-owned shared-Caddy configuration with its one reserved
/// gateway subroute.
#[derive(Debug)]
pub struct LocalCaddyConfigurationTemplate {
    base: Vec<u8>,
    server: String,
    slot: usize,
}

impl Clone for LocalCaddyConfigurationTemplate {
    fn clone(&self) -> (copy: Self)
        ensures
            copy.spec_base() == self.spec_base(),
            copy.spec_server() == self.spec_server(),
            copy.spec_slot() == self.spec_slot(),
    {
        proof {
            use_type_invariant(self);
        }
        LocalCaddyConfigurationTemplate {
            base: vstd::slice::slice_to_vec(self.base.as_slice()),
            server: self.server.clone(),
            slot: self.slot,
        }
    }
}

impl LocalCaddyConfigurationTemplate {
    /// The configuration as supplied.
    pub closed spec fn spec_base(&self) -> Seq<u8> {
        self.base@
    }

    /// The selected server.
    pub closed spec fn spec_server(&self) -> Seq<char> {
        self.server@
    }

    /// The reserved slot's index in the server's route list.
    pub closed spec fn spec_slot(&self) -> nat {
        self.slot as nat
    }

    /// The slot is the template's one gateway subroute.
    #[verifier::type_invariant]
    closed spec fn inv(self) -> bool {
        spec_template_slot(self.base@, self.server@, self.slot as int)
    }

    /// Parses and validates a complete Caddy JSON configuration: the
    /// selected server must hold exactly one route with the gateway group,
    /// and its first handler must be a subroute.
    pub fn new(configuration: &[u8], server: String) -> (result: Result<Self, GatewayEdgeError>)
        ensures
            result is Ok <==> exists|i: int| spec_template_slot(configuration@, server@, i),
            result matches Ok(template) ==> {
                &&& template.spec_base() == configuration@
                &&& template.spec_server() == server@
                &&& spec_template_slot(configuration@, server@, template.spec_slot() as int)
            },
            result is Err ==> result == Err::<Self, GatewayEdgeError>(GatewayEdgeError::InvalidCaddyConfiguration),
    {
        if server.as_str().is_empty() {
            return Err(GatewayEdgeError::InvalidCaddyConfiguration);
        }
        let pointer = routes_pointer(server.as_str());
        let routes = read_route_summaries(configuration, pointer.as_str());
        let ghost read = routes;
        let checked = validate_template(server.as_str(), routes);
        match checked {
            Ok(slot) => {
                proof {
                    let r = read.unwrap();
                    lemma_slot_by_view(r@, slot as int);
                }
                let base = vstd::slice::slice_to_vec(configuration);
                Ok(LocalCaddyConfigurationTemplate { base, server, slot })
            },
            Err(e) => {
                proof {
                    if exists|i: int| spec_template_slot(configuration@, server@, i) {
                        let i = choose|i: int| spec_template_slot(configuration@, server@, i);
                        let r = read.unwrap();
                        lemma_slot_by_view(r@, i);
                    }
                }
                Err(e)
            },
        }
    }

    /// Renders the loaded configuration: the derived routes for `prefixes`,
    /// in their order, fill the reserved slot and proxy to the dispatcher
    /// upstream; every other part of the operator's configuration stays.
    pub fn render(&self, prefixes: &Vec<String>, dispatcher_upstream: &str) -> (result: Result<Vec<u8>, GatewayEdgeError>)
        ensures
            spec_bytes_result(result) == spec_render_result(
                self.spec_base(),
                self.spec_server(),
                self.spec_slot(),
                spec_views(prefixes@),
                dispatcher_upstream@,
            ),
    {
        if dispatcher_upstream.is_empty() {
            return Err(GatewayEdgeError::Unavailable);
        }
        let document = match routes_document(prefixes, dispatcher_upstream) {
            Some(d) => d,
            None => {
                return Err(GatewayEdgeError::Unavailable);
            },
        };
        let pointer = routes_pointer(self.server.as_str()).concat("/").concat(decimal(self.slot).as_str())
            .concat("/handle/0/routes");
        match replace_json_at(self.base.as_slice(), pointer.as_str(), document.as_str()) {
            Ok(bytes) => Ok(bytes),
            Err(JsonReplaceFailure::Unserializable) => Err(GatewayEdgeError::Unavailable),
            Err(_) => Err(GatewayEdgeError::InvalidCaddyConfiguration),
        }
    }
}

/// What reconciling returns, by view: `None` when the revision is already
/// applied, else the configuration to load.
pub open spec fn spec_load_view(result: Result<Option<Vec<u8>>, GatewayEdgeError>) -> Result<Option<Seq<u8>>, GatewayEdgeError> {
    match result {
        Ok(Some(bytes)) => Ok(Some(bytes@)),
        Ok(None) => Ok(None),
        Err(e) => Err(e),
    }
}

/// A reconciliation has a valid, unambiguous route set and its revision is
/// already applied: it loads nothing.
pub open spec fn spec_reconcile_skips(desired: GatewayDesiredConfiguration, observed: Option<GatewayConfigRevision>) -> bool {
    &&& spec_routes_result(desired.routes@) is Ok
    &&& !spec_has_duplicate_prefix(desired.routes@)
    &&& observed == Some(desired.revision)
}

/// A reconciliation has a valid, unambiguous route set whose revision is
/// not applied yet: it is the only kind that loads a configuration.
pub open spec fn spec_reconcile_loads(desired: GatewayDesiredConfiguration, observed: Option<GatewayConfigRevision>) -> bool {
    &&& spec_routes_result(desired.routes@) is Ok
    &&& !spec_has_duplicate_prefix(desired.routes@)
    &&& observed != Some(desired.revision)
}

/// Decides one reconciliation of the shared Caddy configuration: every
/// route must validate and prefixes must be unique; an already-applied
/// revision loads nothing; otherwise a template is required, and the
/// configuration to load is the template rendered with the routes in prefix
/// order.
pub fn reconcile_configuration(
    desired: &GatewayDesiredConfiguration,
    observed: Option<GatewayConfigRevision>,
    template: Option<&LocalCaddyConfigurationTemplate>,
    dispatcher_upstream: &str,
) -> (result: Result<Option<Vec<u8>>, GatewayEdgeError>)
    ensures
        result matches Ok(Some(_)) ==> spec_reconcile_loads(*desired, observed),
        spec_reconcile_skips(*desired, observed) ==> result == Ok::<Option<Vec<u8>>, GatewayEdgeError>(None),
        spec_routes_result(desired.routes@) matches Err(e) ==> result == Err::<Option<Vec<u8>>, GatewayEdgeError>(e),
        spec_routes_result(desired.routes@) is Ok ==> {
            if spec_has_duplicate_prefix(desired.routes@) {
                result == Err::<Option<Vec<u8>>, GatewayEdgeError>(GatewayEdgeError::InvalidRoute("duplicate active gateway path"))
            } else if observed == Some(desired.revision) {
                result == Ok::<Option<Vec<u8>>, GatewayEdgeError>(None)
            } else if template is None || dispatcher_upstream@.len() == 0 {
                result == Err::<Option<Vec<u8>>, GatewayEdgeError>(GatewayEdgeError::Unavailable)
            } else {
                exists|order: Seq<Seq<char>>| {
                    &&& order.to_multiset() == spec_prefixes(desired.routes@).to_multiset()
                    &&& spec_sorted(order)
                    &&& spec_load_view(result) == match spec_render_result(
                        template.unwrap().spec_base(),
                        template.unwrap().spec_server(),
                        template.unwrap().spec_slot(),
                        order,
                        dispatcher_upstream@,
                    ) {
                        Ok(bytes) => Ok::<Option<Seq<u8>>, GatewayEdgeError>(Some(bytes)),
                        Err(e) => Err(e),
                    }
                }
            }
        },
{
    let step = plan_reconcile(desired, observed, template.is_some(), dispatcher_upstream);
    match step {
        Err(e) => Err(e),
        Ok(GatewayReconcileStep::AlreadyApplied) => Ok(None),
        Ok(GatewayReconcileStep::Load(prefixes)) => {
            let t = template.unwrap();
            let rendered = t.render(&prefixes, dispatcher_upstream);
            proof {
                assert(spec_views(prefixes@).to_multiset() == spec_prefixes(desired.routes@).to_multiset());
            }
            match rendered {
                Ok(bytes) => Ok(Some(bytes)),
                Err(e) => Err(e),
            }
        },
    }
}

/// Reconciling the same desired configuration twice loads it once: after a
/// reconciliation that loads and whose load succeeds, the applied revision
/// is the desired one, and reconciling it again loads nothing and answers
/// with that revision.
pub proof fn lemma_reconcile_twice_loads_once(
    desired: GatewayDesiredConfiguration,
    observed: Option<GatewayConfigRevision>,
)
    requires
        spec_reconcile_loads(desired, observed),
    ensures
        spec_observed_after_load(observed, desired.revision, Ok(())) == (
            Some(desired.revision),
            Ok::<GatewayConfigRevision, GatewayEdgeError>(desired.revision),
        ),
        spec_reconcile_skips(desired, spec_observed_after_load(observed, desired.revision, Ok(())).0),
        !spec_reconcile_loads(desired, spec_observed_after_load(observed, desired.revision, Ok(())).0),
{
}

} // verus!
