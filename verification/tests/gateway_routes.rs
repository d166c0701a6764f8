use gateway_edge::caddy::{
    gateway_subroute_index, plan_reconcile, sorted_route_prefixes, validate_template, CaddyRouteSummary,
    GatewayReconcileStep,
};
use gateway_edge::inbound_secret::{rewrite_inbound_secrets, InboundGatewaySecretRule};
use gateway_edge::routes::{
    admit_request, complete_invocation, ensure_unique_routes, is_hop_by_hop, is_untrusted_forwarding,
    request_targets_route, validate_gateway_prefix, validate_request, validate_response, GatewayConfigRevision,
    GatewayDesiredConfiguration, GatewayEdgeError, GatewayExposure, GatewayHandlerResult, GatewayHeader,
    GatewayInvocationOutcome, GatewayLimits, GatewayRequest, GatewayResponse, GatewayRouteBinding, GatewayScheme,
    TrustedRequestMetadata,
};

fn limits() -> GatewayLimits {
    GatewayLimits {
        max_request_body_bytes: 16,
        max_response_body_bytes: 16,
        max_request_headers: 4,
        max_response_headers: 4,
        max_path_and_query_bytes: 64,
        execution_timeout_nanos: 1_000_000_000,
    }
}

fn route(prefix: &str) -> GatewayRouteBinding {
    GatewayRouteBinding {
        route_id: 1,
        gateway_revision_id: 2,
        exposure: GatewayExposure::Public,
        path_prefix: prefix.to_owned(),
        methods: vec!["GET".to_owned(), "POST".to_owned()],
        limits: limits(),
    }
}

fn header(name: &str, value: &str) -> GatewayHeader {
    GatewayHeader { name: name.to_owned(), value: value.as_bytes().to_vec() }
}

fn request(method: &str, path: &str) -> GatewayRequest {
    GatewayRequest {
        method: method.to_owned(),
        path_and_query: path.to_owned(),
        headers: vec![header("accept", "*/*")],
        body: Vec::new(),
        trusted: TrustedRequestMetadata {
            scheme: GatewayScheme::Https,
            authority: "edge.example".to_owned(),
            client_address: "203.0.113.9".to_owned(),
            request_id: 3,
        },
    }
}

#[test]
fn prefixes_must_be_normalized_relative_paths() {
    assert_eq!(validate_gateway_prefix("orders/v1"), Ok(()));
    for bad in ["", "/orders", "orders/", "orders//v1", "orders/../x", "./orders", "ord ers", "orders?x"] {
        assert_eq!(
            validate_gateway_prefix(bad),
            Err(GatewayEdgeError::InvalidRoute("path prefix must be normalized relative path")),
            "{bad}"
        );
    }
}

#[test]
fn route_validation_reports_methods_and_limits() {
    let mut no_methods = route("orders");
    no_methods.methods.clear();
    assert_eq!(no_methods.validate(), Err(GatewayEdgeError::InvalidRoute("methods cannot be empty")));
    let mut zero = route("orders");
    zero.limits.execution_timeout_nanos = 0;
    assert_eq!(zero.validate(), Err(GatewayEdgeError::InvalidRoute("gateway limits must be nonzero")));
    assert_eq!(route("orders").public_path(), "/gateway/orders");
}

#[test]
fn duplicate_prefixes_are_refused() {
    assert_eq!(ensure_unique_routes(&vec![route("a"), route("b")]), Ok(()));
    assert_eq!(
        ensure_unique_routes(&vec![route("a"), route("b"), route("a")]),
        Err(GatewayEdgeError::InvalidRoute("duplicate active gateway path"))
    );
}

#[test]
fn a_prefix_collision_is_not_the_route() {
    let orders = route("orders");
    assert!(request_targets_route(&orders, "/gateway/orders"));
    assert!(request_targets_route(&orders, "/gateway/orders/7?x=1"));
    assert!(!request_targets_route(&orders, "/gateway/orders-admin"));
    assert!(!request_targets_route(&orders, "/gateway/ordersx/1"));
}

#[test]
fn forwarding_and_hop_by_hop_headers_are_refused_before_launch() {
    assert!(is_hop_by_hop("transfer-encoding"));
    assert!(!is_hop_by_hop("content-type"));
    assert!(is_untrusted_forwarding("X-Forwarded-For"));
    assert!(is_untrusted_forwarding("forwarded"));
    assert!(!is_untrusted_forwarding("x-forwarded-port"));
    let orders = route("orders");
    let mut forwarded = request("GET", "/gateway/orders");
    forwarded.headers.push(header("x-forwarded-host", "evil"));
    assert_eq!(validate_request(&orders, &forwarded), Err(GatewayEdgeError::Contract("forbidden request header")));
    assert_eq!(admit_request(Ok(Some(orders.clone())), &forwarded), Err(400));
    assert_eq!(admit_request(Ok(None), &forwarded), Err(404));
    assert_eq!(admit_request(Err(GatewayEdgeError::Unavailable), &forwarded), Err(503));
    assert_eq!(admit_request(Ok(Some(orders.clone())), &request("GET", "/gateway/orders")), Ok(orders));
}

#[test]
fn request_checks_fail_in_order() {
    let orders = route("orders");
    assert_eq!(validate_request(&orders, &request("GET", "gateway/orders")), Err(GatewayEdgeError::Contract("ambiguous request path")));
    assert_eq!(validate_request(&orders, &request("GET", "/gateway//orders")), Err(GatewayEdgeError::Contract("ambiguous request path")));
    assert_eq!(validate_request(&orders, &request("GET", "/gateway/orders/../x")), Err(GatewayEdgeError::Contract("ambiguous request path")));
    assert_eq!(validate_request(&orders, &request("GET", "/gateway/other")), Err(GatewayEdgeError::Contract("route mismatch")));
    assert_eq!(validate_request(&orders, &request("DELETE", "/gateway/orders")), Err(GatewayEdgeError::Contract("method is not allowed")));
    let mut big = request("POST", "/gateway/orders");
    big.body = vec![0; 17];
    assert_eq!(validate_request(&orders, &big), Err(GatewayEdgeError::Contract("request exceeds route limits")));
}

#[test]
fn handler_results_map_to_bounded_public_responses() {
    let orders = route("orders");
    let good = GatewayResponse { status: 201, headers: vec![header("content-type", "text/plain")], body: b"ok".to_vec() };
    let (response, outcome) = complete_invocation(&orders, GatewayHandlerResult::Responded(good.clone()));
    assert_eq!((response, outcome), (good, GatewayInvocationOutcome::Completed));
    let unbounded = GatewayResponse { status: 200, headers: Vec::new(), body: vec![0; 17] };
    assert_eq!(validate_response(&orders, &unbounded), Err(GatewayEdgeError::Contract("response violates route limits")));
    let (response, outcome) = complete_invocation(&orders, GatewayHandlerResult::Responded(unbounded));
    assert_eq!((response.status, response.body.len(), outcome), (502, 0, GatewayInvocationOutcome::Failed));
    let (response, outcome) = complete_invocation(&orders, GatewayHandlerResult::TimedOut);
    assert_eq!((response.status, outcome), (504, GatewayInvocationOutcome::TimedOut));
    let (response, outcome) = complete_invocation(&orders, GatewayHandlerResult::Failed);
    assert_eq!((response.status, outcome), (502, GatewayInvocationOutcome::Failed));
}

#[test]
fn inbound_secret_is_checked_and_replaced_by_its_placeholder() {
    let rule = InboundGatewaySecretRule::new("authorization".to_owned(), b"real-secret".to_vec(), b"placeholder".to_vec())
        .ok()
        .expect("rule");
    let mut accepted = request("GET", "/gateway/orders");
    accepted.headers.push(header("authorization", "real-secret"));
    let rewritten = rewrite_inbound_secrets(&vec![rule], accepted.clone()).expect("accepted");
    assert_eq!(rewritten.headers, vec![header("accept", "*/*"), header("authorization", "placeholder")]);
    assert_eq!(rewritten.path_and_query, accepted.path_and_query);

    let rule = InboundGatewaySecretRule::new("authorization".to_owned(), b"real-secret".to_vec(), b"placeholder".to_vec())
        .ok()
        .expect("rule");
    let mut wrong = request("GET", "/gateway/orders");
    wrong.headers.push(header("authorization", "real-secreT"));
    assert_eq!(rewrite_inbound_secrets(&vec![rule], wrong), Err(GatewayEdgeError::SecretRejected));

    let rule = InboundGatewaySecretRule::new("authorization".to_owned(), b"real-secret".to_vec(), b"placeholder".to_vec())
        .ok()
        .expect("rule");
    let mut repeated = request("GET", "/gateway/orders");
    repeated.headers.push(header("authorization", "real-secret"));
    repeated.headers.push(header("authorization", "real-secret"));
    assert_eq!(rewrite_inbound_secrets(&vec![rule], repeated), Err(GatewayEdgeError::SecretRejected));

    let rule = InboundGatewaySecretRule::new("authorization".to_owned(), b"real-secret".to_vec(), b"placeholder".to_vec())
        .ok()
        .expect("rule");
    assert_eq!(
        rewrite_inbound_secrets(&vec![rule], request("GET", "/gateway/orders")),
        Err(GatewayEdgeError::SecretRejected)
    );
    assert!(matches!(
        InboundGatewaySecretRule::new("authorization".to_owned(), Vec::new(), b"p".to_vec()),
        Err(GatewayEdgeError::Contract("invalid inbound secret rule"))
    ));
}

#[test]
fn caddy_template_needs_exactly_one_subroute_slot() {
    let slot = CaddyRouteSummary { group: Some("hephaestus.gateway".to_owned()), first_handler: Some("subroute".to_owned()) };
    let platform = CaddyRouteSummary { group: None, first_handler: Some("reverse_proxy".to_owned()) };
    assert_eq!(gateway_subroute_index(&vec![platform.clone(), slot.clone()]), Ok(1));
    assert_eq!(
        gateway_subroute_index(&vec![slot.clone(), slot.clone()]),
        Err(GatewayEdgeError::InvalidCaddyConfiguration)
    );
    assert_eq!(gateway_subroute_index(&vec![platform.clone()]), Err(GatewayEdgeError::InvalidCaddyConfiguration));
    let wrong_handler = CaddyRouteSummary { group: Some("hephaestus.gateway".to_owned()), first_handler: Some("file_server".to_owned()) };
    assert_eq!(gateway_subroute_index(&vec![wrong_handler]), Err(GatewayEdgeError::InvalidCaddyConfiguration));
    assert_eq!(validate_template("", Some(vec![slot.clone()])), Err(GatewayEdgeError::InvalidCaddyConfiguration));
    assert_eq!(validate_template("srv0", None), Err(GatewayEdgeError::InvalidCaddyConfiguration));
    assert_eq!(validate_template("srv0", Some(vec![slot])), Ok(0));
}

#[test]
fn reconciliation_orders_routes_deterministically() {
    let forward = sorted_route_prefixes(&vec![route("b"), route("a/x"), route("a")]);
    let backward = sorted_route_prefixes(&vec![route("a"), route("a/x"), route("b")]);
    assert_eq!(forward, vec!["a".to_owned(), "a/x".to_owned(), "b".to_owned()]);
    assert_eq!(forward, backward);

    let revision = GatewayConfigRevision::from_uuid(77);
    let desired = GatewayDesiredConfiguration { revision, routes: vec![route("b"), route("a")] };
    assert_eq!(
        plan_reconcile(&desired, None, true, "127.0.0.1:9000"),
        Ok(GatewayReconcileStep::Load(vec!["a".to_owned(), "b".to_owned()]))
    );
    assert_eq!(plan_reconcile(&desired, Some(revision), true, "127.0.0.1:9000"), Ok(GatewayReconcileStep::AlreadyApplied));
    assert_eq!(plan_reconcile(&desired, None, false, "127.0.0.1:9000"), Err(GatewayEdgeError::Unavailable));
    let duplicate = GatewayDesiredConfiguration { revision, routes: vec![route("a"), route("a")] };
    assert_eq!(
        plan_reconcile(&duplicate, None, true, "x"),
        Err(GatewayEdgeError::InvalidRoute("duplicate active gateway path"))
    );
    let invalid = GatewayDesiredConfiguration { revision, routes: vec![route("a"), route("/b")] };
    assert_eq!(
        plan_reconcile(&invalid, None, true, "x"),
        Err(GatewayEdgeError::InvalidRoute("path prefix must be normalized relative path"))
    );
}

#[test]
fn fresh_revisions_are_version_four_uuids() {
    let a = GatewayConfigRevision::new().value();
    let b = GatewayConfigRevision::new().value();
    for value in [a, b] {
        assert_ne!(value, 0);
        assert_eq!((value >> 76) & 0xf, 4);
        assert_eq!((value >> 62) & 0x3, 2);
    }
    assert_ne!(a, b);
}
