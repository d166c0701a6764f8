use gateway_edge::routes::{
    GatewayExposure, GatewayHeader, GatewayLimits, GatewayResponse, GatewayRouteBinding, GatewayScheme,
    TrustedRequestMetadata,
};
use gateway_edge::ui_gateway_admission::{
    admission_failure_response, prepare_gateway_request, reject_ui_set_cookie, strip_ui_guest_headers,
    validate_canonical_path, validate_ui_response, UiGatewayAdmission, UiGatewayAdmissionError, UiGatewayAuthority,
    UiGatewayRequest, UiGatewayRequestKind,
};
use gateway_edge::routes::GatewayEdgeError;

fn fresh() -> u128 {
    uuid::Uuid::new_v4().as_u128()
}

fn authority(method: &str, path: &str) -> UiGatewayAuthority {
    UiGatewayAuthority {
        child_session_id: fresh(),
        actor_id: fresh(),
        organization_id: fresh(),
        installation_id: fresh(),
        generation_id: fresh(),
        canonical_request_path: path.to_owned(),
        request_kind: UiGatewayRequestKind::Managed,
        method: method.to_owned(),
    }
}

fn route(exposure: GatewayExposure) -> GatewayRouteBinding {
    GatewayRouteBinding {
        route_id: fresh(),
        gateway_revision_id: fresh(),
        exposure,
        path_prefix: "ui/release".to_owned(),
        methods: vec!["GET".to_owned()],
        limits: GatewayLimits {
            max_request_body_bytes: 1024,
            max_response_body_bytes: 1024,
            max_request_headers: 32,
            max_response_headers: 32,
            max_path_and_query_bytes: 1024,
            execution_timeout_nanos: 1_000_000_000,
        },
    }
}

fn header(name: &str, value: &str) -> GatewayHeader {
    GatewayHeader { name: name.to_owned(), value: value.as_bytes().to_vec() }
}

#[test]
fn managed_and_api_paths_have_distinct_canonical_grammars() {
    let managed = authority("GET", "ui/release/index.html");
    assert!(managed.validate_for("GET", "ui/release/index.html?next=%2F//opaque").is_ok());
    assert!(managed.validate_for("GET", "/ui/release/index.html").is_err());
    assert!(managed.validate_for("GET", "ui/release/../secret").is_err());

    let api = UiGatewayAuthority {
        request_kind: UiGatewayRequestKind::Api,
        canonical_request_path: "/api/v1/items".to_owned(),
        ..managed
    };
    assert!(api.validate_for("GET", "/api/v1/items?next=%2F//opaque").is_ok());
    assert!(api.validate_for("GET", "api/v1/items").is_err());
    assert!(api.validate_for("GET", "/api/v1/%2e%2e/secret").is_err());
}

#[test]
fn admission_preserves_opaque_query_and_rejects_route_mismatch() {
    let authority = authority("GET", "ui/release/index.html");
    let admission = UiGatewayAdmission {
        route: route(GatewayExposure::HephAuthenticated),
        gateway_path_and_query: "/gateway/ui/release/index.html?next=%2F//opaque".to_owned(),
    };
    assert!(admission
        .validate_for(&authority, "GET", "ui/release/index.html?next=%2F//opaque")
        .is_ok());
    let mismatch = UiGatewayAdmission {
        gateway_path_and_query: "/gateway/another-release/index.html".to_owned(),
        ..admission
    };
    assert!(mismatch.validate_for(&authority, "GET", "ui/release/index.html").is_err());
}

#[test]
fn public_routes_and_invalid_authority_are_rejected() {
    let authority = authority("GET", "ui/release/index.html");
    let public = UiGatewayAdmission {
        route: route(GatewayExposure::Public),
        gateway_path_and_query: "/gateway/ui/release/index.html".to_owned(),
    };
    assert!(public.validate_for(&authority, "GET", "ui/release/index.html").is_err());
    let mut nil = authority.clone();
    nil.child_session_id = 0;
    assert!(nil.validate_for("GET", "ui/release/index.html").is_err());
}

#[test]
fn guest_headers_and_set_cookie_are_rejected() {
    let mut headers = Vec::new();
    for name in [
        "authorization",
        "cookie",
        "host",
        "proxy-authorization",
        "x-api-key",
        "x-auth-token",
        "x-access-token",
        "forwarded",
        "x-forwarded-for",
        "x-forwarded-port",
        "x-forwarded-prefix",
        "x-forwarded-server",
    ] {
        headers.push(header(name, "secret"));
    }
    strip_ui_guest_headers(&mut headers);
    assert!(headers.is_empty());

    let mut response = GatewayResponse { status: 200, headers: Vec::new(), body: Vec::new() };
    response.headers.push(header("set-cookie", "sid=secret"));
    assert!(reject_ui_set_cookie(&response).is_err());
}

#[test]
fn admission_errors_have_safe_statuses() {
    assert_eq!(admission_failure_response(UiGatewayAdmissionError::Denied).status, 401);
    assert_eq!(admission_failure_response(UiGatewayAdmissionError::NotFound).status, 404);
    assert_eq!(admission_failure_response(UiGatewayAdmissionError::Unavailable).status, 503);
}

#[test]
fn each_authority_failure_has_its_own_message() {
    let managed = authority("GET", "ui/release/index.html");
    let mut nil = managed.clone();
    nil.generation_id = 0;
    assert_eq!(
        nil.validate_for("GET", "ui/release/index.html"),
        Err(GatewayEdgeError::Contract("UI authority has a nil identity"))
    );
    assert_eq!(
        managed.validate_for("POST", "ui/release/index.html"),
        Err(GatewayEdgeError::Contract("UI authority does not match request"))
    );
    let spaced = authority("GET", "ui/release/a b");
    assert_eq!(
        spaced.validate_for("GET", "ui/release/a b"),
        Err(GatewayEdgeError::Contract("ambiguous UI request path"))
    );
    assert_eq!(
        validate_canonical_path(UiGatewayRequestKind::Managed, "ui//release"),
        Err(GatewayEdgeError::Contract("ambiguous UI request path"))
    );
    assert_eq!(
        validate_canonical_path(UiGatewayRequestKind::Managed, "ui/./release"),
        Err(GatewayEdgeError::Contract("managed UI path is not platform-relative"))
    );
    assert_eq!(
        validate_canonical_path(UiGatewayRequestKind::Api, "/"),
        Err(GatewayEdgeError::Contract("API UI path is not a canonical gateway route"))
    );
    assert_eq!(validate_canonical_path(UiGatewayRequestKind::Api, "/api/v1"), Ok(()));
}

#[test]
fn stripping_keeps_application_headers_in_order() {
    let mut headers = vec![
        header("accept", "a"),
        header("cookie", "secret"),
        header("x-request-trace", "t"),
        header("x-forwarded-anything", "h"),
        header("content-type", "c"),
    ];
    strip_ui_guest_headers(&mut headers);
    let names: Vec<&str> = headers.iter().map(|h| h.name.as_str()).collect();
    assert_eq!(names, vec!["accept", "x-request-trace", "content-type"]);
    let before = headers.clone();
    strip_ui_guest_headers(&mut headers);
    assert_eq!(headers, before);
}

#[test]
fn prepared_request_uses_the_admitted_gateway_path_and_strips_credentials() {
    let authority = authority("GET", "ui/release/index.html");
    let admission = UiGatewayAdmission {
        route: route(GatewayExposure::HephAuthenticated),
        gateway_path_and_query: "/gateway/ui/release/index.html?x=1".to_owned(),
    };
    let request = UiGatewayRequest {
        authority,
        method: "GET".to_owned(),
        request_path_and_query: "ui/release/index.html?x=1".to_owned(),
        headers: vec![header("cookie", "sid"), header("accept", "text/html")],
        body: b"payload".to_vec(),
        trusted: TrustedRequestMetadata {
            scheme: GatewayScheme::Https,
            authority: "ui.example".to_owned(),
            client_address: "127.0.0.1".to_owned(),
            request_id: 7,
        },
    };
    let prepared = prepare_gateway_request(&request, &admission).expect("admitted");
    assert_eq!(prepared.path_and_query, "/gateway/ui/release/index.html?x=1");
    assert_eq!(prepared.headers, vec![header("accept", "text/html")]);
    assert_eq!(prepared.body, b"payload".to_vec());
    assert_eq!(prepared.trusted.request_id, 7);

    let mut refused = request.clone();
    refused.method = "POST".to_owned();
    assert!(prepare_gateway_request(&refused, &admission).is_err());
}

#[test]
fn ui_response_without_cookie_is_accepted() {
    let response = GatewayResponse { status: 200, headers: vec![header("content-type", "text/html")], body: Vec::new() };
    assert_eq!(validate_ui_response(&response), Ok(()));
}
