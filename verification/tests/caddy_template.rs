use gateway_edge::caddy_template::{decimal, reconcile_configuration, LocalCaddyConfigurationTemplate};
use gateway_edge::routes::{
    GatewayConfigRevision, GatewayDesiredConfiguration, GatewayEdgeError, GatewayExposure, GatewayLimits,
    GatewayRouteBinding,
};

const SHARED: &str = r#"{"apps":{"http":{"servers":{"shared":{
    "listen":["127.0.0.1:443"],
    "routes":[
        {"match":[{"path":["/platform/*"]}],"handle":[{"handler":"static_response","body":"platform"}]},
        {"group":"hephaestus.gateway","handle":[{"handler":"subroute","routes":[]}]},
        {"handle":[{"handler":"static_response","status_code":404}]}
    ]}}}}}"#;

fn caddy_template() -> LocalCaddyConfigurationTemplate {
    LocalCaddyConfigurationTemplate::new(SHARED.as_bytes(), String::from("shared")).expect("valid shared Caddy template")
}

fn route(prefix: &str) -> GatewayRouteBinding {
    GatewayRouteBinding {
        route_id: 1,
        gateway_revision_id: 2,
        exposure: GatewayExposure::Public,
        path_prefix: prefix.to_owned(),
        methods: vec!["POST".to_owned()],
        limits: GatewayLimits {
            max_request_body_bytes: 8,
            max_response_body_bytes: 8,
            max_request_headers: 4,
            max_response_headers: 4,
            max_path_and_query_bytes: 64,
            execution_timeout_nanos: 50_000_000,
        },
    }
}

fn slot_routes(rendered: &[u8]) -> Vec<serde_json::Value> {
    let value: serde_json::Value = serde_json::from_slice(rendered).expect("rendered JSON");
    value
        .pointer("/apps/http/servers/shared/routes/1/handle/0/routes")
        .and_then(serde_json::Value::as_array)
        .expect("filled slot")
        .clone()
}

#[test]
fn shared_caddy_template_requires_one_dedicated_gateway_subroute() {
    let missing = r#"{"apps":{"http":{"servers":{"shared":{"routes":[]}}}}}"#;
    assert!(matches!(
        LocalCaddyConfigurationTemplate::new(missing.as_bytes(), String::from("shared")),
        Err(GatewayEdgeError::InvalidCaddyConfiguration)
    ));
}

#[test]
fn template_rejects_every_malformed_baseline() {
    let two = r#"{"apps":{"http":{"servers":{"s":{"routes":[
        {"group":"hephaestus.gateway","handle":[{"handler":"subroute"}]},
        {"group":"hephaestus.gateway","handle":[{"handler":"subroute"}]}]}}}}}"#;
    let not_subroute = r#"{"apps":{"http":{"servers":{"s":{"routes":[
        {"group":"hephaestus.gateway","handle":[{"handler":"reverse_proxy"},{"handler":"subroute"}]}]}}}}}"#;
    let one = r#"{"apps":{"http":{"servers":{"s":{"routes":[
        {"group":"hephaestus.gateway","handle":[{"handler":"subroute"}]}]}}}}}"#;
    for (bytes, server) in [
        (two, "s"),
        (not_subroute, "s"),
        (one, "other"),
        (one, ""),
        ("{not json", "s"),
        (r#"{"apps":{"http":{"servers":{"s":{"routes":{}}}}}}"#, "s"),
    ] {
        assert!(
            matches!(
                LocalCaddyConfigurationTemplate::new(bytes.as_bytes(), server.to_owned()),
                Err(GatewayEdgeError::InvalidCaddyConfiguration)
            ),
            "{bytes} {server}"
        );
    }
    assert!(LocalCaddyConfigurationTemplate::new(one.as_bytes(), "s".to_owned()).is_ok());
}

#[test]
fn render_fills_only_the_reserved_slot() {
    let template = caddy_template();
    let rendered = template
        .render(&vec!["echo".to_owned(), "orders/v1".to_owned()], "127.0.0.1:19090")
        .expect("rendered configuration");
    let value: serde_json::Value = serde_json::from_slice(&rendered).expect("JSON");
    let routes = value.pointer("/apps/http/servers/shared/routes").and_then(serde_json::Value::as_array).expect("routes");
    assert_eq!(routes.len(), 3);
    assert_eq!(routes[0].pointer("/match/0/path/0").and_then(serde_json::Value::as_str), Some("/platform/*"));
    assert_eq!(routes[2].pointer("/handle/0/status_code").and_then(serde_json::Value::as_u64), Some(404));
    let slot = slot_routes(&rendered);
    assert_eq!(slot.len(), 2);
    assert_eq!(slot[0].pointer("/match/0/path/0").and_then(serde_json::Value::as_str), Some("/gateway/echo"));
    assert_eq!(slot[0].pointer("/match/0/path/1").and_then(serde_json::Value::as_str), Some("/gateway/echo/*"));
    assert_eq!(slot[0].pointer("/handle/0/handler").and_then(serde_json::Value::as_str), Some("reverse_proxy"));
    assert_eq!(slot[0].pointer("/handle/0/upstreams/0/dial").and_then(serde_json::Value::as_str), Some("127.0.0.1:19090"));
    assert_eq!(slot[0].pointer("/terminal").and_then(serde_json::Value::as_bool), Some(true));
    assert_eq!(slot[1].pointer("/match/0/path/0").and_then(serde_json::Value::as_str), Some("/gateway/orders/v1"));
}

#[test]
fn render_quotes_the_upstream_and_needs_one() {
    let template = caddy_template();
    let odd = "host\"with\\quote\n";
    let rendered = template.render(&vec!["echo".to_owned()], odd).expect("rendered configuration");
    let slot = slot_routes(&rendered);
    assert_eq!(slot[0].pointer("/handle/0/upstreams/0/dial").and_then(serde_json::Value::as_str), Some(odd));
    assert_eq!(template.render(&vec!["echo".to_owned()], ""), Err(GatewayEdgeError::Unavailable));
    let empty = template.render(&Vec::new(), "127.0.0.1:1").expect("empty route set");
    assert!(slot_routes(&empty).is_empty());
}

#[test]
fn a_clone_renders_the_same_configuration() {
    let template = caddy_template();
    let copy = template.clone();
    let prefixes = vec!["echo".to_owned()];
    assert_eq!(template.render(&prefixes, "127.0.0.1:1"), copy.render(&prefixes, "127.0.0.1:1"));
}

#[test]
fn reconciliation_loads_once_in_prefix_order() {
    let template = caddy_template();
    let revision = GatewayConfigRevision::from_uuid(9);
    let forward = GatewayDesiredConfiguration { revision, routes: vec![route("b"), route("a")] };
    let backward = GatewayDesiredConfiguration { revision, routes: vec![route("a"), route("b")] };
    let first = reconcile_configuration(&forward, None, Some(&template), "127.0.0.1:19090").expect("load");
    let second = reconcile_configuration(&backward, None, Some(&template), "127.0.0.1:19090").expect("load");
    assert_eq!(first, second);
    let bytes = first.expect("configuration to load");
    assert!(String::from_utf8_lossy(&bytes).contains("127.0.0.1:19090"));
    let slot = slot_routes(&bytes);
    assert_eq!(slot[0].pointer("/match/0/path/0").and_then(serde_json::Value::as_str), Some("/gateway/a"));
    assert_eq!(slot[1].pointer("/match/0/path/0").and_then(serde_json::Value::as_str), Some("/gateway/b"));
    assert_eq!(reconcile_configuration(&forward, Some(revision), Some(&template), "127.0.0.1:19090"), Ok(None));
    assert_eq!(reconcile_configuration(&forward, None, None, "127.0.0.1:19090"), Err(GatewayEdgeError::Unavailable));
    let duplicate = GatewayDesiredConfiguration { revision, routes: vec![route("a"), route("a")] };
    assert_eq!(
        reconcile_configuration(&duplicate, None, Some(&template), "127.0.0.1:19090"),
        Err(GatewayEdgeError::InvalidRoute("duplicate active gateway path"))
    );
}

#[test]
fn decimal_numerals_have_no_leading_zeros() {
    assert_eq!(decimal(0), "0");
    assert_eq!(decimal(7), "7");
    assert_eq!(decimal(10), "10");
    assert_eq!(decimal(1234), "1234");
    assert_eq!(decimal(usize::MAX), usize::MAX.to_string());
}
