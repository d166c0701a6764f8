use gateway_edge::ident::GatewayServiceOwner;
use gateway_edge::routes::GatewayEdgeError;
use gateway_edge::service_handler::{
    one_shot_result, route_deadline, service_exchange_timeout, GatewayRuntimeService, GatewayServiceHandler,
    PrivateHttpVmGatewayHandler,
};

#[test]
fn constructor_rejects_invalid_owner() {
    let invalid = GatewayServiceOwner { host_id: String::new(), owner_uuid: uuid::Uuid::new_v4().as_u128() };
    let result = GatewayServiceHandler::new((), (), (), invalid);
    assert!(matches!(result, Err(GatewayEdgeError::InvalidRoute("invalid service owner"))));
    drop(result);
}

#[test]
fn constructor_keeps_a_valid_owner() {
    let owner = GatewayServiceOwner::new("host".to_owned(), 9).expect("owner");
    let handler = GatewayServiceHandler::new(1u8, 2u8, 3u8, owner.clone()).ok().expect("handler");
    assert_eq!(handler.owner, owner);
    assert_eq!(handler.resolver, 1);
}

#[test]
fn service_exchange_shares_the_route_deadline() {
    assert_eq!(route_deadline(100, 50), Ok(150));
    assert_eq!(route_deadline(u128::MAX, 1), Err(GatewayEdgeError::HandlerUnavailable));
    assert_eq!(service_exchange_timeout(100, 30, 150), Ok(30));
    assert_eq!(service_exchange_timeout(100, 80, 150), Ok(50));
    assert_eq!(service_exchange_timeout(100, 0, 150), Err(GatewayEdgeError::HandlerUnavailable));
    assert_eq!(service_exchange_timeout(200, 10, 150), Err(GatewayEdgeError::HandlerUnavailable));
}

#[test]
fn runtime_bridges_keep_their_ports() {
    let service = GatewayRuntimeService::new("releases", "launcher");
    assert_eq!(service.releases, "releases");
    assert_eq!(service.launcher, "launcher");
    let handler = PrivateHttpVmGatewayHandler::new(5u32);
    assert_eq!(handler.launcher, 5);
}

#[test]
fn undestroyed_one_shot_vm_turns_success_into_unavailable() {
    assert_eq!(one_shot_result::<u8>(Ok(1), false), Err(GatewayEdgeError::HandlerUnavailable));
    assert_eq!(one_shot_result::<u8>(Ok(1), true), Ok(1));
    assert_eq!(one_shot_result::<u8>(Err(GatewayEdgeError::Unavailable), false), Err(GatewayEdgeError::Unavailable));
}
