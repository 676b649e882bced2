use interoperability_tests_sv2::app_type::AppType;
use interoperability_tests_sv2::endpoint::{
    ConnectAttempt, Endpoint, IpAddress, PreflightStep, SocketAddress, CONNECT_BUDGET_MILLIS,
    RETRY_INTERVAL_MILLIS,
};

fn dead_endpoint() -> Endpoint {
    Endpoint {
        addr: SocketAddress { ip: IpAddress::V4([127, 0, 0, 1]), port: 9 },
        app_type: AppType::SoloPool,
        user_identity: "interoperability_tests_sv2".to_string(),
    }
}

#[test]
fn preflight_passes_once_connected() {
    assert!(matches!(dead_endpoint().preflight(ConnectAttempt::Connected), PreflightStep::Reachable));
}

#[test]
fn preflight_retries_within_budget_then_fails_fast() {
    let e = dead_endpoint();
    let step = e.preflight(ConnectAttempt::Refused { error: "Connection refused".to_string(), budget_spent: false });
    assert!(matches!(step, PreflightStep::RetryAfterMillis(200)));
    let step = e.preflight(ConnectAttempt::Refused { error: "Connection refused".to_string(), budget_spent: true });
    match step {
        PreflightStep::Down(err) => assert_eq!(err.to_string(), "endpoint unreachable: Connection refused"),
        other => panic!("expected Down, got {other:?}"),
    }
    assert_eq!(CONNECT_BUDGET_MILLIS, 3000);
    assert_eq!(RETRY_INTERVAL_MILLIS, 200);
}

#[test]
fn endpoint_clone_keeps_every_field() {
    let e = dead_endpoint();
    let c = e.clone();
    assert_eq!(c.user_identity, e.user_identity);
    assert_eq!(c.app_type, e.app_type);
    assert_eq!(c.addr.port, 9);
}
