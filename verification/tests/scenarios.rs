use interoperability_tests_sv2::app_type::AppType;
use interoperability_tests_sv2::client::{
    timeout_error, Awaited, ClientMessage, ClientSetup, MessageBody, ServerMessage,
};
use interoperability_tests_sv2::endpoint::{Endpoint, IpAddress, SocketAddress};
use interoperability_tests_sv2::scenarios::{Action, Event, Scenario, ScenarioError, ScenarioResult};
use stratum_apps::stratum_core::common_messages_sv2::Protocol;

fn endpoint(app_type: AppType, user_identity: &str) -> Endpoint {
    Endpoint {
        addr: SocketAddress { ip: IpAddress::V4([127, 0, 0, 1]), port: 34254 },
        app_type,
        user_identity: user_identity.to_string(),
    }
}

fn pool() -> Endpoint {
    endpoint(AppType::SoloPool, "interoperability_tests_sv2")
}

fn msg(msg_type: u8, body: MessageBody, display: &str) -> ServerMessage {
    ServerMessage { msg_type, body, display: display.to_string() }
}

fn success(used_version: u16) -> ServerMessage {
    msg(0x01, MessageBody::SetupConnectionSuccess { used_version, flags: 0 }, "SetupConnectionSuccess")
}

fn setup_error(code: &[u8]) -> ServerMessage {
    msg(0x02, MessageBody::SetupConnectionError { flags: 0, error_code: code.to_vec() }, "SetupConnectionError")
}

fn standard_success(request_id: u32) -> ServerMessage {
    msg(
        0x11,
        MessageBody::OpenStandardMiningChannelSuccess { request_id, channel_id: 7, group_channel_id: 3 },
        "OpenStandardMiningChannelSuccess",
    )
}

fn extended_success(request_id: u32, extranonce_size: u16) -> ServerMessage {
    msg(
        0x14,
        MessageBody::OpenExtendedMiningChannelSuccess { request_id, channel_id: 9, group_channel_id: 1, extranonce_size },
        "OpenExtendedMiningChannelSuccess",
    )
}

fn channel_error(code: &[u8]) -> ServerMessage {
    msg(
        0x12,
        MessageBody::OpenMiningChannelError { request_id: 1, error_code: code.to_vec() },
        "OpenMiningChannelError",
    )
}

fn other(msg_type: u8, display: &str) -> ServerMessage {
    msg(msg_type, MessageBody::Other, display)
}

/// An endpoint that answers each connection with a list of messages.
struct FakeServer {
    connections: Vec<Vec<ServerMessage>>,
    current: Option<Vec<ServerMessage>>,
    refuse: Option<String>,
}

impl FakeServer {
    fn new(connections: Vec<Vec<ServerMessage>>) -> Self {
        FakeServer { connections, current: None, refuse: None }
    }

    fn dead(reason: &str) -> Self {
        FakeServer { connections: vec![], current: None, refuse: Some(reason.to_string()) }
    }

    fn answer(&mut self, action: &Action) -> Event {
        match action {
            Action::Connect(_) => {
                if let Some(r) = &self.refuse {
                    return Event::Failed(ScenarioError(r.clone()));
                }
                self.current = Some(if self.connections.is_empty() { vec![] } else { self.connections.remove(0) });
                Event::Connected
            }
            Action::Send(_) => Event::Sent,
            Action::ExpectFromServer(t) => {
                let queue = self.current.as_mut().expect("connected");
                while !queue.is_empty() {
                    let m = queue.remove(0);
                    if m.msg_type == *t {
                        return Event::Received(m);
                    }
                }
                Event::Failed(timeout_error(Awaited::Type(*t)))
            }
            Action::ExpectEitherFromServer(t1, t2) => {
                let queue = self.current.as_mut().expect("connected");
                while !queue.is_empty() {
                    let m = queue.remove(0);
                    if m.msg_type == *t1 || m.msg_type == *t2 {
                        return Event::Received(m);
                    }
                }
                Event::Failed(timeout_error(Awaited::EitherType(*t1, *t2)))
            }
            Action::NextFromServer => {
                let queue = self.current.as_mut().expect("connected");
                if queue.is_empty() {
                    Event::Failed(timeout_error(Awaited::Any))
                } else {
                    Event::Received(queue.remove(0))
                }
            }
            Action::Finish(_) => panic!("finished scenarios take no events"),
        }
    }
}

/// Runs `scenario` against `server`, returning the actions it took and its
/// result.
fn run(scenario: Scenario, endpoint: &Endpoint, mut server: FakeServer) -> (Vec<Action>, ScenarioResult) {
    let mut stage = 0u8;
    let mut event = Event::Start;
    let mut actions = Vec::new();
    for _ in 0..32 {
        let (next, action) = scenario.step(endpoint, stage, event);
        stage = next;
        if let Action::Finish(result) = action {
            return (actions, result);
        }
        event = server.answer(&action);
        actions.push(action);
    }
    panic!("scenario did not finish");
}

fn detail(result: ScenarioResult) -> Option<String> {
    result.expect("scenario passes")
}

fn error(result: ScenarioResult) -> String {
    result.expect_err("scenario fails").to_string()
}

#[test]
fn framed_response_reports_used_version() {
    let (actions, result) = run(Scenario::FramedSetupConnectionResponse, &pool(), FakeServer::new(vec![vec![success(2)]]));
    assert_eq!(detail(result).as_deref(), Some("used_version=2"));
    match &actions[0] {
        Action::Connect(ClientSetup::Defaults { protocol, flags }) => {
            assert_eq!(*protocol, Protocol::MiningProtocol);
            assert_eq!(*flags, 0);
        }
        other => panic!("expected a default connect, got {other:?}"),
    }
    assert!(matches!(actions[1], Action::NextFromServer));
}

#[test]
fn framed_response_rejects_other_first_message() {
    let (_, result) =
        run(Scenario::FramedSetupConnectionResponse, &pool(), FakeServer::new(vec![vec![setup_error(b"x")]]));
    assert_eq!(error(result), "first message must be SetupConnectionSuccess, got type 0x02");
    let (_, result) =
        run(Scenario::FramedSetupConnectionResponse, &pool(), FakeServer::new(vec![vec![other(0x01, "Garbled")]]));
    assert_eq!(error(result), "expected SetupConnectionSuccess, got Garbled");
    let (_, result) = run(Scenario::FramedSetupConnectionResponse, &pool(), FakeServer::new(vec![vec![]]));
    assert_eq!(error(result), "timeout waiting for any message from endpoint");
}

#[test]
fn used_version_accepts_two_and_rejects_three() {
    let server = FakeServer::new(vec![vec![success(2)], vec![setup_error(b"unsupported-protocol-version")]]);
    let (actions, result) = run(Scenario::UsedVersionWithinRange, &pool(), server);
    assert_eq!(detail(result).as_deref(), Some("[2,2] accepted; [3,3] rejected"));
    assert!(matches!(actions[0], Action::Connect(ClientSetup::Defaults { .. })));
    assert!(matches!(actions[1], Action::ExpectFromServer(0x01)));
    match &actions[2] {
        Action::Connect(ClientSetup::Custom(s)) => {
            assert_eq!(s.protocol, Protocol::MiningProtocol);
            assert_eq!((s.min_version, s.max_version, s.flags), (3, 3, 0));
        }
        other => panic!("expected a custom connect, got {other:?}"),
    }
    assert!(matches!(actions[3], Action::NextFromServer));
}

#[test]
fn used_version_failures() {
    let (_, result) = run(Scenario::UsedVersionWithinRange, &pool(), FakeServer::new(vec![vec![success(3)]]));
    assert_eq!(error(result), "used_version must be 2 with [2,2] range, got 3");
    let (_, result) = run(Scenario::UsedVersionWithinRange, &pool(), FakeServer::new(vec![vec![other(0x01, "Odd")]]));
    assert_eq!(error(result), "expected SetupConnectionSuccess for [2,2], got Odd");
    let (_, result) =
        run(Scenario::UsedVersionWithinRange, &pool(), FakeServer::new(vec![vec![success(2)], vec![success(3)]]));
    assert_eq!(error(result), "endpoint accepted unsatisfiable version range [3,3] with used_version=3");
    let (_, result) = run(
        Scenario::UsedVersionWithinRange,
        &pool(),
        FakeServer::new(vec![vec![success(2)], vec![other(0x11, "Surprise")]]),
    );
    assert_eq!(error(result), "expected SetupConnectionError for [3,3] range, got type 0x11: Surprise");
}

#[test]
fn jds_version_probe_keeps_its_flags() {
    let jds = endpoint(AppType::JobDeclaratorServer, "me");
    let (actions, _) =
        run(Scenario::UsedVersionWithinRange, &jds, FakeServer::new(vec![vec![success(2)], vec![setup_error(b"")]]));
    match &actions[2] {
        Action::Connect(ClientSetup::Custom(s)) => {
            assert_eq!(s.protocol, Protocol::JobDeclarationProtocol);
            assert_eq!(s.flags, 0b0001);
        }
        other => panic!("expected a custom connect, got {other:?}"),
    }
}

#[test]
fn unsupported_protocol_reports_error_code() {
    let server = FakeServer::new(vec![vec![setup_error(b"unsupported-protocol")]]);
    let (actions, result) = run(Scenario::UnsupportedProtocolRejected, &pool(), server);
    assert_eq!(detail(result).as_deref(), Some("error_code=\"unsupported-protocol\""));
    match &actions[0] {
        Action::Connect(ClientSetup::Custom(s)) => {
            assert_eq!(s.protocol, Protocol::TemplateDistributionProtocol);
            assert_eq!((s.min_version, s.max_version, s.flags), (2, 2, 0));
        }
        other => panic!("expected a custom connect, got {other:?}"),
    }
    assert!(matches!(actions[1], Action::ExpectFromServer(0x02)));
}

#[test]
fn unsupported_protocol_shows_undecodable_code_in_hex() {
    let server = FakeServer::new(vec![vec![setup_error(&[0xff, 0x00, 0x7a])]]);
    let (_, result) = run(Scenario::UnsupportedProtocolRejected, &pool(), server);
    assert_eq!(detail(result).as_deref(), Some("error_code=\"0xff007a\""));
}

#[test]
fn unsupported_protocol_needs_an_error() {
    let server = FakeServer::new(vec![vec![success(2)]]);
    let (_, result) = run(Scenario::UnsupportedProtocolRejected, &pool(), server);
    assert_eq!(error(result), "timeout waiting for message type 0x02 from endpoint");
    let server = FakeServer::new(vec![vec![other(0x02, "NotAnError")]]);
    let (_, result) = run(Scenario::UnsupportedProtocolRejected, &pool(), server);
    assert_eq!(error(result), "expected SetupConnectionError, got NotAnError");
}

#[test]
fn standard_channel_echo() {
    let server = FakeServer::new(vec![vec![success(2), standard_success(1)]]);
    let (actions, result) = run(Scenario::OpenStandardRequestIdEcho, &pool(), server);
    assert_eq!(detail(result).as_deref(), Some("channel_id=7, group_channel_id=3"));
    match &actions[1] {
        Action::Send(ClientMessage::OpenStandardMiningChannel { request_id, user_identity, nominal_hash_rate, max_target }) => {
            assert_eq!(*request_id, 1);
            assert_eq!(user_identity, "interoperability_tests_sv2");
            assert_eq!(*nominal_hash_rate, 1_000_000);
            assert_eq!(max_target, &vec![0xffu8; 32]);
        }
        other => panic!("expected a standard open, got {other:?}"),
    }
    let server = FakeServer::new(vec![vec![standard_success(2)]]);
    let (_, result) = run(Scenario::OpenStandardRequestIdEcho, &pool(), server);
    assert_eq!(error(result), "request_id must echo 1, got 2");
    let server = FakeServer::new(vec![vec![other(0x11, "Mangled")]]);
    let (_, result) = run(Scenario::OpenStandardRequestIdEcho, &pool(), server);
    assert_eq!(error(result), "expected OpenStandardMiningChannelSuccess, got Mangled");
}

#[test]
fn extended_channel_echo_and_extranonce() {
    let server = FakeServer::new(vec![vec![extended_success(1, 8)]]);
    let (actions, result) = run(Scenario::OpenExtendedRequestIdEcho, &pool(), server);
    assert_eq!(detail(result).as_deref(), Some("channel_id=9, group_channel_id=1, extranonce_size=8"));
    match &actions[1] {
        Action::Send(ClientMessage::OpenExtendedMiningChannel { request_id, min_extranonce_size, .. }) => {
            assert_eq!(*request_id, 1);
            assert_eq!(*min_extranonce_size, 4);
        }
        other => panic!("expected an extended open, got {other:?}"),
    }
    let (_, result) =
        run(Scenario::OpenExtendedRequestIdEcho, &pool(), FakeServer::new(vec![vec![extended_success(5, 8)]]));
    assert_eq!(error(result), "request_id must echo 1, got 5");
    let (_, result) =
        run(Scenario::ExtranonceSizeAtLeastMin, &pool(), FakeServer::new(vec![vec![extended_success(5, 4)]]));
    assert_eq!(detail(result).as_deref(), Some("channel_id=9, group_channel_id=1, extranonce_size=4"));
    let (_, result) =
        run(Scenario::ExtranonceSizeAtLeastMin, &pool(), FakeServer::new(vec![vec![extended_success(1, 2)]]));
    assert_eq!(error(result), "extranonce_size 2 smaller than requested min_extranonce_size 4");
    let (_, result) =
        run(Scenario::ExtranonceSizeAtLeastMin, &pool(), FakeServer::new(vec![vec![other(0x14, "Bad")]]));
    assert_eq!(error(result), "expected OpenExtendedMiningChannelSuccess or OpenMiningChannelError, got Bad");
}

#[test]
fn explicit_channel_error_satisfies_the_extranonce_scenario() {
    let server = FakeServer::new(vec![vec![success(2), channel_error(b"min-extranonce-size-too-large")]]);
    let (actions, result) = run(Scenario::ExtranonceSizeAtLeastMin, &pool(), server);
    assert_eq!(
        detail(result).as_deref(),
        Some("refused with OpenMiningChannel.Error, error_code=\"min-extranonce-size-too-large\"")
    );
    assert!(matches!(actions[2], Action::ExpectEitherFromServer(0x14, 0x12)));
    let (_, result) = run(Scenario::ExtranonceSizeAtLeastMin, &pool(), FakeServer::new(vec![vec![success(2)]]));
    assert_eq!(error(result), "timeout waiting for message type 0x14 or 0x12 from endpoint");
    // the request_id echo scenario still waits for the success alone
    let server = FakeServer::new(vec![vec![channel_error(b"unknown-user")]]);
    let (_, result) = run(Scenario::OpenExtendedRequestIdEcho, &pool(), server);
    assert_eq!(error(result), "timeout waiting for message type 0x14 from endpoint");
}

#[test]
fn first_message_after_open_must_be_a_job() {
    let server = FakeServer::new(vec![vec![success(2), standard_success(1), other(0x15, "NewMiningJob")]]);
    let (_, result) = run(Scenario::FirstMessageAfterOpenIsJob, &pool(), server);
    assert_eq!(result.expect("passes"), None);
    let server = FakeServer::new(vec![vec![standard_success(1), other(0x1e, "SetNewPrevHash")]]);
    let (_, result) = run(Scenario::FirstMessageAfterOpenIsJob, &pool(), server);
    assert_eq!(error(result), "expected NewMiningJob (0x15) after standard channel open, got 0x1e");
}

#[test]
fn oversized_user_identity_fails_the_channel_scenarios() {
    let long = "u".repeat(256);
    let e = endpoint(AppType::SoloPool, &long);
    for s in [Scenario::OpenStandardRequestIdEcho, Scenario::OpenExtendedRequestIdEcho, Scenario::FirstMessageAfterOpenIsJob] {
        let (_, result) = run(s, &e, FakeServer::new(vec![vec![]]));
        assert_eq!(error(result), "user_identity longer than 255 bytes");
    }
    // 255 bytes still fit, multi-byte characters counted by their bytes
    let fits = endpoint(AppType::SoloPool, &"é".repeat(127));
    let (_, result) = run(Scenario::OpenStandardRequestIdEcho, &fits, FakeServer::new(vec![vec![standard_success(1)]]));
    assert!(result.is_ok());
    let too_long = endpoint(AppType::SoloPool, &"é".repeat(128));
    let (_, result) = run(Scenario::OpenStandardRequestIdEcho, &too_long, FakeServer::new(vec![vec![]]));
    assert_eq!(error(result), "user_identity longer than 255 bytes");
}

#[test]
fn every_scenario_fails_against_a_dead_endpoint() {
    for s in interoperability_tests_sv2::scenarios::all() {
        let (actions, result) = run(s, &pool(), FakeServer::dead("connection refused"));
        assert_eq!(actions.len(), 1, "{}", s.id());
        assert!(matches!(actions[0], Action::Connect(_)));
        assert_eq!(error(result), "connection refused");
    }
}

#[test]
fn events_out_of_order_fail_the_scenario() {
    let (stage, action) = Scenario::FramedSetupConnectionResponse.step(&pool(), 5, Event::Sent);
    assert_eq!(stage, 255);
    match action {
        Action::Finish(Err(e)) => assert_eq!(e.to_string(), "scenario driven out of order"),
        other => panic!("expected a failure, got {other:?}"),
    }
}
