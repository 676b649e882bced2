use interoperability_tests_sv2::app_type::AppType;
use interoperability_tests_sv2::client::{
    send_error, setup_connection, silence_outcome, timeout_error, wait_next, wait_start, Awaited, MessageBody,
    ServerMessage, WaitAction, WaitEvent,
};
use stratum_apps::stratum_core::common_messages_sv2::Protocol;

#[test]
fn setup_connection_fills_the_fixed_fields() {
    let s = setup_connection(AppType::JobDeclaratorServer.protocol(), 3, 4, 0b0001);
    assert_eq!(s.protocol, Protocol::JobDeclarationProtocol);
    assert_eq!(s.min_version, 3);
    assert_eq!(s.max_version, 4);
    assert_eq!(s.flags, 0b0001);
    assert_eq!(s.endpoint_host, "0.0.0.0");
    assert_eq!(s.endpoint_port, 0);
    assert_eq!(s.vendor, "interoperability-tests-sv2");
    assert_eq!(s.hardware_version, "");
    assert_eq!(s.firmware, "");
    assert_eq!(s.device_id, "");
}

#[test]
fn waiting_for_a_type_discards_other_messages() {
    let wanted = Awaited::Type(0x11);
    assert!(matches!(wait_start(wanted), WaitAction::CheckForType));
    assert!(matches!(wait_next(wanted, WaitEvent::Checked(false)), WaitAction::Sleep));
    assert!(matches!(wait_next(wanted, WaitEvent::Slept), WaitAction::CheckForType));
    assert!(matches!(wait_next(wanted, WaitEvent::Checked(true)), WaitAction::DrainNext));
    // a message of another type is consumed and the drain goes on
    assert!(matches!(wait_next(wanted, WaitEvent::Drained(Some(0x15))), WaitAction::DrainNext));
    assert!(matches!(wait_next(wanted, WaitEvent::Drained(Some(0x11))), WaitAction::Deliver));
    assert!(matches!(wait_next(wanted, WaitEvent::Drained(None)), WaitAction::Sleep));
}

#[test]
fn waiting_for_any_message_takes_the_first() {
    assert!(matches!(wait_start(Awaited::Any), WaitAction::DrainNext));
    assert!(matches!(wait_next(Awaited::Any, WaitEvent::Drained(None)), WaitAction::Sleep));
    assert!(matches!(wait_next(Awaited::Any, WaitEvent::Slept), WaitAction::DrainNext));
    assert!(matches!(wait_next(Awaited::Any, WaitEvent::Drained(Some(0x02))), WaitAction::Deliver));
}

#[test]
fn waiting_for_either_type_takes_the_first_of_them() {
    let awaited = Awaited::EitherType(0x14, 0x12);
    assert!(matches!(wait_start(awaited), WaitAction::CheckForType));
    assert!(matches!(wait_next(awaited, WaitEvent::Drained(Some(0x01))), WaitAction::DrainNext));
    assert!(matches!(wait_next(awaited, WaitEvent::Drained(Some(0x12))), WaitAction::Deliver));
    assert!(matches!(wait_next(awaited, WaitEvent::Drained(Some(0x14))), WaitAction::Deliver));
}

#[test]
fn client_errors_name_the_awaited_type() {
    assert_eq!(timeout_error(Awaited::Type(0x01)).to_string(), "timeout waiting for message type 0x01 from endpoint");
    assert_eq!(timeout_error(Awaited::Type(0xab)).to_string(), "timeout waiting for message type 0xab from endpoint");
    assert_eq!(timeout_error(Awaited::Any).to_string(), "timeout waiting for any message from endpoint");
    assert_eq!(
        timeout_error(Awaited::EitherType(0x14, 0x12)).to_string(),
        "timeout waiting for message type 0x14 or 0x12 from endpoint"
    );
    assert_eq!(send_error("channel closed").to_string(), "failed to send message: channel closed");
    assert!(silence_outcome(0x15, false).is_ok());
    assert_eq!(
        silence_outcome(0x15, true).unwrap_err().to_string(),
        "expected no message of type 0x15, but one arrived"
    );
}

#[test]
fn error_codes_longer_than_their_field_are_not_well_formed() {
    let ok = ServerMessage {
        msg_type: 0x02,
        body: MessageBody::SetupConnectionError { flags: 0, error_code: vec![b'x'; 255] },
        display: String::new(),
    };
    assert!(ok.is_well_formed());
    let too_long = ServerMessage {
        msg_type: 0x02,
        body: MessageBody::SetupConnectionError { flags: 0, error_code: vec![b'x'; 256] },
        display: String::new(),
    };
    assert!(!too_long.is_well_formed());
}
