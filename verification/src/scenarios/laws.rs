//! What each scenario decides, stated over the endpoint's replies.

use vstd::prelude::*;

use crate::app_type::{protocol_of_code, rejected_protocol_code, served_protocol_code, setup_flags};
use crate::client::{ClientMessage, ClientSetup, MessageBody, ServerMessage};
use crate::endpoint::Endpoint;
use crate::scenarios::mining::identity_fits;
use crate::scenarios::{scenario_transition, Action, Event, Scenario, DONE};
use crate::text::decimal;

verus! {

/// `r` finishes the scenario as passed.
pub open spec fn passes(r: (u8, Action)) -> bool {
    r.0 == DONE && (r.1 matches Action::Finish(Ok(_)))
}

/// `r` finishes the scenario as failed.
pub open spec fn fails(r: (u8, Action)) -> bool {
    r.0 == DONE && (r.1 matches Action::Finish(Err(_)))
}

/// `a` opens a standard channel with request id 1, the endpoint's identity,
/// a nominal hash rate of 1,000,000 and the widest target.
pub open spec fn opens_standard_channel(a: Action, endpoint: Endpoint) -> bool {
    a matches Action::Send(ClientMessage::OpenStandardMiningChannel {
        request_id,
        user_identity,
        nominal_hash_rate,
        max_target,
    }) && request_id == 1 && user_identity@ == endpoint.user_identity@ && nominal_hash_rate == 1_000_000
        && max_target@.len() == 32 && (forall|i: int| 0 <= i < 32 ==> max_target@[i] == 0xffu8)
}

/// `a` opens an extended channel with request id 1, the endpoint's
/// identity, a nominal hash rate of 1,000,000, the widest target and a
/// minimum extranonce of 4 bytes.
pub open spec fn opens_extended_channel(a: Action, endpoint: Endpoint) -> bool {
    a matches Action::Send(ClientMessage::OpenExtendedMiningChannel {
        request_id,
        user_identity,
        nominal_hash_rate,
        max_target,
        min_extranonce_size,
    }) && request_id == 1 && user_identity@ == endpoint.user_identity@ && nominal_hash_rate == 1_000_000
        && max_target@.len() == 32 && (forall|i: int| 0 <= i < 32 ==> max_target@[i] == 0xffu8)
        && min_extranonce_size == 4
}

/// `a` connects with the default setup for the endpoint's app type.
pub open spec fn connects_by_default(a: Action, endpoint: Endpoint) -> bool {
    a matches Action::Connect(ClientSetup::Defaults { protocol, flags })
        && protocol == protocol_of_code(served_protocol_code(endpoint.app_type))
        && flags == setup_flags(endpoint.app_type)
}

/// C-SCS-1 connects by default, takes the first message, and passes
/// exactly when it is a `SetupConnection.Success` of type 0x01, reporting
/// its `used_version`.
pub proof fn lemma_framed_response_verdict(endpoint: Endpoint, m: ServerMessage, r0: (u8, Action), r: (u8, Action))
    requires
        scenario_transition(Scenario::FramedSetupConnectionResponse, endpoint, 0, Event::Start, r0),
        scenario_transition(Scenario::FramedSetupConnectionResponse, endpoint, 2, Event::Received(m), r),
    ensures
        r0.0 == 1 && connects_by_default(r0.1, endpoint),
        (m.msg_type == 0x01 && m.body is SetupConnectionSuccess) <==> passes(r),
        !passes(r) ==> fails(r),
        m.body matches MessageBody::SetupConnectionSuccess { used_version, .. } ==> (m.msg_type == 0x01 ==> (
        r.1 matches Action::Finish(Ok(Some(d))) && d@ == "used_version="@ + decimal(used_version as nat))),
{
}

/// C-SCS-2: with the default range the reply must be a
/// `SetupConnection.Success` with `used_version == 2`, upon which the
/// scenario reconnects asking for `[3,3]` with the same protocol and flags;
/// that second connection passes exactly when its first message is a
/// `SetupConnection.Error`.
pub proof fn lemma_version_probe_verdicts(
    endpoint: Endpoint,
    first: ServerMessage,
    second: ServerMessage,
    r1: (u8, Action),
    r2: (u8, Action),
)
    requires
        scenario_transition(Scenario::UsedVersionWithinRange, endpoint, 2, Event::Received(first), r1),
        scenario_transition(Scenario::UsedVersionWithinRange, endpoint, 4, Event::Received(second), r2),
    ensures
        (first.body matches MessageBody::SetupConnectionSuccess { used_version, .. } && used_version == 2) ==> (
        r1.0 == 3 && (r1.1 matches Action::Connect(ClientSetup::Custom(s)) && s.min_version == 3
            && s.max_version == 3 && s.protocol == protocol_of_code(served_protocol_code(endpoint.app_type))
            && s.flags == setup_flags(endpoint.app_type))),
        !(first.body matches MessageBody::SetupConnectionSuccess { used_version, .. } && used_version == 2)
            ==> fails(r1),
        second.body is SetupConnectionError <==> passes(r2),
        !passes(r2) ==> fails(r2),
{
}

/// C-SC-7 asks for the sub-protocol the endpoint should reject, range
/// `[2,2]`, no flags, and passes exactly when a `SetupConnection.Error`
/// comes back.
pub proof fn lemma_unsupported_protocol_verdict(endpoint: Endpoint, m: ServerMessage, r0: (u8, Action), r: (u8, Action))
    requires
        scenario_transition(Scenario::UnsupportedProtocolRejected, endpoint, 0, Event::Start, r0),
        scenario_transition(Scenario::UnsupportedProtocolRejected, endpoint, 2, Event::Received(m), r),
    ensures
        r0.0 == 1 && (r0.1 matches Action::Connect(ClientSetup::Custom(s)) && s.protocol == protocol_of_code(
            rejected_protocol_code(endpoint.app_type),
        ) && s.min_version == 2 && s.max_version == 2 && s.flags == 0),
        m.body is SetupConnectionError <==> passes(r),
        !passes(r) ==> fails(r),
{
}

/// M-OSMCS-1 opens a standard channel, waits for its success (0x11), and
/// passes exactly when the success echoes request id 1.
pub proof fn lemma_standard_echo_verdict(
    endpoint: Endpoint,
    m: ServerMessage,
    r1: (u8, Action),
    r2: (u8, Action),
    r: (u8, Action),
)
    requires
        scenario_transition(Scenario::OpenStandardRequestIdEcho, endpoint, 1, Event::Connected, r1),
        scenario_transition(Scenario::OpenStandardRequestIdEcho, endpoint, 2, Event::Sent, r2),
        scenario_transition(Scenario::OpenStandardRequestIdEcho, endpoint, 3, Event::Received(m), r),
    ensures
        identity_fits(endpoint.user_identity@) ==> r1.0 == 2 && opens_standard_channel(r1.1, endpoint),
        !identity_fits(endpoint.user_identity@) ==> fails(r1),
        r2 == (3u8, Action::ExpectFromServer(0x11)),
        (m.body matches MessageBody::OpenStandardMiningChannelSuccess { request_id, .. } && request_id == 1)
            <==> passes(r),
        !passes(r) ==> fails(r),
{
}

/// M-OEMCS-1 opens an extended channel, waits for its success (0x14), and
/// passes exactly when the success echoes request id 1.
pub proof fn lemma_extended_echo_verdict(
    endpoint: Endpoint,
    m: ServerMessage,
    r1: (u8, Action),
    r2: (u8, Action),
    r: (u8, Action),
)
    requires
        scenario_transition(Scenario::OpenExtendedRequestIdEcho, endpoint, 1, Event::Connected, r1),
        scenario_transition(Scenario::OpenExtendedRequestIdEcho, endpoint, 2, Event::Sent, r2),
        scenario_transition(Scenario::OpenExtendedRequestIdEcho, endpoint, 3, Event::Received(m), r),
    ensures
        identity_fits(endpoint.user_identity@) ==> r1.0 == 2 && opens_extended_channel(r1.1, endpoint),
        !identity_fits(endpoint.user_identity@) ==> fails(r1),
        r2 == (3u8, Action::ExpectFromServer(0x14)),
        (m.body matches MessageBody::OpenExtendedMiningChannelSuccess { request_id, .. } && request_id == 1)
            <==> passes(r),
        !passes(r) ==> fails(r),
{
}

/// M-OEMCS-3 opens an extended channel asking for at least 4 bytes of
/// extranonce, waits for its success (0x14) or an `OpenMiningChannel.Error`
/// (0x12), and passes exactly when the success grants at least 4 bytes or
/// the endpoint refuses the channel explicitly.
pub proof fn lemma_extranonce_verdict(
    endpoint: Endpoint,
    m: ServerMessage,
    r1: (u8, Action),
    r2: (u8, Action),
    r: (u8, Action),
)
    requires
        scenario_transition(Scenario::ExtranonceSizeAtLeastMin, endpoint, 1, Event::Connected, r1),
        scenario_transition(Scenario::ExtranonceSizeAtLeastMin, endpoint, 2, Event::Sent, r2),
        scenario_transition(Scenario::ExtranonceSizeAtLeastMin, endpoint, 3, Event::Received(m), r),
    ensures
        identity_fits(endpoint.user_identity@) ==> r1.0 == 2 && opens_extended_channel(r1.1, endpoint),
        !identity_fits(endpoint.user_identity@) ==> fails(r1),
        r2 == (3u8, Action::ExpectEitherFromServer(0x14, 0x12)),
        ((m.body matches MessageBody::OpenExtendedMiningChannelSuccess { extranonce_size, .. }
            && extranonce_size >= 4) || m.body is OpenMiningChannelError) <==> passes(r),
        !passes(r) ==> fails(r),
{
}

/// M-NMJ-1 opens a standard channel, waits for its success (0x11), then
/// takes the next message whatever it is, and passes exactly when that
/// message is a `NewMiningJob` (0x15).
pub proof fn lemma_first_job_verdict(
    endpoint: Endpoint,
    success: ServerMessage,
    m: ServerMessage,
    r1: (u8, Action),
    r2: (u8, Action),
    r3: (u8, Action),
    r: (u8, Action),
)
    requires
        scenario_transition(Scenario::FirstMessageAfterOpenIsJob, endpoint, 1, Event::Connected, r1),
        scenario_transition(Scenario::FirstMessageAfterOpenIsJob, endpoint, 2, Event::Sent, r2),
        scenario_transition(Scenario::FirstMessageAfterOpenIsJob, endpoint, 3, Event::Received(success), r3),
        scenario_transition(Scenario::FirstMessageAfterOpenIsJob, endpoint, 4, Event::Received(m), r),
    ensures
        identity_fits(endpoint.user_identity@) ==> r1.0 == 2 && opens_standard_channel(r1.1, endpoint),
        !identity_fits(endpoint.user_identity@) ==> fails(r1),
        r2 == (3u8, Action::ExpectFromServer(0x11)),
        r3 == (4u8, Action::NextFromServer),
        m.msg_type == 0x15 <==> passes(r),
        m.msg_type == 0x15 ==> r.1 matches Action::Finish(Ok(None)),
        !passes(r) ==> fails(r),
{
}

/// Every scenario except C-SC-7 starts by connecting with the default
/// setup for the endpoint's app type.
pub proof fn lemma_scenarios_connect_by_default(s: Scenario, endpoint: Endpoint, r: (u8, Action))
    requires
        s != Scenario::UnsupportedProtocolRejected,
        scenario_transition(s, endpoint, 0, Event::Start, r),
    ensures
        r.0 == 1 && connects_by_default(r.1, endpoint),
{
}

} // verus!
