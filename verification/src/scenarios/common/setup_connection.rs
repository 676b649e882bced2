//! Common Protocol Messages — `SetupConnection` negotiation.
//!
//! Covers catalog rows C-SC-*, C-SCS-*, C-SCE-*.

use vstd::prelude::*;

use crate::app_type::{protocol_of_code, rejected_protocol_code, served_protocol_code, setup_flags};
use crate::client::{
    setup_connection, ClientSetup, MessageBody, ServerMessage, MESSAGE_TYPE_SETUP_CONNECTION_ERROR,
    MESSAGE_TYPE_SETUP_CONNECTION_SUCCESS,
};
use crate::endpoint::Endpoint;
use crate::scenarios::{
    default_connect, fail, finishes_with_detail, finishes_with_error, handle_off_script,
    is_custom_connect, is_default_connect, is_run, off_script, pass_with, scenario_transition,
    stage_before, Action, Event, Scenario, ScenarioError, DONE,
};
use crate::text::{decimal, hex_byte, push_decimal, push_hex_byte, str0255_utf8_or_hex, utf8_or_hex};

verus! {

// ---------------------------------------------------------------------------
// C-SCS-1 — framed `SetupConnection.Success` response
// ---------------------------------------------------------------------------

/// The script of C-SCS-1: connect with the default setup, take the first
/// message, and pass when it is a `SetupConnection.Success`, reporting its
/// `used_version`.
pub open spec fn framed_setup_connection_response_transition(
    endpoint: Endpoint,
    stage: u8,
    event: Event,
    r: (u8, Action),
) -> bool {
    if stage == 0 && event is Start {
        r.0 == 1 && is_default_connect(r.1, endpoint.app_type)
    } else if stage == 1 && event is Connected {
        r == (2u8, Action::NextFromServer)
    } else if stage == 2 && event is Received {
        let m = event->Received_0;
        if m.msg_type != MESSAGE_TYPE_SETUP_CONNECTION_SUCCESS {
            finishes_with_error(
                r,
                "first message must be SetupConnectionSuccess, got type 0x"@ + hex_byte(m.msg_type),
            )
        } else {
            match m.body {
                MessageBody::SetupConnectionSuccess { used_version, .. } =>
                    finishes_with_detail(r, "used_version="@ + decimal(used_version as nat)),
                _ => finishes_with_error(r, "expected SetupConnectionSuccess, got "@ + m.display@),
            }
        }
    } else {
        off_script(event, r)
    }
}

/// The endpoint MUST respond to `SetupConnection` with a properly framed
/// `.Success` — not silence, a wrong message type, or a TCP close.
///
/// Covers: C-SCS-1
pub fn framed_setup_connection_response(endpoint: &Endpoint, stage: u8, event: Event) -> (r: (
    u8,
    Action,
))
    ensures
        framed_setup_connection_response_transition(*endpoint, stage, event, r),
{
    match event {
        Event::Start if stage == 0 => (1, default_connect(endpoint)),
        Event::Connected if stage == 1 => (2, Action::NextFromServer),
        Event::Received(m) if stage == 2 => {
            if m.msg_type != MESSAGE_TYPE_SETUP_CONNECTION_SUCCESS {
                let mut s = String::from_str("first message must be SetupConnectionSuccess, got type 0x");
                push_hex_byte(&mut s, m.msg_type);
                return fail(s);
            }
            match m.body {
                MessageBody::SetupConnectionSuccess { used_version, .. } => {
                    let mut s = String::from_str("used_version=");
                    push_decimal(&mut s, used_version as u64);
                    pass_with(s)
                },
                _ => {
                    let mut s = String::from_str("expected SetupConnectionSuccess, got ");
                    s.append(m.display.as_str());
                    fail(s)
                },
            }
        },
        other => handle_off_script(other),
    }
}

// ---------------------------------------------------------------------------
// C-SCS-2 — `used_version` within negotiated range
// ---------------------------------------------------------------------------

/// The script of C-SCS-2: with the default setup (range `[2,2]`) the
/// endpoint must answer `SetupConnection.Success` with `used_version == 2`;
/// on a fresh connection asking for `[3,3]` its first message must be a
/// `SetupConnection.Error`.
pub open spec fn used_version_within_range_transition(
    endpoint: Endpoint,
    stage: u8,
    event: Event,
    r: (u8, Action),
) -> bool {
    if stage == 0 && event is Start {
        r.0 == 1 && is_default_connect(r.1, endpoint.app_type)
    } else if stage == 1 && event is Connected {
        r == (2u8, Action::ExpectFromServer(MESSAGE_TYPE_SETUP_CONNECTION_SUCCESS))
    } else if stage == 2 && event is Received {
        let m = event->Received_0;
        match m.body {
            MessageBody::SetupConnectionSuccess { used_version, .. } => if used_version != 2 {
                finishes_with_error(
                    r,
                    "used_version must be 2 with [2,2] range, got "@ + decimal(used_version as nat),
                )
            } else {
                r.0 == 3 && is_custom_connect(
                    r.1,
                    protocol_of_code(served_protocol_code(endpoint.app_type)),
                    3,
                    3,
                    setup_flags(endpoint.app_type),
                )
            },
            _ => finishes_with_error(r, "expected SetupConnectionSuccess for [2,2], got "@ + m.display@),
        }
    } else if stage == 3 && event is Connected {
        r == (4u8, Action::NextFromServer)
    } else if stage == 4 && event is Received {
        let m = event->Received_0;
        match m.body {
            MessageBody::SetupConnectionError { .. } => finishes_with_detail(r, "[2,2] accepted; [3,3] rejected"@),
            MessageBody::SetupConnectionSuccess { used_version, .. } => finishes_with_error(
                r,
                "endpoint accepted unsatisfiable version range [3,3] with used_version="@
                    + decimal(used_version as nat),
            ),
            _ => finishes_with_error(
                r,
                "expected SetupConnectionError for [3,3] range, got type 0x"@ + hex_byte(m.msg_type)
                    + ": "@ + m.display@,
            ),
        }
    } else {
        off_script(event, r)
    }
}

/// The endpoint MUST honour the version range: `[2,2]` → `used_version == 2`;
/// `[3,3]` → framed `SetupConnectionError` (§3.6.2, §3.6.3).
///
/// Covers: C-SCS-2
pub fn used_version_within_range(endpoint: &Endpoint, stage: u8, event: Event) -> (r: (u8, Action))
    ensures
        used_version_within_range_transition(*endpoint, stage, event, r),
{
    match event {
        Event::Start if stage == 0 => (1, default_connect(endpoint)),
        Event::Connected if stage == 1 => (2, Action::ExpectFromServer(MESSAGE_TYPE_SETUP_CONNECTION_SUCCESS)),
        Event::Received(m) if stage == 2 => match m.body {
            MessageBody::SetupConnectionSuccess { used_version, .. } => {
                if used_version != 2 {
                    let mut s = String::from_str("used_version must be 2 with [2,2] range, got ");
                    push_decimal(&mut s, used_version as u64);
                    fail(s)
                } else {
                    // Probe 2 — min=max=3: the endpoint MUST reject (no common version).
                    let protocol = endpoint.app_type.protocol();
                    let flags = endpoint.app_type.default_flags();
                    (3, Action::Connect(ClientSetup::Custom(setup_connection(protocol, 3, 3, flags))))
                }
            },
            _ => {
                let mut s = String::from_str("expected SetupConnectionSuccess for [2,2], got ");
                s.append(m.display.as_str());
                fail(s)
            },
        },
        Event::Connected if stage == 3 => (4, Action::NextFromServer),
        Event::Received(m) if stage == 4 => match m.body {
            MessageBody::SetupConnectionError { .. } => pass_with(String::from_str("[2,2] accepted; [3,3] rejected")),
            MessageBody::SetupConnectionSuccess { used_version, .. } => {
                let mut s = String::from_str(
                    "endpoint accepted unsatisfiable version range [3,3] with used_version=",
                );
                push_decimal(&mut s, used_version as u64);
                fail(s)
            },
            _ => {
                let mut s = String::from_str("expected SetupConnectionError for [3,3] range, got type 0x");
                push_hex_byte(&mut s, m.msg_type);
                s.append(": ");
                s.append(m.display.as_str());
                fail(s)
            },
        },
        other => handle_off_script(other),
    }
}

/// `e` delivers a `SetupConnection.Success` with `used_version == 2`.
pub open spec fn received_version_two(e: Event) -> bool {
    e matches Event::Received(m) && (m.body matches MessageBody::SetupConnectionSuccess { used_version, .. }
        && used_version == 2)
}

/// `e` delivers a `SetupConnection.Error`.
pub open spec fn received_setup_error(e: Event) -> bool {
    e matches Event::Received(m) && m.body is SetupConnectionError
}

proof fn lemma_version_probe_stages(endpoint: Endpoint, events: Seq<Event>, steps: Seq<(u8, Action)>, k: int)
    requires
        is_run(Scenario::UsedVersionWithinRange, endpoint, events, steps),
        0 <= k < steps.len(),
    ensures
        steps[k].0 == 1 || steps[k].0 == 2 || steps[k].0 == 3 || steps[k].0 == 4 || steps[k].0 == DONE,
        (steps[k].0 == 3 || steps[k].0 == 4) ==> exists|j: int| 0 <= j <= k && received_version_two(#[trigger] events[j]),
    decreases k,
{
    assert(scenario_transition(Scenario::UsedVersionWithinRange, endpoint, stage_before(steps, k), events[k], steps[k]));
    if k > 0 {
        lemma_version_probe_stages(endpoint, events, steps, k - 1);
        if steps[k].0 == 3 {
            assert(received_version_two(events[k]));
        }
        if steps[k].0 == 4 {
            assert(steps[k - 1].0 == 3);
            let j = choose|j: int| 0 <= j <= k - 1 && received_version_two(#[trigger] events[j]);
            assert(received_version_two(events[j]));
        }
    }
}

/// A run of C-SCS-2 that passes saw the endpoint negotiate version 2 for
/// the range `[2,2]`, and later reject the range `[3,3]` with a
/// `SetupConnection.Error`.
pub proof fn lemma_version_probe_passes_only_on_compliance(
    endpoint: Endpoint,
    events: Seq<Event>,
    steps: Seq<(u8, Action)>,
)
    requires
        is_run(Scenario::UsedVersionWithinRange, endpoint, events, steps),
        steps.last().1 matches Action::Finish(Ok(_)),
    ensures
        exists|j1: int, j2: int|
            0 <= j1 < j2 < events.len() && received_version_two(#[trigger] events[j1])
                && received_setup_error(#[trigger] events[j2]),
{
    let k = steps.len() - 1;
    assert(scenario_transition(Scenario::UsedVersionWithinRange, endpoint, stage_before(steps, k), events[k], steps[k]));
    assert(k > 0);
    lemma_version_probe_stages(endpoint, events, steps, k - 1);
    assert(steps[k - 1].0 == 4);
    assert(received_setup_error(events[k]));
    let j = choose|j: int| 0 <= j <= k - 1 && received_version_two(#[trigger] events[j]);
    assert(received_version_two(events[j]) && received_setup_error(events[k]));
}

// ---------------------------------------------------------------------------
// C-SC-7 — unsupported protocol rejected
// ---------------------------------------------------------------------------

/// The script of C-SC-7: connect asking for the sub-protocol the endpoint
/// should not serve (range `[2,2]`, no flags), wait for a
/// `SetupConnection.Error`, and pass reporting its error code.
pub open spec fn unsupported_protocol_rejected_transition(
    endpoint: Endpoint,
    stage: u8,
    event: Event,
    r: (u8, Action),
) -> bool {
    if stage == 0 && event is Start {
        r.0 == 1 && is_custom_connect(
            r.1,
            protocol_of_code(rejected_protocol_code(endpoint.app_type)),
            2,
            2,
            0,
        )
    } else if stage == 1 && event is Connected {
        r == (2u8, Action::ExpectFromServer(MESSAGE_TYPE_SETUP_CONNECTION_ERROR))
    } else if stage == 2 && event is Received {
        let m = event->Received_0;
        match m.body {
            MessageBody::SetupConnectionError { error_code, .. } =>
                finishes_with_detail(r, "error_code=\""@ + utf8_or_hex(error_code@) + "\""@),
            _ => finishes_with_error(r, "expected SetupConnectionError, got "@ + m.display@),
        }
    } else {
        off_script(event, r)
    }
}

/// The endpoint MUST reject a `SetupConnection` for a sub-protocol it does
/// not serve with a framed `SetupConnectionError`.
///
/// Covers: C-SC-7
pub fn unsupported_protocol_rejected(endpoint: &Endpoint, stage: u8, event: Event) -> (r: (u8, Action))
    requires
        event.well_formed(),
    ensures
        unsupported_protocol_rejected_transition(*endpoint, stage, event, r),
{
    match event {
        Event::Start if stage == 0 => {
            let setup = setup_connection(endpoint.app_type.wrong_protocol(), 2, 2, 0);
            (1, Action::Connect(ClientSetup::Custom(setup)))
        },
        Event::Connected if stage == 1 => (2, Action::ExpectFromServer(MESSAGE_TYPE_SETUP_CONNECTION_ERROR)),
        Event::Received(m) if stage == 2 => match expect_setup_connection_error(&m) {
            Ok(error_code) => {
                let code = str0255_utf8_or_hex(error_code.as_slice());
                let mut s = String::from_str("error_code=\"");
                s.append(code.as_str());
                s.append("\"");
                pass_with(s)
            },
            Err(e) => (DONE, Action::Finish(Err(e))),
        },
        other => handle_off_script(other),
    }
}

// ---------------------------------------------------------------------------
// helpers
// ---------------------------------------------------------------------------

/// The error code of a `SetupConnection.Error`, or why `m` is not one.
fn expect_setup_connection_error(m: &ServerMessage) -> (r: Result<&Vec<u8>, ScenarioError>)
    ensures
        match m.body {
            MessageBody::SetupConnectionError { error_code, .. } => (r matches Ok(c) && c@ == error_code@),
            _ => (r matches Err(e) && e@ == "expected SetupConnectionError, got "@ + m.display@),
        },
{
    match &m.body {
        MessageBody::SetupConnectionError { error_code, .. } => Ok(error_code),
        _ => {
            let mut s = String::from_str("expected SetupConnectionError, got ");
            s.append(m.display.as_str());
            Err(ScenarioError(s))
        },
    }
}

// ---------------------------------------------------------------------------
// registry entries for this module
// ---------------------------------------------------------------------------

/// The scenarios of this module, in order.
pub open spec fn entries_spec() -> Seq<Scenario> {
    seq![
        Scenario::FramedSetupConnectionResponse,
        Scenario::UsedVersionWithinRange,
        Scenario::UnsupportedProtocolRejected,
    ]
}

/// The scenarios of this module, in order.
pub fn entries() -> (v: Vec<Scenario>)
    ensures
        v@ == entries_spec(),
{
    let mut v = Vec::new();
    v.push(Scenario::FramedSetupConnectionResponse);
    v.push(Scenario::UsedVersionWithinRange);
    v.push(Scenario::UnsupportedProtocolRejected);
    v
}

} // verus!
