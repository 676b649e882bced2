//! `OpenExtendedMiningChannel` and `.Success` (M-OEMC-*, M-OEMCS-*).

use vstd::prelude::*;

use crate::client::{
    MessageBody, MESSAGE_TYPE_OPEN_EXTENDED_MINING_CHANNEL_SUCCESS, MESSAGE_TYPE_OPEN_MINING_CHANNEL_ERROR,
};
use crate::endpoint::Endpoint;
use crate::scenarios::mining::{
    extended_open, identity_fits, identity_fits_field, identity_too_long_message, is_extended_open,
};
use crate::scenarios::{
    default_connect, fail, finishes_with_detail, finishes_with_error, handle_off_script,
    is_default_connect, off_script, pass_with, Action, Event, Scenario,
};
use crate::text::{decimal, push_decimal, str0255_utf8_or_hex, utf8_or_hex};

verus! {

/// The `request_id` of the channel-open request.
pub const REQUEST_ID: u32 = 1;

/// The `min_extranonce_size` of the channel-open request.
pub const MIN_EXTRANONCE_SIZE: u16 = 4;

/// What the scenarios of this module wait for once the channel open is
/// sent: the success only, or (`error_allowed`) the success or an
/// `OpenMiningChannel.Error`.
pub open spec fn reply_wait(error_allowed: bool) -> Action {
    if error_allowed {
        Action::ExpectEitherFromServer(
            MESSAGE_TYPE_OPEN_EXTENDED_MINING_CHANNEL_SUCCESS,
            MESSAGE_TYPE_OPEN_MINING_CHANNEL_ERROR,
        )
    } else {
        Action::ExpectFromServer(MESSAGE_TYPE_OPEN_EXTENDED_MINING_CHANNEL_SUCCESS)
    }
}

/// The first stages shared by the scenarios of this module: connect, open
/// an extended channel, wait for its reply.
pub open spec fn open_extended_stages(
    endpoint: Endpoint,
    stage: u8,
    event: Event,
    r: (u8, Action),
    error_allowed: bool,
) -> bool {
    if stage == 0 && event is Start {
        r.0 == 1 && is_default_connect(r.1, endpoint.app_type)
    } else if stage == 1 && event is Connected {
        if identity_fits(endpoint.user_identity@) {
            r.0 == 2 && (r.1 matches Action::Send(m) && is_extended_open(
                m,
                REQUEST_ID,
                endpoint.user_identity@,
                MIN_EXTRANONCE_SIZE,
            ))
        } else {
            finishes_with_error(r, identity_too_long_message())
        }
    } else if stage == 2 && event is Sent {
        r == (3u8, reply_wait(error_allowed))
    } else {
        off_script(event, r)
    }
}

/// The detail reported for an `OpenExtendedMiningChannel.Success`.
pub open spec fn success_detail(channel_id: u32, group_channel_id: u32, extranonce_size: u16) -> Seq<char> {
    "channel_id="@ + decimal(channel_id as nat) + ", group_channel_id="@ + decimal(group_channel_id as nat)
        + ", extranonce_size="@ + decimal(extranonce_size as nat)
}

/// The verdict on the reply of stage 3, given how the success message is
/// judged (`judge` is `None` when the success passes, or the error).
pub open spec fn reply_verdict(event: Event, r: (u8, Action), judge: spec_fn(u32, u16) -> Option<Seq<char>>) -> bool {
    let m = event->Received_0;
    match m.body {
        MessageBody::OpenExtendedMiningChannelSuccess {
            request_id,
            channel_id,
            group_channel_id,
            extranonce_size,
        } => match judge(request_id, extranonce_size) {
            Some(msg) => finishes_with_error(r, msg),
            None => finishes_with_detail(r, success_detail(channel_id, group_channel_id, extranonce_size)),
        },
        _ => finishes_with_error(r, "expected OpenExtendedMiningChannelSuccess, got "@ + m.display@),
    }
}

/// Opens an extended channel, for stages 0 to 2.
fn open_extended_step(endpoint: &Endpoint, stage: u8, event: Event, error_allowed: bool) -> (r: (u8, Action))
    requires
        !(stage == 3 && event is Received),
    ensures
        open_extended_stages(*endpoint, stage, event, r, error_allowed),
{
    match event {
        Event::Start if stage == 0 => (1, default_connect(endpoint)),
        Event::Connected if stage == 1 => {
            if identity_fits_field(&endpoint.user_identity) {
                (2, Action::Send(extended_open(REQUEST_ID, &endpoint.user_identity, MIN_EXTRANONCE_SIZE)))
            } else {
                fail(String::from_str("user_identity longer than 255 bytes"))
            }
        },
        Event::Sent if stage == 2 => {
            if error_allowed {
                (
                    3,
                    Action::ExpectEitherFromServer(
                        MESSAGE_TYPE_OPEN_EXTENDED_MINING_CHANNEL_SUCCESS,
                        MESSAGE_TYPE_OPEN_MINING_CHANNEL_ERROR,
                    ),
                )
            } else {
                (3, Action::ExpectFromServer(MESSAGE_TYPE_OPEN_EXTENDED_MINING_CHANNEL_SUCCESS))
            }
        },
        other => handle_off_script(other),
    }
}

fn success_detail_string(channel_id: u32, group_channel_id: u32, extranonce_size: u16) -> (s: String)
    ensures
        s@ == success_detail(channel_id, group_channel_id, extranonce_size),
{
    let mut s = String::from_str("channel_id=");
    push_decimal(&mut s, channel_id as u64);
    s.append(", group_channel_id=");
    push_decimal(&mut s, group_channel_id as u64);
    s.append(", extranonce_size=");
    push_decimal(&mut s, extranonce_size as u64);
    s
}

fn wrong_reply(display: &String) -> (r: (u8, Action))
    ensures
        finishes_with_error(r, "expected OpenExtendedMiningChannelSuccess, got "@ + display@),
{
    let mut s = String::from_str("expected OpenExtendedMiningChannelSuccess, got ");
    s.append(display.as_str());
    fail(s)
}

// ---------------------------------------------------------------------------
// M-OEMCS-1 — `request_id` echo on `OpenExtendedMiningChannel.Success`
// ---------------------------------------------------------------------------

/// How M-OEMCS-1 judges a success: it must echo `REQUEST_ID`.
pub open spec fn echo_judge() -> spec_fn(u32, u16) -> Option<Seq<char>> {
    |request_id: u32, extranonce_size: u16|
        if request_id != REQUEST_ID {
            Some("request_id must echo 1, got "@ + decimal(request_id as nat))
        } else {
            None
        }
}

/// The script of M-OEMCS-1.
pub open spec fn request_id_echo_transition(endpoint: Endpoint, stage: u8, event: Event, r: (u8, Action)) -> bool {
    if stage == 3 && event is Received {
        reply_verdict(event, r, echo_judge())
    } else {
        open_extended_stages(endpoint, stage, event, r, false)
    }
}

/// The endpoint MUST echo `request_id` in `OpenExtendedMiningChannel.Success`.
///
/// Covers: M-OEMCS-1
pub fn request_id_echo(endpoint: &Endpoint, stage: u8, event: Event) -> (r: (u8, Action))
    ensures
        request_id_echo_transition(*endpoint, stage, event, r),
{
    if stage == 3 {
        if let Event::Received(m) = event {
            return match m.body {
                MessageBody::OpenExtendedMiningChannelSuccess {
                    request_id,
                    channel_id,
                    group_channel_id,
                    extranonce_size,
                } => {
                    if request_id != REQUEST_ID {
                        let mut s = String::from_str("request_id must echo 1, got ");
                        push_decimal(&mut s, request_id as u64);
                        fail(s)
                    } else {
                        pass_with(success_detail_string(channel_id, group_channel_id, extranonce_size))
                    }
                },
                _ => wrong_reply(&m.display),
            };
        }
    }
    open_extended_step(endpoint, stage, event, false)
}

// ---------------------------------------------------------------------------
// M-OEMCS-3 — `extranonce_size >= min_extranonce_size`
// ---------------------------------------------------------------------------

/// How M-OEMCS-3 judges a success: its extranonce must be at least
/// `MIN_EXTRANONCE_SIZE` bytes.
pub open spec fn extranonce_judge() -> spec_fn(u32, u16) -> Option<Seq<char>> {
    |request_id: u32, extranonce_size: u16|
        if extranonce_size < MIN_EXTRANONCE_SIZE {
            Some(
                "extranonce_size "@ + decimal(extranonce_size as nat)
                    + " smaller than requested min_extranonce_size 4"@,
            )
        } else {
            None
        }
}

/// The detail reported when the endpoint refuses the channel explicitly.
pub open spec fn refusal_detail(error_code: Seq<u8>) -> Seq<char> {
    "refused with OpenMiningChannel.Error, error_code=\""@ + utf8_or_hex(error_code) + "\""@
}

/// The script of M-OEMCS-3: connect, open an extended channel asking for
/// `MIN_EXTRANONCE_SIZE`, and wait for its success or an
/// `OpenMiningChannel.Error`. A success passes when its extranonce is at
/// least that size; an explicit error passes too, reporting its code.
pub open spec fn extranonce_size_at_least_min_transition(
    endpoint: Endpoint,
    stage: u8,
    event: Event,
    r: (u8, Action),
) -> bool {
    if stage == 3 && event is Received {
        match event->Received_0.body {
            MessageBody::OpenMiningChannelError { error_code, .. } => finishes_with_detail(
                r,
                refusal_detail(error_code@),
            ),
            MessageBody::OpenExtendedMiningChannelSuccess { .. } => reply_verdict(event, r, extranonce_judge()),
            _ => finishes_with_error(
                r,
                "expected OpenExtendedMiningChannelSuccess or OpenMiningChannelError, got "@
                    + event->Received_0.display@,
            ),
        }
    } else {
        open_extended_stages(endpoint, stage, event, r, true)
    }
}

/// The endpoint MUST honour `min_extranonce_size` (§5.3.4, §5.3.5), or
/// refuse the channel with an explicit error.
///
/// Covers: M-OEMCS-3
pub fn extranonce_size_at_least_min(endpoint: &Endpoint, stage: u8, event: Event) -> (r: (u8, Action))
    requires
        event.well_formed(),
    ensures
        extranonce_size_at_least_min_transition(*endpoint, stage, event, r),
{
    if stage == 3 {
        if let Event::Received(m) = event {
            return match m.body {
                MessageBody::OpenExtendedMiningChannelSuccess {
                    request_id,
                    channel_id,
                    group_channel_id,
                    extranonce_size,
                } => {
                    if extranonce_size < MIN_EXTRANONCE_SIZE {
                        let mut s = String::from_str("extranonce_size ");
                        push_decimal(&mut s, extranonce_size as u64);
                        s.append(" smaller than requested min_extranonce_size 4");
                        fail(s)
                    } else {
                        pass_with(success_detail_string(channel_id, group_channel_id, extranonce_size))
                    }
                },
                MessageBody::OpenMiningChannelError { error_code, .. } => {
                    let code = str0255_utf8_or_hex(error_code.as_slice());
                    let mut s = String::from_str("refused with OpenMiningChannel.Error, error_code=\"");
                    s.append(code.as_str());
                    s.append("\"");
                    pass_with(s)
                },
                _ => {
                    let mut s = String::from_str(
                        "expected OpenExtendedMiningChannelSuccess or OpenMiningChannelError, got ",
                    );
                    s.append(m.display.as_str());
                    fail(s)
                },
            };
        }
    }
    open_extended_step(endpoint, stage, event, true)
}

// ---------------------------------------------------------------------------
// registry entries for this module
// ---------------------------------------------------------------------------

/// The scenarios of this module, in order.
pub open spec fn entries_spec() -> Seq<Scenario> {
    seq![Scenario::OpenExtendedRequestIdEcho, Scenario::ExtranonceSizeAtLeastMin]
}

/// The scenarios of this module, in order.
pub fn entries() -> (v: Vec<Scenario>)
    ensures
        v@ == entries_spec(),
{
    let mut v = Vec::new();
    v.push(Scenario::OpenExtendedRequestIdEcho);
    v.push(Scenario::ExtranonceSizeAtLeastMin);
    v
}

} // verus!
