//! `OpenStandardMiningChannel` and `.Success` (M-OSMC-*, M-OSMCS-*).

use vstd::prelude::*;

use crate::client::{MessageBody, MESSAGE_TYPE_OPEN_STANDARD_MINING_CHANNEL_SUCCESS};
use crate::endpoint::Endpoint;
use crate::scenarios::mining::{
    identity_fits, identity_fits_field, identity_too_long_message, is_standard_open, standard_open,
};
use crate::scenarios::{
    default_connect, fail, finishes_with_detail, finishes_with_error, handle_off_script,
    is_default_connect, off_script, pass_with, Action, Event, Scenario,
};
use crate::text::{decimal, push_decimal};

verus! {

/// The `request_id` of the channel-open request.
pub const REQUEST_ID: u32 = 1;

// ---------------------------------------------------------------------------
// M-OSMCS-1 — `request_id` echo on `OpenStandardMiningChannel.Success`
// ---------------------------------------------------------------------------

/// The script of M-OSMCS-1: connect, open a standard channel with
/// `REQUEST_ID`, wait for `OpenStandardMiningChannel.Success`, and pass when
/// it echoes `REQUEST_ID`, reporting the channel ids.
pub open spec fn request_id_echo_transition(endpoint: Endpoint, stage: u8, event: Event, r: (u8, Action)) -> bool {
    if stage == 0 && event is Start {
        r.0 == 1 && is_default_connect(r.1, endpoint.app_type)
    } else if stage == 1 && event is Connected {
        if identity_fits(endpoint.user_identity@) {
            r.0 == 2 && (r.1 matches Action::Send(m) && is_standard_open(m, REQUEST_ID, endpoint.user_identity@))
        } else {
            finishes_with_error(r, identity_too_long_message())
        }
    } else if stage == 2 && event is Sent {
        r == (3u8, Action::ExpectFromServer(MESSAGE_TYPE_OPEN_STANDARD_MINING_CHANNEL_SUCCESS))
    } else if stage == 3 && event is Received {
        let m = event->Received_0;
        match m.body {
            MessageBody::OpenStandardMiningChannelSuccess { request_id, channel_id, group_channel_id } =>
                if request_id != REQUEST_ID {
                    finishes_with_error(r, "request_id must echo 1, got "@ + decimal(request_id as nat))
                } else {
                    finishes_with_detail(
                        r,
                        "channel_id="@ + decimal(channel_id as nat) + ", group_channel_id="@ + decimal(
                            group_channel_id as nat,
                        ),
                    )
                },
            _ => finishes_with_error(r, "expected OpenStandardMiningChannelSuccess, got "@ + m.display@),
        }
    } else {
        off_script(event, r)
    }
}

/// The endpoint MUST echo `request_id` in `OpenStandardMiningChannel.Success`.
///
/// Covers: M-OSMCS-1
pub fn request_id_echo(endpoint: &Endpoint, stage: u8, event: Event) -> (r: (u8, Action))
    ensures
        request_id_echo_transition(*endpoint, stage, event, r),
{
    match event {
        Event::Start if stage == 0 => (1, default_connect(endpoint)),
        Event::Connected if stage == 1 => {
            if identity_fits_field(&endpoint.user_identity) {
                (2, Action::Send(standard_open(REQUEST_ID, &endpoint.user_identity)))
            } else {
                fail(String::from_str("user_identity longer than 255 bytes"))
            }
        },
        Event::Sent if stage == 2 => (3, Action::ExpectFromServer(MESSAGE_TYPE_OPEN_STANDARD_MINING_CHANNEL_SUCCESS)),
        Event::Received(m) if stage == 3 => match m.body {
            MessageBody::OpenStandardMiningChannelSuccess { request_id, channel_id, group_channel_id } => {
                if request_id != REQUEST_ID {
                    let mut s = String::from_str("request_id must echo 1, got ");
                    push_decimal(&mut s, request_id as u64);
                    fail(s)
                } else {
                    let mut s = String::from_str("channel_id=");
                    push_decimal(&mut s, channel_id as u64);
                    s.append(", group_channel_id=");
                    push_decimal(&mut s, group_channel_id as u64);
                    pass_with(s)
                }
            },
            _ => {
                let mut s = String::from_str("expected OpenStandardMiningChannelSuccess, got ");
                s.append(m.display.as_str());
                fail(s)
            },
        },
        other => handle_off_script(other),
    }
}

// ---------------------------------------------------------------------------
// registry entries for this module
// ---------------------------------------------------------------------------

/// The scenarios of this module, in order.
pub open spec fn entries_spec() -> Seq<Scenario> {
    seq![Scenario::OpenStandardRequestIdEcho]
}

/// The scenarios of this module, in order.
pub fn entries() -> (v: Vec<Scenario>)
    ensures
        v@ == entries_spec(),
{
    let mut v = Vec::new();
    v.push(Scenario::OpenStandardRequestIdEcho);
    v
}

} // verus!
