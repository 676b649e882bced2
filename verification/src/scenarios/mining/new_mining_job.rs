//! `NewMiningJob` (M-NMJ-*).

use vstd::prelude::*;

use crate::client::{MESSAGE_TYPE_NEW_MINING_JOB, MESSAGE_TYPE_OPEN_STANDARD_MINING_CHANNEL_SUCCESS};
use crate::endpoint::Endpoint;
use crate::scenarios::mining::{
    identity_fits, identity_fits_field, identity_too_long_message, is_standard_open, standard_open,
};
use crate::scenarios::{
    default_connect, fail, finishes_passed, finishes_with_error, handle_off_script, is_default_connect,
    off_script, Action, Event, Scenario, DONE,
};
use crate::text::{hex_byte, push_hex_byte};

verus! {

/// The `request_id` of the channel-open request.
pub const REQUEST_ID: u32 = 1;

// ---------------------------------------------------------------------------
// M-NMJ-1 — first post-open message is `NewMiningJob`
// ---------------------------------------------------------------------------

/// The script of M-NMJ-1: connect, open a standard channel, drain its
/// `OpenStandardMiningChannel.Success`, and pass when the next message is a
/// `NewMiningJob`.
pub open spec fn first_message_after_open_is_job_transition(
    endpoint: Endpoint,
    stage: u8,
    event: Event,
    r: (u8, Action),
) -> bool {
    if stage == 0 && event is Start {
        r.0 == 1 && is_default_connect(r.1, endpoint.app_type)
    } else if stage == 1 && event is Connected {
        if identity_fits(endpoint.user_identity@) {
            r.0 == 2 && (r.1 matches Action::Send(m) && is_standard_open(m, REQUEST_ID, endpoint.user_identity@))
        } else {
            finishes_with_error(r, identity_too_long_message())
        }
    } else if stage == 2 && event is Sent {
        r == (3u8, Action::ExpectFromServer(MESSAGE_TYPE_OPEN_STANDARD_MINING_CHANNEL_SUCCESS))
    } else if stage == 3 && event is Received {
        r == (4u8, Action::NextFromServer)
    } else if stage == 4 && event is Received {
        let t = event->Received_0.msg_type;
        if t != MESSAGE_TYPE_NEW_MINING_JOB {
            finishes_with_error(
                r,
                "expected NewMiningJob (0x15) after standard channel open, got 0x"@ + hex_byte(t),
            )
        } else {
            finishes_passed(r)
        }
    } else {
        off_script(event, r)
    }
}

/// §5.3.15: the first message after a standard channel opens MUST be a
/// `NewMiningJob`.
///
/// Covers: M-NMJ-1
pub fn first_message_after_open_is_job(endpoint: &Endpoint, stage: u8, event: Event) -> (r: (u8, Action))
    ensures
        first_message_after_open_is_job_transition(*endpoint, stage, event, r),
{
    match event {
        Event::Start if stage == 0 => (1, default_connect(endpoint)),
        Event::Connected if stage == 1 => {
            if identity_fits_field(&endpoint.user_identity) {
                (2, Action::Send(standard_open(REQUEST_ID, &endpoint.user_identity)))
            } else {
                fail(String::from_str("user_identity longer than 255 bytes"))
            }
        },
        Event::Sent if stage == 2 => (3, Action::ExpectFromServer(MESSAGE_TYPE_OPEN_STANDARD_MINING_CHANNEL_SUCCESS)),
        // drain the success frame
        Event::Received(_) if stage == 3 => (4, Action::NextFromServer),
        Event::Received(m) if stage == 4 => {
            if m.msg_type != MESSAGE_TYPE_NEW_MINING_JOB {
                let mut s = String::from_str("expected NewMiningJob (0x15) after standard channel open, got 0x");
                push_hex_byte(&mut s, m.msg_type);
                fail(s)
            } else {
                (DONE, Action::Finish(Ok(None)))
            }
        },
        other => handle_off_script(other),
    }
}

// ---------------------------------------------------------------------------
// registry entries for this module
// ---------------------------------------------------------------------------

/// The scenarios of this module, in order.
pub open spec fn entries_spec() -> Seq<Scenario> {
    seq![Scenario::FirstMessageAfterOpenIsJob]
}

/// The scenarios of this module, in order.
pub fn entries() -> (v: Vec<Scenario>)
    ensures
        v@ == entries_spec(),
{
    let mut v = Vec::new();
    v.push(Scenario::FirstMessageAfterOpenIsJob);
    v
}

} // verus!
