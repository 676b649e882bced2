//! What a test client sends, what it receives, and how it waits for the
//! endpoint.

use vstd::prelude::*;

use stratum_apps::stratum_core::common_messages_sv2::Protocol;

use crate::scenarios::ScenarioError;
use crate::text::{hex_byte, push_hex_byte};

verus! {

/// Message type of `SetupConnection.Success`.
pub const MESSAGE_TYPE_SETUP_CONNECTION_SUCCESS: u8 = 0x01;
/// Message type of `SetupConnection.Error`.
pub const MESSAGE_TYPE_SETUP_CONNECTION_ERROR: u8 = 0x02;
/// Message type of `OpenStandardMiningChannel.Success`.
pub const MESSAGE_TYPE_OPEN_STANDARD_MINING_CHANNEL_SUCCESS: u8 = 0x11;
/// Message type of `OpenMiningChannel.Error`.
pub const MESSAGE_TYPE_OPEN_MINING_CHANNEL_ERROR: u8 = 0x12;
/// Message type of `OpenExtendedMiningChannel.Success`.
pub const MESSAGE_TYPE_OPEN_EXTENDED_MINING_CHANNEL_SUCCESS: u8 = 0x14;
/// Message type of `NewMiningJob`.
pub const MESSAGE_TYPE_NEW_MINING_JOB: u8 = 0x15;

/// How long a scenario waits for a message from the endpoint before failing,
/// in milliseconds.
pub const DEFAULT_MSG_TIMEOUT_MILLIS: u64 = 10_000;

/// The pause between two looks at what the endpoint sent, in milliseconds.
pub const POLL_INTERVAL_MILLIS: u64 = 50;

/// Most bytes a `STR0_255` field holds.
pub const STR0_255_MAX_LEN: usize = 255;

/// A `SetupConnection` message, field by field.
#[derive(Debug)]
pub struct SetupConnectionRequest {
    pub protocol: Protocol,
    pub min_version: u16,
    pub max_version: u16,
    pub flags: u32,
    pub endpoint_host: String,
    pub endpoint_port: u16,
    pub vendor: String,
    pub hardware_version: String,
    pub firmware: String,
    pub device_id: String,
}

/// How a client opens its connection.
#[derive(Debug)]
pub enum ClientSetup {
    /// The mock downstream's own `SetupConnection` for `protocol` and
    /// `flags`.
    Defaults { protocol: Protocol, flags: u32 },
    /// This `SetupConnection`.
    Custom(SetupConnectionRequest),
}

/// A message the client sends to the endpoint.
#[derive(Debug)]
pub enum ClientMessage {
    OpenStandardMiningChannel {
        request_id: u32,
        user_identity: String,
        /// Hashes per second.
        nominal_hash_rate: u32,
        max_target: Vec<u8>,
    },
    OpenExtendedMiningChannel {
        request_id: u32,
        user_identity: String,
        /// Hashes per second.
        nominal_hash_rate: u32,
        max_target: Vec<u8>,
        min_extranonce_size: u16,
    },
}

/// The fields of a message from the endpoint that scenarios read.
#[derive(Debug)]
pub enum MessageBody {
    SetupConnectionSuccess { used_version: u16, flags: u32 },
    SetupConnectionError { flags: u32, error_code: Vec<u8> },
    OpenStandardMiningChannelSuccess { request_id: u32, channel_id: u32, group_channel_id: u32 },
    OpenExtendedMiningChannelSuccess {
        request_id: u32,
        channel_id: u32,
        group_channel_id: u32,
        extranonce_size: u16,
    },
    OpenMiningChannelError { request_id: u32, error_code: Vec<u8> },
    /// Any other message.
    Other,
}

/// A message from the endpoint: its type, its fields, and how it displays.
#[derive(Debug)]
pub struct ServerMessage {
    pub msg_type: u8,
    pub body: MessageBody,
    pub display: String,
}

impl ServerMessage {
    /// The message could have been decoded from a frame: an error code
    /// fits its `STR0_255` field.
    pub open spec fn well_formed(&self) -> bool {
        match self.body {
            MessageBody::SetupConnectionError { error_code, .. } => error_code@.len() <= 255,
            MessageBody::OpenMiningChannelError { error_code, .. } => error_code@.len() <= 255,
            _ => true,
        }
    }

    /// Tells whether the message could have been decoded from a frame.
    pub fn is_well_formed(&self) -> (b: bool)
        ensures
            b == self.well_formed(),
    {
        match &self.body {
            MessageBody::SetupConnectionError { error_code, .. } => error_code.len() <= STR0_255_MAX_LEN,
            MessageBody::OpenMiningChannelError { error_code, .. } => error_code.len() <= STR0_255_MAX_LEN,
            _ => true,
        }
    }
}

/// `r` is the `SetupConnection` that `setup_connection` builds.
pub open spec fn is_setup_connection(
    r: SetupConnectionRequest,
    protocol: Protocol,
    min_version: u16,
    max_version: u16,
    flags: u32,
) -> bool {
    &&& r.protocol == protocol
    &&& r.min_version == min_version
    &&& r.max_version == max_version
    &&& r.flags == flags
    &&& r.endpoint_host@ == "0.0.0.0"@
    &&& r.endpoint_port == 0
    &&& r.vendor@ == "interoperability-tests-sv2"@
    &&& r.hardware_version@ == ""@
    &&& r.firmware@ == ""@
    &&& r.device_id@ == ""@
}

/// Builds a `SetupConnection` with custom version range and flags, for
/// negotiation edge cases.
pub fn setup_connection(protocol: Protocol, min_version: u16, max_version: u16, flags: u32) -> (r:
    SetupConnectionRequest)
    ensures
        is_setup_connection(r, protocol, min_version, max_version, flags),
{
    SetupConnectionRequest {
        protocol,
        min_version,
        max_version,
        flags,
        endpoint_host: String::from_str("0.0.0.0"),
        endpoint_port: 0,
        vendor: String::from_str("interoperability-tests-sv2"),
        hardware_version: String::from_str(""),
        firmware: String::from_str(""),
        device_id: String::from_str(""),
    }
}

/// What a client waits for.
#[derive(Debug, Clone, Copy)]
pub enum Awaited {
    /// The next message, whatever its type.
    Any,
    /// A message of this type.
    Type(u8),
    /// A message of either of these types.
    EitherType(u8, u8),
}

/// `t` is a type `awaited` waits for.
pub open spec fn awaits_type(awaited: Awaited, t: u8) -> bool {
    match awaited {
        Awaited::Any => true,
        Awaited::Type(w) => t == w,
        Awaited::EitherType(w1, w2) => t == w1 || t == w2,
    }
}

/// Tells whether `t` is a type `awaited` waits for.
pub fn is_awaited_type(awaited: Awaited, t: u8) -> (b: bool)
    ensures
        b == awaits_type(awaited, t),
{
    match awaited {
        Awaited::Any => true,
        Awaited::Type(w) => t == w,
        Awaited::EitherType(w1, w2) => t == w1 || t == w2,
    }
}

/// What a waiting client learned from its last look.
#[derive(Debug)]
pub enum WaitEvent {
    /// Whether the endpoint has sent a message of an awaited type.
    Checked(bool),
    /// The type of the next message from the endpoint, if there was one;
    /// the message itself is taken off the queue.
    Drained(Option<u8>),
    /// The pause is over.
    Slept,
}

/// What a waiting client does next.
#[derive(Debug)]
pub enum WaitAction {
    /// Ask whether a message of an awaited type has arrived.
    CheckForType,
    /// Take the next message off the queue.
    DrainNext,
    /// Pause for `POLL_INTERVAL_MILLIS`.
    Sleep,
    /// The message just taken is the one waited for: hand it over.
    Deliver,
}

/// The first look of a wait: for given types, whether one has arrived;
/// for any message, the next one.
pub open spec fn wait_start_spec(awaited: Awaited) -> WaitAction {
    if awaited is Any { WaitAction::DrainNext } else { WaitAction::CheckForType }
}

/// The look that follows `event` while waiting for `awaited`.
pub open spec fn wait_next_spec(awaited: Awaited, event: WaitEvent) -> WaitAction {
    match event {
        WaitEvent::Checked(present) => if present || awaited is Any {
            WaitAction::DrainNext
        } else {
            WaitAction::Sleep
        },
        WaitEvent::Drained(None) => WaitAction::Sleep,
        WaitEvent::Drained(Some(t)) => if awaits_type(awaited, t) {
            WaitAction::Deliver
        } else {
            WaitAction::DrainNext
        },
        WaitEvent::Slept => wait_start_spec(awaited),
    }
}

/// Where a wait for `awaited` starts.
pub fn wait_start(awaited: Awaited) -> (a: WaitAction)
    ensures
        a == wait_start_spec(awaited),
{
    match awaited {
        Awaited::Any => WaitAction::DrainNext,
        _ => WaitAction::CheckForType,
    }
}

/// Decides the next look of a wait for `awaited`. Waiting for given types,
/// the client looks whether one has arrived, then drains the queue up to
/// it: messages received before it are consumed and discarded. Waiting for
/// any message, it hands over the first one.
pub fn wait_next(awaited: Awaited, event: WaitEvent) -> (a: WaitAction)
    ensures
        a == wait_next_spec(awaited, event),
        a is Deliver ==> (event matches WaitEvent::Drained(Some(t)) && awaits_type(awaited, t)),
{
    match event {
        WaitEvent::Checked(present) => {
            if present || matches!(awaited, Awaited::Any) {
                WaitAction::DrainNext
            } else {
                WaitAction::Sleep
            }
        },
        WaitEvent::Drained(None) => WaitAction::Sleep,
        WaitEvent::Drained(Some(t)) => if is_awaited_type(awaited, t) {
            WaitAction::Deliver
        } else {
            WaitAction::DrainNext
        },
        WaitEvent::Slept => wait_start(awaited),
    }
}

/// The error of a wait for `awaited` that ran out of time.
pub open spec fn timeout_message(awaited: Awaited) -> Seq<char> {
    match awaited {
        Awaited::Any => "timeout waiting for any message from endpoint"@,
        Awaited::Type(t) => "timeout waiting for message type 0x"@ + hex_byte(t) + " from endpoint"@,
        Awaited::EitherType(t1, t2) => "timeout waiting for message type 0x"@ + hex_byte(t1) + " or 0x"@
            + hex_byte(t2) + " from endpoint"@,
    }
}

/// The error of a wait for `awaited` that ran out of time.
pub fn timeout_error(awaited: Awaited) -> (e: ScenarioError)
    ensures
        e@ == timeout_message(awaited),
{
    match awaited {
        Awaited::Any => ScenarioError(String::from_str("timeout waiting for any message from endpoint")),
        Awaited::Type(t) => {
            let mut s = String::from_str("timeout waiting for message type 0x");
            push_hex_byte(&mut s, t);
            s.append(" from endpoint");
            ScenarioError(s)
        },
        Awaited::EitherType(t1, t2) => {
            let mut s = String::from_str("timeout waiting for message type 0x");
            push_hex_byte(&mut s, t1);
            s.append(" or 0x");
            push_hex_byte(&mut s, t2);
            s.append(" from endpoint");
            ScenarioError(s)
        },
    }
}

/// The error of a message that could not be sent.
pub fn send_error(reason: &str) -> (e: ScenarioError)
    ensures
        e@ == "failed to send message: "@ + reason@,
{
    let mut s = String::from_str("failed to send message: ");
    s.append(reason);
    ScenarioError(s)
}

/// The outcome of watching for `msg_type` for a while: passes when no such
/// message arrived.
pub fn silence_outcome(msg_type: u8, arrived: bool) -> (r: Result<(), ScenarioError>)
    ensures
        !arrived ==> r is Ok,
        arrived ==> (r matches Err(e) && e@ == "expected no message of type 0x"@ + hex_byte(msg_type)
            + ", but one arrived"@),
{
    if arrived {
        let mut s = String::from_str("expected no message of type 0x");
        push_hex_byte(&mut s, msg_type);
        s.append(", but one arrived");
        Err(ScenarioError(s))
    } else {
        Ok(())
    }
}

} // verus!

verus! {

/// How a wait proceeds, for every kind of wait: once a check finds an
/// awaited type present the queue is drained; a typed wait whose check
/// finds nothing pauses; a drained message is handed over exactly when it
/// has an awaited type (any type for `Any`), and is otherwise discarded
/// while the drain goes on; an empty queue means a pause; after a pause the
/// wait starts over, by checking for typed waits and by draining for `Any`.
pub proof fn lemma_wait_steps(awaited: Awaited, t: u8)
    ensures
        wait_next_spec(awaited, WaitEvent::Checked(true)) == WaitAction::DrainNext,
        !(awaited is Any) ==> wait_next_spec(awaited, WaitEvent::Checked(false)) == WaitAction::Sleep,
        wait_next_spec(awaited, WaitEvent::Drained(None)) == WaitAction::Sleep,
        wait_next_spec(awaited, WaitEvent::Drained(Some(t))) == (if (match awaited {
            Awaited::Any => true,
            Awaited::Type(w) => t == w,
            Awaited::EitherType(w1, w2) => t == w1 || t == w2,
        }) {
            WaitAction::Deliver
        } else {
            WaitAction::DrainNext
        }),
        wait_next_spec(awaited, WaitEvent::Slept) == (if awaited is Any {
            WaitAction::DrainNext
        } else {
            WaitAction::CheckForType
        }),
        wait_start_spec(awaited) == (if awaited is Any {
            WaitAction::DrainNext
        } else {
            WaitAction::CheckForType
        }),
{
}

/// The error of a wait that ran out of time names what was awaited.
pub proof fn lemma_timeout_names_the_awaited_types(awaited: Awaited)
    ensures
        awaited matches Awaited::Type(t) ==> timeout_message(awaited) == "timeout waiting for message type 0x"@
            + hex_byte(t) + " from endpoint"@,
        awaited matches Awaited::EitherType(t1, t2) ==> timeout_message(awaited)
            == "timeout waiting for message type 0x"@ + hex_byte(t1) + " or 0x"@ + hex_byte(t2)
            + " from endpoint"@,
        awaited is Any ==> timeout_message(awaited) == "timeout waiting for any message from endpoint"@,
{
}

} // verus!

verus! {

/// The strings of the `SetupConnection` that `setup_connection` builds
/// are ASCII and fit their `STR0_255` fields.
pub proof fn lemma_setup_strings_fit(
    r: SetupConnectionRequest,
    protocol: Protocol,
    min_version: u16,
    max_version: u16,
    flags: u32,
)
    requires
        is_setup_connection(r, protocol, min_version, max_version, flags),
    ensures
        vstd::utf8::encode_utf8(r.endpoint_host@).len() <= 255,
        vstd::utf8::encode_utf8(r.vendor@).len() <= 255,
        vstd::utf8::encode_utf8(r.hardware_version@).len() <= 255,
        vstd::utf8::encode_utf8(r.firmware@).len() <= 255,
        vstd::utf8::encode_utf8(r.device_id@).len() <= 255,
{
    reveal_strlit("0.0.0.0");
    reveal_strlit("interoperability-tests-sv2");
    reveal_strlit("");
    vstd::utf8::is_ascii_chars_encode_utf8(r.endpoint_host@);
    vstd::utf8::is_ascii_chars_encode_utf8(r.vendor@);
    vstd::utf8::is_ascii_chars_encode_utf8(r.hardware_version@);
    vstd::utf8::is_ascii_chars_encode_utf8(r.firmware@);
    vstd::utf8::is_ascii_chars_encode_utf8(r.device_id@);
}

} // verus!
