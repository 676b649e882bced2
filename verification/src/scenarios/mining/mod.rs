//! Mining Protocol Messages (§5.3).

pub mod new_mining_job;
pub mod open_extended_mining_channel;
pub mod open_standard_mining_channel;

use vstd::prelude::*;
use vstd::utf8::encode_utf8;

use crate::client::ClientMessage;

verus! {

/// `nominal_hash_rate` announced when opening a channel, in hashes per
/// second.
pub const NOMINAL_HASH_RATE: u32 = 1_000_000;

/// `max_target` announced when opening a channel: all 32 bytes 0xff.
pub open spec fn max_target_spec() -> Seq<u8> {
    Seq::new(32, |i: int| 0xffu8)
}

/// A user identity fits the `STR0_255` field of a channel-open message.
pub open spec fn identity_fits(identity: Seq<char>) -> bool {
    encode_utf8(identity).len() <= 255
}

/// The error of a scenario whose user identity does not fit its field.
pub open spec fn identity_too_long_message() -> Seq<char> {
    "user_identity longer than 255 bytes"@
}

/// `m` opens a standard channel with `request_id`, `identity`, the
/// nominal hash rate and the widest target.
pub open spec fn is_standard_open(m: ClientMessage, request_id: u32, identity: Seq<char>) -> bool {
    m matches ClientMessage::OpenStandardMiningChannel {
        request_id: r,
        user_identity,
        nominal_hash_rate,
        max_target,
    } && r == request_id && user_identity@ == identity && nominal_hash_rate == NOMINAL_HASH_RATE
        && max_target@ == max_target_spec()
}

/// `m` opens an extended channel with `request_id`, `identity`, the
/// nominal hash rate, the widest target and `min_extranonce_size`.
pub open spec fn is_extended_open(
    m: ClientMessage,
    request_id: u32,
    identity: Seq<char>,
    min_extranonce_size: u16,
) -> bool {
    m matches ClientMessage::OpenExtendedMiningChannel {
        request_id: r,
        user_identity,
        nominal_hash_rate,
        max_target,
        min_extranonce_size: min,
    } && r == request_id && user_identity@ == identity && nominal_hash_rate == NOMINAL_HASH_RATE
        && max_target@ == max_target_spec() && min == min_extranonce_size
}

/// The widest target: 32 bytes of 0xff.
pub fn max_target() -> (v: Vec<u8>)
    ensures
        v@ == max_target_spec(),
{
    let mut v: Vec<u8> = Vec::new();
    let mut i: usize = 0;
    while i < 32
        invariant
            0 <= i <= 32,
            v@ == Seq::new(i as nat, |j: int| 0xffu8),
        decreases 32 - i,
    {
        v.push(0xff);
        i = i + 1;
        assert(v@ =~= Seq::new(i as nat, |j: int| 0xffu8));
    }
    v
}

/// Tells whether `identity` fits the `STR0_255` field of a channel-open
/// message.
pub fn identity_fits_field(identity: &String) -> (b: bool)
    ensures
        b == identity_fits(identity@),
{
    identity.as_str().as_bytes().len() <= 255
}

/// A standard channel open for `identity`.
pub fn standard_open(request_id: u32, identity: &String) -> (m: ClientMessage)
    ensures
        is_standard_open(m, request_id, identity@),
{
    ClientMessage::OpenStandardMiningChannel {
        request_id,
        user_identity: identity.clone(),
        nominal_hash_rate: NOMINAL_HASH_RATE,
        max_target: max_target(),
    }
}

/// An extended channel open for `identity`.
pub fn extended_open(request_id: u32, identity: &String, min_extranonce_size: u16) -> (m: ClientMessage)
    ensures
        is_extended_open(m, request_id, identity@, min_extranonce_size),
{
    ClientMessage::OpenExtendedMiningChannel {
        request_id,
        user_identity: identity.clone(),
        nominal_hash_rate: NOMINAL_HASH_RATE,
        max_target: max_target(),
        min_extranonce_size,
    }
}

} // verus!
