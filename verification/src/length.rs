//! Type-dependent frame-length resolution.
//!
//! A frame carries no length prefix: the total length is looked up from the
//! type byte, with a subtype-dependent exception for `FlashCommand`, once the
//! first three bytes (sync, type, subtype) have been accumulated.

use crate::message::MessageTypes;
use vstd::prelude::*;

verus! {

/// Total expected frame length (sync, type, payload and checksum) for a
/// frame whose type byte is `type_byte` and whose third byte is `sub`.
/// `sub` only matters for `FlashCommand` frames, where it is the subtype
/// discriminator. An unknown type byte resolves to the fail-safe minimum
/// of 3, which keeps the reader accumulating byte by byte.
pub open spec fn spec_frame_len(type_byte: u8, sub: u8) -> u16 {
    match MessageTypes::spec_from_code(type_byte) {
        Some(t) => match t {
            MessageTypes::Sync => 8,
            MessageTypes::StartProgrammer => 6,
            MessageTypes::ProgrammerRunning => 6,
            MessageTypes::ProgrammerInit => 11,
            MessageTypes::FlashCommand => if sub == 2 {
                9
            } else if sub == 0x08 {
                6
            } else {
                22
            },
            MessageTypes::EraseBurnStart => 6,
            MessageTypes::FlashBurnData => 8,
            MessageTypes::ProgrammerStart => 6,
            MessageTypes::FlashRead => 6,
        },
        None => 3,
    }
}

/// Every resolved frame length is at least the three header bytes and at
/// most the largest table entry.
pub proof fn lemma_frame_len_bounds(type_byte: u8, sub: u8)
    ensures
        3 <= spec_frame_len(type_byte, sub) <= 22,
{
}

/// Resolves the total expected frame length from an accumulated buffer.
/// With fewer than three bytes buffered it returns the fail-safe minimum
/// of 3; from three bytes on, the type byte (and, for `FlashCommand`, the
/// subtype byte) select the length from the table.
pub fn decode_message_length(packet: &Vec<u8>) -> (r: u16)
    ensures
        packet@.len() < 3 ==> r == 3,
        packet@.len() >= 3 ==> r == spec_frame_len(packet@[1], packet@[2]),
{
    if packet.len() < 3 {
        return 3;  // fail safe
    }
    let packet_id1 = packet[1];
    let packet_id2 = packet[2];

    match MessageTypes::try_from(packet_id1) {
        Ok(type1) => match type1 {
            MessageTypes::Sync => 8,
            MessageTypes::StartProgrammer => 6,
            MessageTypes::ProgrammerRunning => 6,
            MessageTypes::ProgrammerInit => 11,
            MessageTypes::FlashCommand => {
                if packet_id2 == 2 {
                    9
                } else if packet_id2 == 0x08 {
                    6
                } else {
                    22
                }
            },
            MessageTypes::EraseBurnStart => 6,
            MessageTypes::FlashBurnData => 8,
            MessageTypes::ProgrammerStart => 6,
            MessageTypes::FlashRead => 6,
        },
        Err(_) => 3,
    }
}

} // verus!
