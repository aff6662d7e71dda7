//! Typed messages and their wire encoding.
//!
//! A frame on the wire is `[sync][type][payload...][checksum]`. The payload
//! field of a decoded message deliberately begins at the type byte (offset 1),
//! not after it: callers must account for that offset when interpreting
//! payload content. This quirk is preserved exactly for wire compatibility.

use crate::checksum::{calculate_message_checksum, checksum_spec, sum_bytes};
use vstd::arithmetic::div_mod::lemma_mod_division_less_than_divisor;
use vstd::arithmetic::div_mod::lemma_mod_multiples_vanish;
use vstd::prelude::*;

verus! {

/// The known frame types, each with a fixed one-byte wire code.
#[derive(Debug, PartialEq, Eq, Structural, Clone, Copy)]
pub enum MessageTypes {
    /// Used at boot for locking with the ROM (wire code 0x50).
    Sync,
    /// Flash read response; may be followed by trailing bulk data (0x03).
    FlashRead,
    /// 0x53.
    StartProgrammer,
    /// 0x54.
    ProgrammerRunning,
    /// 0x55.
    ProgrammerStart,
    /// 0x60.
    ProgrammerInit,
    /// Pushes extra commands to the flash controller (0x65).
    FlashCommand,
    /// 0x61.
    EraseBurnStart,
    /// 0x62.
    FlashBurnData,
}

impl MessageTypes {
    /// The one-byte wire code of this type.
    pub open spec fn spec_code(self) -> u8 {
        match self {
            MessageTypes::Sync => 0x50,
            MessageTypes::FlashRead => 0x03,
            MessageTypes::StartProgrammer => 0x53,
            MessageTypes::ProgrammerRunning => 0x54,
            MessageTypes::ProgrammerStart => 0x55,
            MessageTypes::ProgrammerInit => 0x60,
            MessageTypes::FlashCommand => 0x65,
            MessageTypes::EraseBurnStart => 0x61,
            MessageTypes::FlashBurnData => 0x62,
        }
    }

    /// The type a wire code stands for, if it is a known one.
    pub open spec fn spec_from_code(v: u8) -> Option<MessageTypes> {
        if v == 0x50 {
            Some(MessageTypes::Sync)
        } else if v == 0x03 {
            Some(MessageTypes::FlashRead)
        } else if v == 0x53 {
            Some(MessageTypes::StartProgrammer)
        } else if v == 0x54 {
            Some(MessageTypes::ProgrammerRunning)
        } else if v == 0x55 {
            Some(MessageTypes::ProgrammerStart)
        } else if v == 0x60 {
            Some(MessageTypes::ProgrammerInit)
        } else if v == 0x65 {
            Some(MessageTypes::FlashCommand)
        } else if v == 0x61 {
            Some(MessageTypes::EraseBurnStart)
        } else if v == 0x62 {
            Some(MessageTypes::FlashBurnData)
        } else {
            None
        }
    }

    /// Emits the wire code of this type.
    pub fn code(self) -> (r: u8)
        ensures
            r == self.spec_code(),
    {
        match self {
            MessageTypes::Sync => 0x50,
            MessageTypes::FlashRead => 0x03,
            MessageTypes::StartProgrammer => 0x53,
            MessageTypes::ProgrammerRunning => 0x54,
            MessageTypes::ProgrammerStart => 0x55,
            MessageTypes::ProgrammerInit => 0x60,
            MessageTypes::FlashCommand => 0x65,
            MessageTypes::EraseBurnStart => 0x61,
            MessageTypes::FlashBurnData => 0x62,
        }
    }

    /// Maps a wire code to its message type; unknown codes are rejected.
    pub fn try_from(v: u8) -> (r: Result<MessageTypes, ()>)
        ensures
            r is Ok <==> MessageTypes::spec_from_code(v) is Some,
            r is Ok ==> Some(r->Ok_0) == MessageTypes::spec_from_code(v),
    {
        if v == 0x50 {
            Ok(MessageTypes::Sync)
        } else if v == 0x03 {
            Ok(MessageTypes::FlashRead)
        } else if v == 0x53 {
            Ok(MessageTypes::StartProgrammer)
        } else if v == 0x54 {
            Ok(MessageTypes::ProgrammerRunning)
        } else if v == 0x55 {
            Ok(MessageTypes::ProgrammerStart)
        } else if v == 0x60 {
            Ok(MessageTypes::ProgrammerInit)
        } else if v == 0x65 {
            Ok(MessageTypes::FlashCommand)
        } else if v == 0x61 {
            Ok(MessageTypes::EraseBurnStart)
        } else if v == 0x62 {
            Ok(MessageTypes::FlashBurnData)
        } else {
            Err(())
        }
    }
}

/// The wire code of every type maps back to that type.
pub proof fn lemma_code_round_trip(t: MessageTypes)
    ensures
        MessageTypes::spec_from_code(t.spec_code()) == Some(t),
{
}

/// One framed message: sync marker, type, payload bytes, and checksum.
#[derive(Debug, PartialEq, Clone)]
pub struct BesMessage {
    pub sync: u8,
    pub type1: MessageTypes,
    pub payload: Vec<u8>,
    pub checksum: u8,
}

impl BesMessage {
    /// The wire bytes of this message: sync, type code, payload, checksum.
    pub open spec fn spec_to_vec(self) -> Seq<u8> {
        seq![self.sync, self.type1.spec_code()] + self.payload@ + seq![self.checksum]
    }

    /// Encodes the message into its wire byte layout.
    pub fn to_vec(&self) -> (r: Vec<u8>)
        ensures
            r@ == self.spec_to_vec(),
    {
        let mut result: Vec<u8> = Vec::new();
        result.push(self.sync);
        result.push(self.type1.code());
        proof {
            assert(result@ =~= seq![self.sync, self.type1.spec_code()] + self.payload@.take(0));
        }
        let mut i: usize = 0;
        while i < self.payload.len()
            invariant
                i <= self.payload@.len(),
                result@ == seq![self.sync, self.type1.spec_code()] + self.payload@.take(i as int),
            decreases self.payload@.len() - i,
        {
            result.push(self.payload[i]);
            proof {
                assert(result@ =~= seq![self.sync, self.type1.spec_code()] + self.payload@.take(
                    i as int + 1,
                ));
            }
            i = i + 1;
        }
        result.push(self.checksum);
        proof {
            assert(self.payload@.take(self.payload@.len() as int) =~= self.payload@);
            assert(result@ =~= self.spec_to_vec());
        }
        result
    }

    /// Recomputes and overwrites the checksum field from the message's
    /// current encoded form minus the checksum byte. Afterwards the frame
    /// satisfies the checksum invariant: the sum of all its bytes is
    /// `0xFF` modulo 256.
    pub fn set_checksum(&mut self)
        ensures
            final(self).sync == old(self).sync,
            final(self).type1 == old(self).type1,
            final(self).payload == old(self).payload,
            final(self).checksum == checksum_spec(old(self).spec_to_vec().drop_last()),
            sum_bytes(final(self).spec_to_vec()) % 256 == 0xFF,
    {
        let mut v = self.to_vec();
        v.pop();
        proof {
            assert(v@ =~= old(self).spec_to_vec().drop_last());
        }
        self.checksum = calculate_message_checksum(&v);
        proof {
            assert(self.spec_to_vec().drop_last() =~= old(self).spec_to_vec().drop_last());
            assert(self.spec_to_vec().last() == self.checksum);
            lemma_checksum_closes_frame(self.spec_to_vec());
        }
    }
}

/// The type a decoded frame is given for a type byte: a known wire code maps
/// to its type; an unrecognized byte is best-effort defaulted to `Sync`.
/// This silent fallback mirrors the wire behaviour of the layer; callers that
/// must not tolerate protocol drift should check the raw type byte themselves.
pub open spec fn spec_decoded_type(v: u8) -> MessageTypes {
    match MessageTypes::spec_from_code(v) {
        Some(t) => t,
        None => MessageTypes::Sync,
    }
}

impl BesMessage {
    /// Decodes a completed frame buffer into a message.
    ///
    /// The payload slice deliberately starts at the type byte (offset 1) and
    /// runs up to, but not including, the checksum byte: the type byte is
    /// part of the payload, a quirk preserved for wire compatibility.
    pub fn from_vec(d: Vec<u8>) -> (r: BesMessage)
        requires
            d@.len() >= 2,
        ensures
            r.sync == d@[0],
            r.type1 == spec_decoded_type(d@[1]),
            r.payload@ == d@.subrange(1, d@.len() - 1),
            r.checksum == d@.last(),
    {
        let mut msg = BesMessage {
            sync: d[0],
            type1: MessageTypes::Sync,
            payload: Vec::new(),
            checksum: d[d.len() - 1],
        };

        match MessageTypes::try_from(d[1]) {
            Ok(type1) => {
                msg.type1 = type1;
            },
            Err(_) => {},
        }

        msg.payload = crate::bytes_range(&d, 1, d.len() - 1);

        msg
    }
}

/// Round trip through the wire layout: decoding the encoding of a message
/// recovers its sync byte, type and checksum exactly, and the decoded
/// payload is the encoded payload with the type code prepended. The type
/// byte reappears inside the payload because a decoded payload deliberately
/// begins at the type byte (offset 1), so full structural equality between
/// a message and its decoded encoding never holds: the payloads differ by
/// that leading byte.
pub proof fn lemma_round_trip(m: BesMessage)
    ensures
        m.spec_to_vec()[0] == m.sync,
        spec_decoded_type(m.spec_to_vec()[1]) == m.type1,
        m.spec_to_vec().subrange(1, m.spec_to_vec().len() - 1) == seq![m.type1.spec_code()]
            + m.payload@,
        m.spec_to_vec().last() == m.checksum,
{
    lemma_code_round_trip(m.type1);
    assert(m.spec_to_vec().subrange(1, m.spec_to_vec().len() - 1) =~= seq![m.type1.spec_code()]
        + m.payload@);
}

/// A frame whose last byte is the checksum of the rest sums to `0xFF`
/// modulo 256: the checksum closes the frame.
pub proof fn lemma_checksum_closes_frame(f: Seq<u8>)
    requires
        f.len() >= 1,
        f.last() == checksum_spec(f.drop_last()),
    ensures
        sum_bytes(f) % 256 == 0xFF,
{
    let p = f.drop_last();
    let s = sum_bytes(p);
    crate::checksum::lemma_sum_bytes_nonneg(p);
    lemma_mod_division_less_than_divisor(s, 256);
    assert(sum_bytes(f) == s + (0xFF - s % 256));
    vstd::arithmetic::div_mod::lemma_fundamental_div_mod(s, 256);
    assert(sum_bytes(f) == 256 * (s / 256) + 0xFF);
    lemma_mod_multiples_vanish(s / 256, 0xFF, 256);
    vstd::arithmetic::div_mod::lemma_small_mod(0xFF, 256);
}

} // verus!
