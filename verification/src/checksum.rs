//! Single-byte checksum over a frame: `0xFF - (sum of bytes mod 256)`.

use crate::bytes_range;
use crate::errors::BESLinkError;
use vstd::prelude::*;

verus! {

/// Mathematical sum of a byte sequence (no truncation).
pub open spec fn sum_bytes(s: Seq<u8>) -> int
    decreases s.len(),
{
    if s.len() == 0 {
        0
    } else {
        sum_bytes(s.drop_last()) + s.last()
    }
}

/// The wire checksum of a byte sequence: `0xFF` minus the modulo-256 sum.
pub open spec fn checksum_spec(s: Seq<u8>) -> u8 {
    (0xFF - sum_bytes(s) % 256) as u8
}

pub proof fn lemma_sum_bytes_nonneg(s: Seq<u8>)
    ensures
        sum_bytes(s) >= 0,
    decreases s.len(),
{
    if s.len() > 0 {
        lemma_sum_bytes_nonneg(s.drop_last());
    }
}

/// Computes the frame checksum: the running sum of all bytes, truncated to
/// 8 bits after each addition, subtracted from `0xFF`.
pub fn calculate_message_checksum(packet: &Vec<u8>) -> (r: u8)
    ensures
        r == checksum_spec(packet@),
{
    let mut sum: u32 = 0;
    let mut i: usize = 0;
    while i < packet.len()
        invariant
            i <= packet@.len(),
            sum == sum_bytes(packet@.take(i as int)) % 256,
        decreases packet@.len() - i,
    {
        let b = packet[i];
        proof {
            lemma_sum_bytes_nonneg(packet@.take(i as int));
            vstd::arithmetic::div_mod::lemma_mod_division_less_than_divisor(
                sum_bytes(packet@.take(i as int)),
                256,
            );
            assert(packet@.take(i + 1).drop_last() =~= packet@.take(i as int));
            assert(packet@.take(i + 1).last() == packet@[i as int]);
            vstd::arithmetic::div_mod::lemma_add_mod_noop(
                sum_bytes(packet@.take(i as int)),
                b as int,
                256,
            );
            vstd::arithmetic::div_mod::lemma_mod_twice(b as int, 256);
            assert(b as int % 256 == b as int) by {
                vstd::arithmetic::div_mod::lemma_small_mod(b as nat, 256);
            }
        }
        let next: u32 = sum + b as u32;
        assert(next & 0xFF == next % 256) by (bit_vector);
        sum = next & 0xFF;
        i = i + 1;
    }
    proof {
        assert(packet@.take(packet@.len() as int) =~= packet@);
        lemma_sum_bytes_nonneg(packet@);
        vstd::arithmetic::div_mod::lemma_mod_division_less_than_divisor(sum_bytes(packet@), 256);
    }
    (0xFF - sum) as u8
}

/// Verifies a completed frame: the checksum computed over all bytes but the
/// last must equal the last byte. On mismatch the error carries the full
/// offending frame together with the received (`got`) and computed
/// (`wanted`) values, for diagnostics.
pub fn validate_packet_checksum(packet: &Vec<u8>) -> (r: Result<(), BESLinkError>)
    requires
        packet@.len() >= 1,
    ensures
        r is Ok <==> checksum_spec(packet@.drop_last()) == packet@.last(),
        r is Err ==> (r matches Err(BESLinkError::BadChecksumError { failed_packet, got, wanted })
            && failed_packet@ == packet@ && got == packet@.last() && wanted == checksum_spec(
            packet@.drop_last(),
        )),
{
    let inner_packet = bytes_range(packet, 0, packet.len() - 1);
    proof {
        assert(inner_packet@ =~= packet@.drop_last());
    }
    let checksum = calculate_message_checksum(&inner_packet);
    if checksum == packet[packet.len() - 1] {
        return Ok(());
    }
    let e = BESLinkError::BadChecksumError {
        failed_packet: bytes_range(packet, 0, packet.len()),
        got: packet[packet.len() - 1],
        wanted: checksum,
    };
    proof {
        assert(packet@.subrange(0, packet@.len() as int) =~= packet@);
    }
    Err(e)
}

/// Replacing one byte of a sequence shifts its sum by exactly the
/// difference of the two bytes.
pub proof fn lemma_sum_bytes_update(s: Seq<u8>, i: int, b: u8)
    requires
        0 <= i < s.len(),
    ensures
        sum_bytes(s.update(i, b)) == sum_bytes(s) - s[i] + b,
    decreases s.len(),
{
    if i == s.len() - 1 {
        assert(s.update(i, b).drop_last() =~= s.drop_last());
        assert(s.update(i, b).last() == b);
    } else {
        assert(s.update(i, b).drop_last() =~= s.drop_last().update(i, b));
        assert(s.update(i, b).last() == s.last());
        lemma_sum_bytes_update(s.drop_last(), i, b);
    }
}

/// Shifting a non-negative sum by a non-zero amount smaller than the
/// modulus changes its remainder.
proof fn lemma_small_shift_changes_mod(s: int, d: int)
    requires
        s >= 0,
        d != 0,
        -256 < d < 256,
    ensures
        (s + d) % 256 != s % 256,
{
    vstd::arithmetic::div_mod::lemma_fundamental_div_mod(s, 256);
    vstd::arithmetic::div_mod::lemma_fundamental_div_mod(s + d, 256);
    vstd::arithmetic::div_mod::lemma_mod_division_less_than_divisor(s, 256);
    vstd::arithmetic::div_mod::lemma_mod_division_less_than_divisor(s + d, 256);
    if (s + d) % 256 == s % 256 {
        let q1 = s / 256;
        let q2 = (s + d) / 256;
        assert(d == 256 * (q2 - q1));
        assert(q2 - q1 != 0);
        if q2 - q1 >= 1 {
            assert(256 * (q2 - q1) >= 256);
        } else {
            assert(q2 - q1 <= -1);
            assert(256 * (q2 - q1) <= -256);
        }
        assert(false);
    }
}

/// Replacing one byte of a sequence with a different value changes its
/// checksum.
pub proof fn lemma_checksum_detects_change(s: Seq<u8>, i: int, b: u8)
    requires
        0 <= i < s.len(),
        b != s[i],
    ensures
        checksum_spec(s.update(i, b)) != checksum_spec(s),
{
    lemma_sum_bytes_update(s, i, b);
    lemma_sum_bytes_nonneg(s);
    lemma_sum_bytes_nonneg(s.update(i, b));
    lemma_small_shift_changes_mod(sum_bytes(s), b - s[i]);
    vstd::arithmetic::div_mod::lemma_mod_division_less_than_divisor(sum_bytes(s), 256);
    vstd::arithmetic::div_mod::lemma_mod_division_less_than_divisor(sum_bytes(s.update(i, b)), 256);
}

/// Checksum mismatch detection: flipping any single bit of a valid frame
/// (without recomputing the checksum) makes verification fail, whether the
/// flipped bit sits in the covered bytes or in the checksum byte itself.
/// `validate_packet_checksum` then reports both the received and the
/// computed value.
pub proof fn lemma_bit_flip_detected(f: Seq<u8>, i: int, k: u8)
    requires
        f.len() >= 1,
        checksum_spec(f.drop_last()) == f.last(),
        0 <= i < f.len(),
        k < 8,
    ensures
        ({
            let f2 = f.update(i, f[i] ^ (1u8 << k));
            checksum_spec(f2.drop_last()) != f2.last()
        }),
{
    let b = f[i];
    let b2 = b ^ (1u8 << k);
    assert(b2 != b) by (bit_vector)
        requires
            b2 == b ^ (1u8 << k),
            k < 8,
    ;
    let f2 = f.update(i, b2);
    if i == f.len() - 1 {
        assert(f2.drop_last() =~= f.drop_last());
        assert(f2.last() == b2);
    } else {
        assert(f2.drop_last() =~= f.drop_last().update(i, b2));
        assert(f2.last() == f.last());
        lemma_checksum_detects_change(f.drop_last(), i, b2);
    }
}

} // verus!
