//! Frame-boundary recovery from an unstructured byte stream.
//!
//! The transport delivers bytes one at a time, interleaved with read
//! timeouts. The [`FrameAccumulator`] is the decision core of that read
//! loop: it hunts for the sync byte, accumulates the header, resolves the
//! expected total length once three bytes are buffered, and reports
//! completion. The caller owns the transport; on a timeout it simply calls
//! again, so a timeout can never disturb the accumulated buffer.

use crate::checksum::{checksum_spec, validate_packet_checksum};
use crate::errors::BESLinkError;
use crate::length::{decode_message_length, lemma_frame_len_bounds, spec_frame_len};
use crate::message::{spec_decoded_type, BesMessage, MessageTypes};
use crate::BES_SYNC;
use vstd::prelude::*;

verus! {

/// Expected total frame length for a partially accumulated buffer: the
/// fail-safe minimum of 3 until the header is complete, then the length the
/// type (and subtype) byte resolve to.
pub open spec fn expected_len(buf: Seq<u8>) -> int {
    if buf.len() < 3 {
        3
    } else {
        spec_frame_len(buf[1], buf[2]) as int
    }
}

/// A buffer holds a complete frame once it has reached the expected length.
pub open spec fn buf_complete(buf: Seq<u8>) -> bool {
    buf.len() >= expected_len(buf)
}

/// One byte arriving at the accumulator: while the buffer is empty every
/// byte other than the sync marker is discarded (this is how sync is
/// (re)acquired after noise); once the sync byte is seen, every byte is kept.
pub open spec fn step(buf: Seq<u8>, b: u8) -> Seq<u8> {
    if buf.len() == 0 && b != BES_SYNC {
        buf
    } else {
        buf.push(b)
    }
}

/// The buffer after feeding a byte sequence, stopping at the first complete
/// frame; bytes arriving after completion are not consumed. This models any
/// read loop that, while [`FrameAccumulator::is_complete`] is false, pushes
/// the delivered bytes in order: `push_byte` advances the buffer by exactly
/// [`step`].
pub open spec fn feed(buf: Seq<u8>, s: Seq<u8>) -> Seq<u8>
    decreases s.len(),
{
    if s.len() == 0 || buf_complete(buf) {
        buf
    } else {
        feed(step(buf, s.first()), s.drop_first())
    }
}

/// Accumulates one frame from a byte stream, one byte at a time.
pub struct FrameAccumulator {
    /// The bytes accepted so far; empty until the sync byte is seen.
    pub packet: Vec<u8>,
    /// The expected total frame length: 3 until the header is buffered,
    /// then the resolved length.
    pub packet_len: usize,
}

impl FrameAccumulator {
    /// The accumulator's bookkeeping matches its buffer: the expected
    /// length is the one the buffer resolves to, the buffer never grows
    /// past it, and everything buffered starts with the sync byte.
    pub open spec fn wf(self) -> bool {
        &&& self.packet_len == expected_len(self.packet@)
        &&& self.packet@.len() <= self.packet_len
        &&& self.packet@.len() > 0 ==> self.packet@[0] == BES_SYNC
    }

    /// The buffer holds a complete frame.
    pub open spec fn spec_complete(self) -> bool {
        buf_complete(self.packet@)
    }

    /// Starts hunting for a frame: nothing buffered, minimum expectations.
    pub fn new() -> (r: FrameAccumulator)
        ensures
            r.wf(),
            r.packet@ == Seq::<u8>::empty(),
            !r.spec_complete(),
    {
        FrameAccumulator { packet: Vec::new(), packet_len: 3 }
    }

    /// Reports whether the buffered frame is complete.
    pub fn is_complete(&self) -> (r: bool)
        requires
            self.wf(),
        ensures
            r == self.spec_complete(),
    {
        self.packet.len() >= self.packet_len
    }

    /// Accepts one byte from the transport: discards it while hunting for
    /// sync, appends it otherwise, and resolves the expected frame length
    /// as soon as the three header bytes are in.
    pub fn push_byte(&mut self, b: u8)
        requires
            old(self).wf(),
            !old(self).spec_complete(),
        ensures
            final(self).wf(),
            final(self).packet@ == step(old(self).packet@, b),
    {
        if !(self.packet.len() == 0 && b != BES_SYNC) {
            self.packet.push(b);
        }
        if self.packet.len() == 3 && self.packet_len == 3 {
            let resolved = decode_message_length(&self.packet);
            proof {
                lemma_frame_len_bounds(self.packet@[1], self.packet@[2]);
            }
            self.packet_len = resolved as usize;
        }
    }

    /// Finishes a completed frame: validates the checksum, then decodes the
    /// buffer into a message. A checksum mismatch is reported with the full
    /// frame and both values; the stream is not resynchronized here.
    pub fn finish(self) -> (r: Result<BesMessage, BESLinkError>)
        requires
            self.wf(),
            self.spec_complete(),
        ensures
            checksum_spec(self.packet@.drop_last()) == self.packet@.last() ==> (r matches Ok(m)
                && m.sync == self.packet@[0] && m.type1 == spec_decoded_type(self.packet@[1])
                && m.payload@ == self.packet@.subrange(1, self.packet@.len() - 1) && m.checksum
                == self.packet@.last()),
            checksum_spec(self.packet@.drop_last()) != self.packet@.last() ==> (r matches Err(
                BESLinkError::BadChecksumError { failed_packet, got, wanted },
            ) && failed_packet@ == self.packet@ && got == self.packet@.last() && wanted
                == checksum_spec(self.packet@.drop_last())),
    {
        match validate_packet_checksum(&self.packet) {
            Ok(_) => Ok(BesMessage::from_vec(self.packet)),
            Err(e) => Err(e),
        }
    }
}

/// Guards the trailing-bulk-data read path: only a `FlashRead` response may
/// be followed by caller-measured raw data; any other type is a caller
/// mistake, rejected before any further transport byte is consumed.
pub fn check_trailing_data_type(msg: &BesMessage) -> (r: Result<(), BESLinkError>)
    ensures
        r is Ok <==> msg.type1 == MessageTypes::FlashRead,
        msg.type1 != MessageTypes::FlashRead ==> r == Err::<(), BESLinkError>(
            BESLinkError::InvalidArgs,
        ),
{
    if msg.type1 == MessageTypes::FlashRead {
        Ok(())
    } else {
        Err(BESLinkError::InvalidArgs)
    }
}

/// Accumulates the trailing bulk block that follows a `FlashRead` response.
/// The expected byte count is supplied by the caller (it is not encoded in
/// the frame); chunks are appended whole, so the final block may run past
/// the expected count if the transport delivers more.
pub struct BulkAccumulator {
    /// The caller-supplied trailing byte count to wait for.
    pub expected: usize,
    /// The raw bytes accumulated so far.
    pub data: Vec<u8>,
}

impl BulkAccumulator {
    /// Starts an empty accumulator waiting for `expected` bytes.
    pub fn new(expected: usize) -> (r: BulkAccumulator)
        ensures
            r.expected == expected,
            r.data@ == Seq::<u8>::empty(),
    {
        BulkAccumulator { expected, data: Vec::new() }
    }

    /// Reports whether enough trailing bytes have arrived.
    pub fn is_complete(&self) -> (r: bool)
        ensures
            r == (self.data@.len() >= self.expected),
    {
        self.data.len() >= self.expected
    }

    /// Appends one chunk read from the transport, in full.
    pub fn push_chunk(&mut self, chunk: &Vec<u8>)
        requires
            old(self).data@.len() + chunk@.len() <= usize::MAX,
        ensures
            final(self).expected == old(self).expected,
            final(self).data@ == old(self).data@ + chunk@,
    {
        proof {
            assert(self.data@ =~= old(self).data@ + chunk@.take(0));
        }
        let mut i: usize = 0;
        while i < chunk.len()
            invariant
                i <= chunk@.len(),
                old(self).data@.len() + chunk@.len() <= usize::MAX,
                self.expected == old(self).expected,
                self.data@ == old(self).data@ + chunk@.take(i as int),
            decreases chunk@.len() - i,
        {
            self.data.push(chunk[i]);
            proof {
                assert(self.data@ =~= old(self).data@ + chunk@.take(i as int + 1));
            }
            i = i + 1;
        }
        proof {
            assert(chunk@.take(chunk@.len() as int) =~= chunk@);
        }
    }

    /// Hands the accumulated trailing bytes to the caller.
    pub fn into_data(self) -> (r: Vec<u8>)
        ensures
            r@ == self.data@,
    {
        self.data
    }
}

/// Sync acquisition: a byte stream of arbitrary garbage (no sync byte in
/// it) followed by a well-formed frame accumulates to exactly that frame;
/// the garbage is discarded, never buffered.
pub proof fn lemma_sync_acquisition(g: Seq<u8>, f: Seq<u8>)
    requires
        forall|i: int| 0 <= i < g.len() ==> g[i] != BES_SYNC,
        f.len() >= 3,
        f[0] == BES_SYNC,
        f.len() == spec_frame_len(f[1], f[2]) as int,
    ensures
        feed(Seq::<u8>::empty(), g + f) == f,
        buf_complete(f),
{
    lemma_feed_skips_garbage(g, f);
    assert(f.take(0) =~= Seq::<u8>::empty());
    assert(f.skip(0) =~= f);
    lemma_feed_frame_from_prefix(f, 0);
}

/// While the buffer is empty, bytes other than the sync byte leave the
/// accumulator untouched.
proof fn lemma_feed_skips_garbage(g: Seq<u8>, rest: Seq<u8>)
    requires
        forall|i: int| 0 <= i < g.len() ==> g[i] != BES_SYNC,
    ensures
        feed(Seq::<u8>::empty(), g + rest) == feed(Seq::<u8>::empty(), rest),
    decreases g.len(),
{
    let empty = Seq::<u8>::empty();
    if g.len() == 0 {
        assert(g + rest =~= rest);
    } else {
        assert((g + rest).first() == g[0]);
        assert(step(empty, g[0]) == empty);
        assert((g + rest).drop_first() =~= g.drop_first() + rest);
        lemma_feed_skips_garbage(g.drop_first(), rest);
    }
}

/// Feeding the remaining bytes of a well-formed frame onto its own prefix
/// completes exactly that frame.
proof fn lemma_feed_frame_from_prefix(f: Seq<u8>, k: int)
    requires
        0 <= k <= f.len(),
        f.len() >= 3,
        f[0] == BES_SYNC,
        f.len() == spec_frame_len(f[1], f[2]) as int,
    ensures
        feed(f.take(k), f.skip(k)) == f,
        buf_complete(f),
    decreases f.len() - k,
{
    if k == f.len() {
        assert(f.take(k) =~= f);
    } else {
        assert(!buf_complete(f.take(k)));
        assert(f.skip(k).first() == f[k]);
        assert(step(f.take(k), f[k]) =~= f.take(k + 1));
        assert(f.skip(k).drop_first() =~= f.skip(k + 1));
        lemma_feed_frame_from_prefix(f, k + 1);
    }
}

/// The bytes carried by a sequence of read outcomes: a `Some` is a byte
/// that arrived, a `None` is a read that timed out and delivered nothing.
pub open spec fn bytes_of(es: Seq<Option<u8>>) -> Seq<u8>
    decreases es.len(),
{
    if es.len() == 0 {
        Seq::<u8>::empty()
    } else {
        match es.first() {
            Some(b) => seq![b] + bytes_of(es.drop_first()),
            None => bytes_of(es.drop_first()),
        }
    }
}

/// The buffer after a sequence of read outcomes: a byte steps the
/// accumulator, a timeout leaves it as it is.
pub open spec fn feed_events(buf: Seq<u8>, es: Seq<Option<u8>>) -> Seq<u8>
    decreases es.len(),
{
    if es.len() == 0 || buf_complete(buf) {
        buf
    } else {
        match es.first() {
            Some(b) => feed_events(step(buf, b), es.drop_first()),
            None => feed_events(buf, es.drop_first()),
        }
    }
}

/// Timeout tolerance: a read loop whose reads time out arbitrarily often
/// accumulates exactly the frame that the delivered bytes alone would have
/// produced; timeouts never corrupt or truncate the buffer.
pub proof fn lemma_timeouts_harmless(buf: Seq<u8>, es: Seq<Option<u8>>)
    ensures
        feed_events(buf, es) == feed(buf, bytes_of(es)),
    decreases es.len(),
{
    if es.len() == 0 || buf_complete(buf) {
    } else {
        match es.first() {
            Some(b) => {
                assert(bytes_of(es) == seq![b] + bytes_of(es.drop_first()));
                assert(bytes_of(es).first() == b);
                assert(bytes_of(es).drop_first() =~= bytes_of(es.drop_first()));
                lemma_timeouts_harmless(step(buf, b), es.drop_first());
            },
            None => {
                lemma_timeouts_harmless(buf, es.drop_first());
            },
        }
    }
}

} // verus!
