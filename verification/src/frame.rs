//! The length-delimited wire format.
//!
//! Each message occupies exactly one frame on the wire: a 4-byte big-endian
//! length prefix (the count of payload bytes, not including the prefix
//! itself), followed by exactly that many payload bytes. Message boundaries
//! are the only structure this layer imposes; payload interpretation belongs
//! to the codec.
//!
//! [`encode_frame`] produces the wire form of one payload. [`FrameDecoder`]
//! re-assembles frames from a byte stream that may arrive in arbitrary
//! fragments, enforcing a configured maximum frame length.

use crate::error::{Cause, TransportError};
use vstd::prelude::*;

verus! {

/// Number of bytes in the length prefix of a frame.
pub const PREFIX_LEN: usize = 4;

/// Default ceiling on the payload length of a single frame: 8 MiB.
pub const DEFAULT_MAX_FRAME_LEN: usize = 8388608;

/// The 4-byte big-endian encoding of a payload length `n`.
pub open spec fn length_prefix(n: int) -> Seq<u8> {
    seq![
        ((n / 0x1000000) % 256) as u8,
        ((n / 0x10000) % 256) as u8,
        ((n / 0x100) % 256) as u8,
        (n % 256) as u8,
    ]
}

/// The wire form of one payload: its length prefix followed by the payload.
pub open spec fn frame_bytes(payload: Seq<u8>) -> Seq<u8> {
    length_prefix(payload.len() as int) + payload
}

/// The payload length that the first four bytes of `buf` declare.
pub open spec fn declared_len(buf: Seq<u8>) -> int
    recommends
        buf.len() >= 4,
{
    (buf[0] as int) * 0x1000000 + (buf[1] as int) * 0x10000 + (buf[2] as int) * 0x100 + (
    buf[3] as int)
}

/// Whether `buf` starts with one complete frame: a full prefix and at least
/// as many payload bytes as the prefix declares.
pub open spec fn frame_complete(buf: Seq<u8>) -> bool {
    buf.len() >= 4 && buf.len() >= 4 + declared_len(buf)
}

/// The payload of the first complete frame in `buf`.
pub open spec fn frame_payload(buf: Seq<u8>) -> Seq<u8>
    recommends
        frame_complete(buf),
{
    buf.subrange(4, 4 + declared_len(buf))
}

/// The bytes left in `buf` after its first complete frame.
pub open spec fn frame_rest(buf: Seq<u8>) -> Seq<u8>
    recommends
        frame_complete(buf),
{
    buf.subrange(4 + declared_len(buf), buf.len() as int)
}

/// Appends every byte of `src` to `dst`.
pub(crate) fn append_bytes(dst: &mut Vec<u8>, src: &Vec<u8>)
    ensures
        final(dst)@ == old(dst)@ + src@,
{
    let mut i: usize = 0;
    while i < src.len()
        invariant
            i <= src.len(),
            dst@ == old(dst)@ + src@.subrange(0, i as int),
        decreases src.len() - i,
    {
        dst.push(src[i]);
        proof {
            assert(dst@ == old(dst)@ + src@.subrange(0, i + 1));
        }
        i = i + 1;
    }
    proof {
        assert(src@.subrange(0, src@.len() as int) == src@);
    }
}

/// Wraps one payload in a frame: the 4-byte big-endian length prefix, then
/// the payload unchanged. Fails, with a frame-size violation, exactly when
/// the payload is longer than `max_frame_len` or does not fit the 32-bit
/// prefix.
pub fn encode_frame(payload: &Vec<u8>, max_frame_len: usize) -> (r: Result<
    Vec<u8>,
    TransportError,
>)
    ensures
        payload@.len() <= max_frame_len && payload@.len() <= u32::MAX ==> (r matches Ok(f)
            && f@ == frame_bytes(payload@)),
        payload@.len() > max_frame_len || payload@.len() > u32::MAX ==> (r matches Err(e)
            && e.cause == Cause::FrameTooLarge),
{
    let n = payload.len();
    if n > max_frame_len {
        return Err(TransportError::frame_too_large());
    }
    if n > 0xFFFF_FFFF as usize {
        return Err(TransportError::frame_too_large());
    }
    let len32: u32 = n as u32;
    let mut out: Vec<u8> = Vec::new();
    out.push((len32 / 0x1000000) as u8);
    out.push(((len32 / 0x10000) % 256) as u8);
    out.push(((len32 / 0x100) % 256) as u8);
    out.push((len32 % 256) as u8);
    proof {
        assert(len32 / 0x1000000 < 256) by (nonlinear_arith);
        assert((n as int) / 0x1000000 % 256 == (n as int) / 0x1000000);
        assert(out@ =~= length_prefix(n as int));
    }
    append_bytes(&mut out, payload);
    Ok(out)
}

/// Recomposing a 32-bit length from the four bytes of its big-endian
/// encoding yields the length again.
proof fn lemma_prefix_recompose(n: int)
    requires
        0 <= n <= u32::MAX,
    ensures
        declared_len(length_prefix(n)) == n,
{
    let x = n as u32;
    assert(((x / 0x1000000) % 256) * 0x1000000 + ((x / 0x10000) % 256) * 0x10000 + ((x
        / 0x100) % 256) * 0x100 + (x % 256) == x) by (bit_vector);
}

/// Framing exactness: the wire form of a payload of `n` bytes is exactly the
/// 4-byte big-endian encoding of `n` followed by the payload; and whatever
/// bytes follow the frame, the frame boundary falls exactly after the
/// payload, so decoding recovers the payload and leaves the rest untouched.
pub proof fn lemma_framing_exact(payload: Seq<u8>, rest: Seq<u8>)
    requires
        payload.len() <= u32::MAX,
    ensures
        frame_bytes(payload).len() == 4 + payload.len(),
        frame_bytes(payload).subrange(0, 4) == length_prefix(payload.len() as int),
        declared_len(frame_bytes(payload) + rest) == payload.len(),
        frame_complete(frame_bytes(payload) + rest),
        frame_payload(frame_bytes(payload) + rest) == payload,
        frame_rest(frame_bytes(payload) + rest) == rest,
{
    let n = payload.len() as int;
    let whole = frame_bytes(payload) + rest;
    lemma_prefix_recompose(n);
    assert(whole.subrange(0, 4) == length_prefix(n));
    assert(declared_len(whole) == declared_len(length_prefix(n))) by {
        assert(whole[0] == length_prefix(n)[0]);
        assert(whole[1] == length_prefix(n)[1]);
        assert(whole[2] == length_prefix(n)[2]);
        assert(whole[3] == length_prefix(n)[3]);
    }
    assert(frame_payload(whole) == payload) by {
        assert(whole.subrange(4, 4 + n) =~= payload);
    }
    assert(frame_rest(whole) == rest) by {
        assert(whole.subrange(4 + n, whole.len() as int) =~= rest);
    }
    assert(frame_bytes(payload).subrange(0, 4) =~= length_prefix(n));
}

/// Fragmentation does not matter: feeding a decoder two chunks one after the
/// other leaves the same buffered bytes as feeding their concatenation at
/// once.
pub proof fn lemma_fragmentation_irrelevant(buffered: Seq<u8>, first: Seq<u8>, second: Seq<u8>)
    ensures
        (buffered + first) + second == buffered + (first + second),
{
    assert((buffered + first) + second =~= buffered + (first + second));
}

/// One step of the incremental decoder.
pub enum FramePoll {
    /// No complete frame is buffered yet; more bytes must arrive first.
    Pending,
    /// The payload of one complete frame, removed from the buffer.
    Frame(Vec<u8>),
    /// The buffered prefix declares a length above the configured maximum.
    TooLarge,
}

/// An incremental frame decoder. It buffers bytes as they arrive, in
/// arbitrary fragments, and hands out one complete frame's payload at a
/// time, stopping exactly at each frame boundary.
pub struct FrameDecoder {
    buf: Vec<u8>,
    max_frame_len: usize,
}

impl View for FrameDecoder {
    type V = Seq<u8>;

    /// The bytes received but not yet consumed as frames.
    closed spec fn view(&self) -> Seq<u8> {
        self.buf@
    }
}

impl FrameDecoder {
    /// The configured ceiling on a single frame's payload length.
    pub closed spec fn max(&self) -> int {
        self.max_frame_len as int
    }

    /// A decoder with an empty buffer and the given maximum frame length.
    pub fn new(max_frame_len: usize) -> (d: FrameDecoder)
        ensures
            d@ == Seq::<u8>::empty(),
            d.max() == max_frame_len as int,
    {
        FrameDecoder { buf: Vec::new(), max_frame_len }
    }

    /// The configured maximum frame length.
    pub fn max_frame_len(&self) -> (m: usize)
        ensures
            m as int == self.max(),
    {
        self.max_frame_len
    }

    /// Whether no bytes are buffered: the decoder sits at a clean frame
    /// boundary, with no partial frame pending.
    pub fn is_empty(&self) -> (r: bool)
        ensures
            r == (self@.len() == 0),
    {
        self.buf.len() == 0
    }

    /// Buffers one arrived chunk after the bytes already held.
    pub fn feed(&mut self, chunk: &Vec<u8>)
        ensures
            final(self)@ == old(self)@ + chunk@,
            final(self).max() == old(self).max(),
    {
        append_bytes(&mut self.buf, chunk);
    }

    /// Tries to take one complete frame off the front of the buffer.
    ///
    /// If the buffered prefix declares a length above the maximum, the
    /// violation is reported and the buffer is left as it is. If a complete
    /// frame is buffered, its payload is returned and exactly the frame's
    /// bytes are consumed. Otherwise more bytes must arrive first and the
    /// buffer is left as it is.
    pub fn poll_frame(&mut self) -> (r: FramePoll)
        ensures
            final(self).max() == old(self).max(),
            old(self)@.len() >= 4 && declared_len(old(self)@) > old(self).max() ==> (r
                is TooLarge && final(self)@ == old(self)@),
            old(self)@.len() >= 4 && declared_len(old(self)@) <= old(self).max()
                && frame_complete(old(self)@) ==> (r matches FramePoll::Frame(p)
                && p@ == frame_payload(old(self)@) && final(self)@ == frame_rest(old(self)@)),
            old(self)@.len() < 4 || (declared_len(old(self)@) <= old(self).max()
                && !frame_complete(old(self)@)) ==> (r is Pending && final(self)@ == old(self)@),
    {
        if self.buf.len() < PREFIX_LEN {
            return FramePoll::Pending;
        }
        let declared: usize = (self.buf[0] as usize) * 0x1000000 + (self.buf[1] as usize)
            * 0x10000 + (self.buf[2] as usize) * 0x100 + (self.buf[3] as usize);
        proof {
            assert(declared as int == declared_len(self.buf@));
        }
        if declared > self.max_frame_len {
            return FramePoll::TooLarge;
        }
        if self.buf.len() - PREFIX_LEN < declared {
            return FramePoll::Pending;
        }
        let mut payload: Vec<u8> = Vec::new();
        let mut i: usize = 0;
        while i < declared
            invariant
                i <= declared,
                PREFIX_LEN + declared <= self.buf.len(),
                self == old(self),
                payload@ == self.buf@.subrange(4, 4 + i as int),
            decreases declared - i,
        {
            payload.push(self.buf[PREFIX_LEN + i]);
            proof {
                assert(payload@ == self.buf@.subrange(4, 4 + (i + 1)));
            }
            i = i + 1;
        }
        let mut rest: Vec<u8> = Vec::new();
        let mut j: usize = PREFIX_LEN + declared;
        while j < self.buf.len()
            invariant
                PREFIX_LEN + declared <= j <= self.buf.len(),
                self == old(self),
                rest@ == self.buf@.subrange(4 + declared as int, j as int),
            decreases self.buf.len() - j,
        {
            rest.push(self.buf[j]);
            proof {
                assert(rest@ == self.buf@.subrange(4 + declared as int, j + 1));
            }
            j = j + 1;
        }
        proof {
            assert(payload@ == frame_payload(old(self)@));
            assert(rest@ == frame_rest(old(self)@));
        }
        self.buf = rest;
        FramePoll::Frame(payload)
    }
}

} // verus!
