//! The duplex channel of typed values.
//!
//! A [`Transport`] composes the frame decoder with a codec to move whole,
//! length-framed, typed values in each direction over a raw byte stream it
//! does not itself touch. All operations are non-blocking decision steps: the
//! caller performs the raw reads and writes and hands their outcomes in,
//! re-invoking an operation once progress is possible.
//!
//! The read side follows a three-outcome discipline: each poll is pending,
//! ends the stream cleanly, yields one decoded value, or fails with the one
//! unified error kind. The write side follows the four-phase discipline:
//! readiness check, submit, flush, close.

use crate::codec::{json_string_bytes, JsonCodec};
use crate::error::{Cause, TransportError};
use crate::frame::{
    declared_len, encode_frame, frame_bytes, frame_complete, frame_payload, frame_rest,
    append_bytes, FrameDecoder, FramePoll, DEFAULT_MAX_FRAME_LEN,
};
use vstd::prelude::*;

verus! {

/// Backpressure boundary of the write buffer: the readiness check reports
/// ready only while fewer bytes than this are queued unflushed.
pub const BACKPRESSURE_BOUNDARY: usize = 8192;

/// What one poll of the raw byte stream's read half produced.
pub enum ReadEvent {
    /// A chunk of bytes arrived; an empty chunk re-polls the buffered bytes,
    /// as after a value was decoded while further frames sat buffered.
    Bytes(Vec<u8>),
    /// The peer closed the connection cleanly.
    Eof,
    /// The raw stream failed.
    Failed,
}

/// The outcome of polling the transport for the next value.
pub enum ReadPoll {
    /// No complete frame is available yet; retry once more bytes arrive.
    Pending,
    /// One successfully decoded value.
    Item(String),
    /// Clean end of stream: terminal, no further items follow.
    End,
    /// A unified error: raw I/O failure, frame-size violation, or decode
    /// failure, told apart only by the wrapped cause.
    Error(TransportError),
}

/// A transport of string values over a length-framed byte stream.
///
/// It owns one frame decoder for the read half, one byte queue for the write
/// half, and one codec instance used for both directions. Construction does
/// no I/O.
pub struct Transport {
    decoder: FrameDecoder,
    codec: JsonCodec,
    queued: Vec<u8>,
    closed: bool,
}

impl Transport {
    /// The bytes received from the raw stream and not yet consumed as
    /// frames.
    pub closed spec fn read_buf(&self) -> Seq<u8> {
        self.decoder@
    }

    /// The serialized frames queued on the write side and not yet flushed to
    /// the raw stream.
    pub closed spec fn queued(&self) -> Seq<u8> {
        self.queued@
    }

    /// The configured ceiling on a single frame's payload length.
    pub closed spec fn max(&self) -> int {
        self.decoder.max()
    }

    /// Whether the write half has been closed.
    pub closed spec fn is_closed(&self) -> bool {
        self.closed
    }

    /// Binds a codec into a transport with the given maximum frame length.
    pub fn with_max_frame_len(codec: JsonCodec, max_frame_len: usize) -> (t: Transport)
        ensures
            t.read_buf() == Seq::<u8>::empty(),
            t.queued() == Seq::<u8>::empty(),
            t.max() == max_frame_len as int,
            !t.is_closed(),
    {
        Transport {
            decoder: FrameDecoder::new(max_frame_len),
            codec,
            queued: Vec::new(),
            closed: false,
        }
    }

    /// Binds a codec into a transport with the default 4-byte length-prefix
    /// discipline and its default maximum frame length. No I/O occurs at
    /// construction time.
    pub fn from(codec: JsonCodec) -> (t: Transport)
        ensures
            t.read_buf() == Seq::<u8>::empty(),
            t.queued() == Seq::<u8>::empty(),
            t.max() == DEFAULT_MAX_FRAME_LEN as int,
            !t.is_closed(),
    {
        Transport::with_max_frame_len(codec, DEFAULT_MAX_FRAME_LEN)
    }

    /// One poll of the read half, fed with what the raw stream produced.
    ///
    /// A raw failure surfaces at once as an I/O-caused error. A clean close
    /// of the raw stream ends the value stream cleanly when no partial frame
    /// is pending, and is an error otherwise. Arrived bytes are buffered;
    /// if they complete a frame within the size limit, the frame is consumed
    /// and its payload decoded into a value or a decode-caused error, with
    /// the bytes after the frame left buffered; an oversized declared length
    /// is a frame-size violation; otherwise the poll is pending. The write
    /// half is never touched.
    pub fn poll_next(&mut self, event: ReadEvent) -> (r: ReadPoll)
        ensures
            final(self).queued() == old(self).queued(),
            final(self).is_closed() == old(self).is_closed(),
            final(self).max() == old(self).max(),
            event is Failed ==> ((r matches ReadPoll::Error(e) && e.cause == Cause::Io)
                && final(self).read_buf() == old(self).read_buf()),
            event is Eof && old(self).read_buf().len() == 0 ==> (r is End
                && final(self).read_buf() == old(self).read_buf()),
            event is Eof && old(self).read_buf().len() > 0 ==> ((r matches ReadPoll::Error(e)
                && e.cause == Cause::Io) && final(self).read_buf() == old(self).read_buf()),
            event matches ReadEvent::Bytes(c) ==> ({
                let b = old(self).read_buf() + c@;
                &&& (b.len() < 4 || (declared_len(b) <= old(self).max() && !frame_complete(b)))
                    ==> (r is Pending && final(self).read_buf() == b)
                &&& (b.len() >= 4 && declared_len(b) > old(self).max()) ==> ((r
                    matches ReadPoll::Error(e) && e.cause == Cause::FrameTooLarge)
                    && final(self).read_buf() == b)
                &&& (b.len() >= 4 && declared_len(b) <= old(self).max() && frame_complete(b))
                    ==> ({
                    &&& final(self).read_buf() == frame_rest(b)
                    &&& (r is Item || (r matches ReadPoll::Error(e) && e.cause == Cause::Decode))
                    &&& forall|s: Seq<char>| frame_payload(b) == json_string_bytes(s) ==> (r
                        matches ReadPoll::Item(v) && v@ == s)
                })
            }),
    {
        match event {
            ReadEvent::Failed => ReadPoll::Error(TransportError::io()),
            ReadEvent::Eof => {
                if self.decoder.is_empty() {
                    ReadPoll::End
                } else {
                    ReadPoll::Error(TransportError::io())
                }
            },
            ReadEvent::Bytes(chunk) => {
                self.decoder.feed(&chunk);
                match self.decoder.poll_frame() {
                    FramePoll::Pending => ReadPoll::Pending,
                    FramePoll::TooLarge => ReadPoll::Error(TransportError::frame_too_large()),
                    FramePoll::Frame(payload) => match self.codec.decode(&payload) {
                        Ok(v) => ReadPoll::Item(v),
                        Err(e) => ReadPoll::Error(e),
                    },
                }
            },
        }
    }

    /// Write phase one, the readiness check: ready to accept one more value
    /// exactly while the queued bytes sit below the backpressure boundary.
    /// When not ready, the caller must flush before submitting.
    pub fn poll_ready(&self) -> (r: bool)
        ensures
            r == (self.queued().len() < BACKPRESSURE_BOUNDARY as int),
    {
        self.queued.len() < BACKPRESSURE_BOUNDARY
    }

    /// Write phase two, submit: serializes exactly one value and queues its
    /// length-prefixed frame behind the bytes already queued, in submission
    /// order. Succeeds exactly when the serialized payload fits the frame
    /// size limit; an oversized payload is refused as a frame-size violation
    /// and queues nothing. The bytes are not yet on the raw stream: a flush
    /// must drive them out. The read half is never touched.
    pub fn start_send(&mut self, item: &String) -> (r: Result<(), TransportError>)
        ensures
            final(self).read_buf() == old(self).read_buf(),
            final(self).is_closed() == old(self).is_closed(),
            final(self).max() == old(self).max(),
            ({
                let p = json_string_bytes(item@);
                if p.len() <= old(self).max() && p.len() <= u32::MAX {
                    r is Ok && final(self).queued() == old(self).queued() + frame_bytes(p)
                } else {
                    (r matches Err(e) && e.cause == Cause::FrameTooLarge) && final(self).queued()
                        == old(self).queued()
                }
            }),
    {
        let payload = self.codec.encode(item);
        let max_frame_len = self.decoder.max_frame_len();
        match encode_frame(&payload, max_frame_len) {
            Ok(framed) => {
                append_bytes(&mut self.queued, &framed);
                Ok(())
            },
            Err(e) => Err(e),
        }
    }

    /// Write phase three, flush: hands out every queued byte, oldest first,
    /// leaving the queue empty. The caller writes the returned bytes to the
    /// raw stream; the flush is complete once they are all written.
    pub fn take_pending(&mut self) -> (r: Vec<u8>)
        ensures
            r@ == old(self).queued(),
            final(self).queued() == Seq::<u8>::empty(),
            final(self).read_buf() == old(self).read_buf(),
            final(self).is_closed() == old(self).is_closed(),
            final(self).max() == old(self).max(),
    {
        let mut out: Vec<u8> = Vec::new();
        append_bytes(&mut out, &self.queued);
        self.queued = Vec::new();
        out
    }

    /// Whether the flush phase is complete: no queued byte is left to drive
    /// out to the raw stream.
    pub fn poll_flush(&self) -> (r: bool)
        ensures
            r == (self.queued().len() == 0),
    {
        self.queued.len() == 0
    }

    /// Write phase four, close: hands out the remaining queued bytes and
    /// marks the write half closed; the caller writes them and then shuts
    /// the raw stream's write half down. Idempotent: a repeated close hands
    /// out nothing and leaves the transport closed.
    pub fn poll_close(&mut self) -> (r: Vec<u8>)
        ensures
            r@ == old(self).queued(),
            final(self).queued() == Seq::<u8>::empty(),
            final(self).is_closed(),
            final(self).read_buf() == old(self).read_buf(),
            final(self).max() == old(self).max(),
    {
        self.closed = true;
        self.take_pending()
    }

    /// Whether the write half has been closed.
    pub fn closed(&self) -> (r: bool)
        ensures
            r == self.is_closed(),
    {
        self.closed
    }
}

/// What one poll of the listening socket produced.
pub enum AcceptEvent {
    /// One inbound connection arrived.
    Accepted,
    /// Accepting failed.
    Failed,
}

/// The next element of the inbound-connection sequence.
pub enum AcceptPoll {
    /// A transport for the accepted connection, built around a freshly
    /// constructed codec instance.
    Connection(Transport),
    /// An accept failure: it terminates the sequence with an error rather
    /// than skipping the connection and continuing.
    Terminate(TransportError),
}

/// The decision a listener takes for each poll of its socket: a successful
/// accept becomes a fresh transport whose codec is newly constructed, never
/// reused from an earlier connection, so per-connection codec state cannot
/// leak across connections; an accept failure terminates the sequence.
pub fn next_inbound(event: AcceptEvent) -> (r: AcceptPoll)
    ensures
        event is Accepted ==> (r matches AcceptPoll::Connection(t) && t.read_buf() == Seq::<
            u8,
        >::empty() && t.queued() == Seq::<u8>::empty() && !t.is_closed() && t.max()
            == DEFAULT_MAX_FRAME_LEN as int),
        event is Failed ==> (r matches AcceptPoll::Terminate(e) && e.cause == Cause::Io),
{
    match event {
        AcceptEvent::Accepted => AcceptPoll::Connection(Transport::from(JsonCodec::new())),
        AcceptEvent::Failed => AcceptPoll::Terminate(TransportError::io()),
    }
}

/// Round trip: writing a value queues exactly the wire form of its
/// serialization (per `start_send`'s contract), and on the peer side those
/// bytes, whatever follows them, form one complete frame whose payload is
/// that serialization; any faithful decoding of that payload — which is what
/// `poll_next`'s contract yields — is exactly the written value.
pub proof fn lemma_round_trip(v: Seq<char>, rest: Seq<u8>)
    requires
        json_string_bytes(v).len() <= u32::MAX,
    ensures
        frame_complete(frame_bytes(json_string_bytes(v)) + rest),
        declared_len(frame_bytes(json_string_bytes(v)) + rest) == json_string_bytes(v).len(),
        frame_payload(frame_bytes(json_string_bytes(v)) + rest) == json_string_bytes(v),
        frame_rest(frame_bytes(json_string_bytes(v)) + rest) == rest,
        forall|r: Result<String, serde_json::Error>|
            crate::codec::decodes_faithfully(
                r,
                frame_payload(frame_bytes(json_string_bytes(v)) + rest),
            ) ==> (r matches Ok(w) && w@ == v),
{
    crate::frame::lemma_framing_exact(json_string_bytes(v), rest);
}

} // verus!
