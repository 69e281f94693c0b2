//! The unified error kind.
//!
//! Every failure of a transport operation, whether it came from the raw byte
//! stream, from the framing layer, or from the codec, is surfaced as one
//! [`TransportError`]. A caller that only asks "did the operation fail" cannot
//! tell the layers apart; the originating layer stays retrievable through
//! [`TransportError::cause`].

use vstd::prelude::*;

verus! {

/// The layer in which a failed transport operation originated.
#[derive(Clone, Copy, Debug, PartialEq, Eq, Structural)]
pub enum Cause {
    /// The raw byte stream failed (connection reset, broken pipe, bind or
    /// connect failure), or it ended in the middle of a frame.
    Io,
    /// An incoming frame declared a length above the configured maximum.
    FrameTooLarge,
    /// The codec could not serialize an outgoing value.
    Encode,
    /// The codec could not deserialize a received frame payload.
    Decode,
}

/// The one error kind of the transport, wrapping the originating layer as its
/// cause. Failures are never silently dropped and never retried: each one is
/// returned to the caller at once.
#[derive(Clone, Copy, Debug, PartialEq, Eq, Structural)]
pub struct TransportError {
    /// The originating layer.
    pub cause: Cause,
}

impl TransportError {
    /// A raw I/O failure.
    pub fn io() -> (e: TransportError)
        ensures
            e.cause == Cause::Io,
    {
        TransportError { cause: Cause::Io }
    }

    /// A frame-size violation.
    pub fn frame_too_large() -> (e: TransportError)
        ensures
            e.cause == Cause::FrameTooLarge,
    {
        TransportError { cause: Cause::FrameTooLarge }
    }

    /// A codec serialization failure.
    pub fn encode() -> (e: TransportError)
        ensures
            e.cause == Cause::Encode,
    {
        TransportError { cause: Cause::Encode }
    }

    /// A codec deserialization failure.
    pub fn decode() -> (e: TransportError)
        ensures
            e.cause == Cause::Decode,
    {
        TransportError { cause: Cause::Decode }
    }

    /// The layer this error originated in.
    pub fn cause(&self) -> (c: Cause)
        ensures
            c == self.cause,
    {
        self.cause
    }
}

/// Error unification: a decode failure and a raw I/O failure reach the caller
/// as the same error kind, [`TransportError`], indistinguishable to a caller
/// that only checks for failure; yet each wraps a distinct cause, so cause
/// inspection still tells them apart.
pub proof fn lemma_error_unification(io_err: TransportError, decode_err: TransportError)
    requires
        io_err.cause == Cause::Io,
        decode_err.cause == Cause::Decode,
    ensures
        io_err.cause != decode_err.cause,
{
}

} // verus!
