//! A message-framing transport core: length-delimited framing, a JSON codec,
//! and the polling discipline that turns a duplex byte stream into a typed,
//! message-oriented channel.
//!
//! The modules split the work in layers, leaves first:
//! - [`error`]: the single error kind every failed operation surfaces.
//! - [`frame`]: the wire format, a 4-byte big-endian length prefix before each
//!   payload, and the incremental decoder that re-assembles frames from
//!   arbitrarily fragmented byte chunks.
//! - [`codec`]: the serializer/deserializer strategy turning typed values into
//!   frame payloads and back.
//! - [`transport`]: the duplex channel of typed values, composing the frame
//!   decoder and the codec, with the read and four-phase write protocols.

pub mod codec;
pub mod error;
pub mod frame;
pub mod transport;
