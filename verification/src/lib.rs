//! Client-side core of the X Window System's binary wire protocol:
//! the connection handshake, resource-id allocation, request encoding,
//! and classification of the inbound reply/error/event stream.
//!
//! The protocol is little-endian, 4-byte aligned, and length-prefixed;
//! every contract here pins the exact bytes a request encodes to, or
//! the exact structure a server message decodes to. Reading and writing
//! the socket itself is left to the caller: this crate only turns
//! values into bytes and accumulated bytes back into values.
//!
//! - [`wire`]: padding and fixed-width little-endian primitives.
//! - [`protocol`]: the closed enumerations — opcodes, error codes,
//!   event subtypes, the event-selection bitmask.
//! - [`handshake`]: the connection-setup reply decoder.
//! - [`ids`]: the resource-id allocator over the handshake's base/mask.
//! - [`requests`]: the request encoders and the ordered value-list
//!   builder.
//! - [`shape`]: encoders for the shape extension.
//! - [`demux`]: the inbound classifier and the reply-correlation FIFO.
//! - [`events`]: decoding of the covered event subtypes.
//! - [`replies`]: parsers for the reply frames the encoders solicit.

pub mod demux;
pub mod events;
pub mod handshake;
pub mod ids;
pub mod protocol;
pub mod replies;
pub mod requests;
pub mod shape;
pub mod wire;
