//! Error types shared by the codec, the transport and the connection
//! handler.

use vstd::prelude::*;

verus! {

/// Why a byte buffer could not be decoded.  A header is rejected for its
/// size or for an out-of-range discriminant; a body is rejected when the
/// payload deserializer cannot make sense of the bytes.
#[derive(Debug)]
pub enum DecodeError {
    /// The header buffer does not have the fixed header size.
    HeaderLength { got: usize },
    /// The first header byte is not a known message type tag.
    UnknownType { code: u8 },
    /// The second header byte is not a known command tag.
    UnknownCommand { code: u8 },
    /// The body bytes do not deserialize to the payload type of the
    /// command; `detail` is the deserializer's description.
    MalformedBody { detail: String },
}

/// Why the transport gave up on a read or a write.
#[derive(Debug, Clone, Copy, PartialEq, Eq, Structural)]
pub enum TransportError {
    /// The peer closed the stream (a zero-length read) before the expected
    /// byte count was delivered.
    ConnectionClosed,
    /// A write made no progress, so the buffer cannot be delivered.
    WriteError,
}

/// Why a connection was closed, recorded by the connection handler so the
/// caller can log it.  A clean close after a successful dispatch carries no
/// `ConnectionError` at all.
#[derive(Debug)]
pub enum ConnectionError {
    /// The peer closed the stream before a full header or body arrived.
    ConnectionClosed,
    /// The header bytes were rejected; the connection is dropped.
    HeaderDecode(DecodeError),
    /// The body bytes were rejected; the connection is dropped.
    BodyDecode(DecodeError),
    /// The header was valid but did not announce a request, so nothing is
    /// dispatched and the connection is dropped.
    NotARequest,
    /// The command handler reported a domain error; the connection is
    /// still closed cleanly.
    DispatchFailed,
}

} // verus!
