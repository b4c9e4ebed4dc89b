//! Frame validation and request-header decoding: the fixed eight-byte prefix
//! of every request body (`api_key`, `api_version`, `correlation_id`) and the
//! minimum-size rule a declared frame length must meet.

use vstd::prelude::*;

use crate::codec::u16_from_be;
use crate::codec::u32_from_be;

verus! {

/// The smallest legal frame body: `api_key` (2 bytes), `api_version` (2 bytes)
/// and `correlation_id` (4 bytes) must all be present.
pub const MIN_FRAME_BODY_LEN: u32 = 8;

/// How handling one connection can fail. Every kind is local to its own
/// connection; none affects other connections or the listening process.
#[derive(Clone, Copy, Debug, PartialEq, Eq, Structural)]
pub enum ProtocolError {
    /// The declared frame length is below the minimum header size; the
    /// connection is closed without a response.
    FramingError,
    /// The peer closed the connection mid-frame or before the length prefix
    /// completed; the connection is closed silently.
    TruncatedRead,
    /// A fixed-width field could not be extracted because the body is too
    /// short; fatal for the connection. Kept as a defensive check even though
    /// the frame-length rule already excludes it.
    MalformedField,
    /// Writing the response to the peer failed; the connection is closed with
    /// no retry.
    WriteFailure,
}

/// The fixed prefix of every request body. The remainder of the body, from
/// offset 8 onward, is the request-specific payload and is passed through
/// undecoded.
#[derive(Clone, Copy, Debug, PartialEq, Eq, Structural)]
pub struct RequestHeader {
    /// Selects the request kind (offset 0, 2 bytes big-endian).
    pub api_key: u16,
    /// The protocol version the caller asks for (offset 2, 2 bytes big-endian).
    pub api_version: u16,
    /// Opaque caller-assigned value, echoed unchanged in the response
    /// (offset 4, 4 bytes big-endian).
    pub correlation_id: u32,
}

/// The header denoted by the first eight bytes of a frame body.
pub open spec fn header_of(frame: Seq<u8>) -> RequestHeader {
    RequestHeader {
        api_key: u16_from_be(frame[0], frame[1]),
        api_version: u16_from_be(frame[2], frame[3]),
        correlation_id: u32_from_be(frame[4], frame[5], frame[6], frame[7]),
    }
}

/// Whether a declared frame length admits a full request header. A length
/// below the minimum must close the connection with nothing written back.
pub fn frame_length_ok(declared_len: u32) -> (r: bool)
    ensures
        r == (declared_len >= MIN_FRAME_BODY_LEN),
{
    declared_len >= MIN_FRAME_BODY_LEN
}

/// Decodes the fixed header from a frame body: succeeds exactly when the body
/// holds at least the eight header bytes, and then returns the three fields
/// read big-endian at their fixed offsets.
pub fn decode_header(frame: &[u8]) -> (r: Result<RequestHeader, ProtocolError>)
    ensures
        frame@.len() >= 8 ==> r == Ok::<RequestHeader, ProtocolError>(header_of(frame@)),
        frame@.len() < 8 ==> r == Err::<RequestHeader, ProtocolError>(
            ProtocolError::MalformedField,
        ),
{
    if frame.len() < 8 {
        return Err(ProtocolError::MalformedField);
    }
    let api_key = crate::codec::read_u16_be(frame, 0);
    let api_version = crate::codec::read_u16_be(frame, 2);
    let correlation_id = crate::codec::read_u32_be(frame, 4);
    Ok(RequestHeader { api_key, api_version, correlation_id })
}

} // verus!
