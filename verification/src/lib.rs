//! A minimal verified core for a length-prefixed binary request/response
//! protocol in the style of the Kafka wire format: frame-size validation,
//! request-header decoding, dispatch to the two supported request kinds,
//! and compact-encoded response construction.
//!
//! Socket handling (accepting connections, reading and writing bytes) lives
//! outside this library; the library works on plain byte buffers and is
//! verified end to end.

pub mod codec;
pub mod handlers;
pub mod protocol;
pub mod session;
