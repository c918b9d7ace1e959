//! Recognising a ClientHello record.

use vstd::prelude::*;

verus! {

/// Length of a TLS record header: content type, legacy version, length.
pub const RECORD_HEADER_LEN: usize = 5;

/// Content type of a handshake record.
pub const CONTENT_TYPE_HANDSHAKE: u8 = 0x16;

/// Handshake message type of a ClientHello.
pub const HANDSHAKE_CLIENT_HELLO: u8 = 0x01;

/// A buffer begins a ClientHello record: it is longer than a record header,
/// its content type is handshake, and the first byte of the payload, the
/// handshake message type, is ClientHello.
pub open spec fn spec_is_hello(s: Seq<u8>) -> bool {
    &&& s.len() > RECORD_HEADER_LEN
    &&& s[0] == CONTENT_TYPE_HANDSHAKE
    &&& s[RECORD_HEADER_LEN as int] == HANDSHAKE_CLIENT_HELLO
}

/// Tells whether `data` begins a ClientHello record. Any buffer is accepted;
/// one of five bytes or fewer is never a ClientHello.
pub fn is_hello(data: &[u8]) -> (r: bool)
    ensures
        r == spec_is_hello(data@),
{
    data.len() > RECORD_HEADER_LEN && data[0] == CONTENT_TYPE_HANDSHAKE
        && data[RECORD_HEADER_LEN] == HANDSHAKE_CLIENT_HELLO
}

} // verus!
