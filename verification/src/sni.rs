//! Locating the `server_name` extension of a ClientHello.
//!
//! The buffer holds a TLS record: five bytes of record header, four bytes of
//! handshake header, then the ClientHello body:
//!
//! ```text
//! legacy_version              2 bytes
//! random                     32 bytes
//! legacy_session_id           1-byte length, then that many bytes
//! cipher_suites               2-byte length, then that many bytes
//! legacy_compression_methods  1-byte length, then that many bytes
//! extensions                  2-byte length, then that many bytes:
//!     extension_type          2 bytes
//!     extension_data          2-byte length, then that many bytes
//! ```
//!
//! All lengths are big-endian. The extension of type 0 is `server_name`. Its
//! data is a list of names, and the first name is that of the host:
//!
//! ```text
//! extension_type              2 bytes, 0
//! extension_data length       2 bytes
//! server_name_list length     2 bytes
//! name_type                   1 byte
//! host_name                   2-byte length, then that many bytes
//! ```
//!
//! So the length of the host name stands seven bytes behind the start of the
//! extension, and its first byte nine bytes behind it. The record is cut in
//! the middle of the host name.

use vstd::prelude::*;
use crate::reader::{
    skip_u16_prefixed, skip_u8_prefixed, spec_skip_u16_prefixed, spec_skip_u8_prefixed, spec_u16_at,
    u16_at,
};

verus! {

/// Offset of `legacy_session_id`: behind the record header, the handshake
/// header, `legacy_version` and `random`.
pub const SESSION_ID_OFFSET: usize = 5 + 4 + 2 + 32;

/// The extension type of `server_name`.
pub const EXTENSION_SERVER_NAME: u16 = 0;

/// Offset of the length of the host name from the start of a `server_name`
/// extension: behind the extension's type and length, the length of the list
/// of names and the type of the first name.
pub const HOST_NAME_LEN_OFFSET: usize = 2 + 2 + 2 + 1;

/// Offset of the first byte of the host name from the start of a
/// `server_name` extension.
pub const HOST_NAME_OFFSET: usize = 2 + 2 + 2 + 1 + 2;

/// Offset of the length field of the extensions block: behind
/// `legacy_session_id`, `cipher_suites` and `legacy_compression_methods`,
/// each of which has to lie inside the buffer.
pub open spec fn spec_extensions_offset(s: Seq<u8>) -> Option<int> {
    match spec_skip_u8_prefixed(s, SESSION_ID_OFFSET as int) {
        Some(suites) => match spec_skip_u16_prefixed(s, suites) {
            Some(methods) => spec_skip_u8_prefixed(s, methods),
            None => None,
        },
        None => None,
    }
}

/// The cut that a `server_name` extension at offset `at` asks for: the offset
/// of the host name's first byte plus half the host name's length. There is
/// none where the length of the host name, or the host name itself, does not
/// lie inside the buffer.
pub open spec fn spec_host_name_cut(s: Seq<u8>, at: int) -> Option<int> {
    match spec_u16_at(s, at + HOST_NAME_LEN_OFFSET) {
        Some(name_len) => if at + HOST_NAME_OFFSET + name_len <= s.len() {
            Some(at + HOST_NAME_OFFSET + name_len / 2)
        } else {
            None
        },
        None => None,
    }
}

/// Walks the extensions from offset `at` up to `end`, the end of the
/// extensions block.
///
/// An extension is read only while `at < end`, and only if its type is inside
/// the buffer. The first extension of type `server_name` ends the walk, with
/// the cut that [`spec_host_name_cut`] gives for it. Any other extension is
/// stepped over if it ends inside the buffer.
pub open spec fn spec_scan_extensions(s: Seq<u8>, at: int, end: int) -> Option<int>
    decreases s.len() - at,
{
    if 0 <= at < end {
        match spec_u16_at(s, at) {
            Some(ty) => {
                if ty == EXTENSION_SERVER_NAME {
                    spec_host_name_cut(s, at)
                } else {
                    match spec_skip_u16_prefixed(s, at + 2) {
                        Some(next) => spec_scan_extensions(s, next, end),
                        None => None,
                    }
                }
            },
            None => None,
        }
    } else {
        None
    }
}

/// The cut that the `server_name` extension of the ClientHello in `s` asks
/// for, or `None` where the buffer has no such extension or ends before the
/// walk gets to it.
pub open spec fn spec_find_sni(s: Seq<u8>) -> Option<int> {
    match spec_extensions_offset(s) {
        Some(block) => match spec_skip_u16_prefixed(s, block) {
            Some(end) => spec_scan_extensions(s, block + 2, end),
            None => None,
        },
        None => None,
    }
}

/// A cut found by the walk lies inside the buffer, and not before the first
/// byte of a host name in an extension at or behind `at`.
pub proof fn lemma_scan_extensions_bounds(s: Seq<u8>, at: int, end: int)
    ensures
        spec_scan_extensions(s, at, end) matches Some(cut) ==> at + HOST_NAME_OFFSET <= cut
            <= s.len(),
    decreases s.len() - at,
{
    if 0 <= at < end {
        match spec_u16_at(s, at) {
            Some(ty) => {
                if ty != EXTENSION_SERVER_NAME {
                    match spec_skip_u16_prefixed(s, at + 2) {
                        Some(next) => lemma_scan_extensions_bounds(s, next, end),
                        None => {},
                    }
                }
            },
            None => {},
        }
    }
}

/// A cut asked for by `server_name` lies behind the fixed part of the
/// ClientHello and inside the buffer.
pub proof fn lemma_find_sni_bounds(s: Seq<u8>)
    ensures
        spec_find_sni(s) matches Some(cut) ==> SESSION_ID_OFFSET < cut <= s.len(),
{
    match spec_extensions_offset(s) {
        Some(block) => match spec_skip_u16_prefixed(s, block) {
            Some(end) => lemma_scan_extensions_bounds(s, block + 2, end),
            None => {},
        },
        None => {},
    }
}

/// The cut falls into the host name. Where the walk comes to a `server_name`
/// extension at `at` whose host name, of `name_len` bytes, lies inside the
/// buffer, the cut lies within the name; for a name of three bytes or more it
/// lies strictly between the first and the last byte of the name.
pub proof fn lemma_cut_lies_in_host_name(s: Seq<u8>, at: int, end: int, name_len: int)
    requires
        0 <= at < end,
        spec_u16_at(s, at) == Some(EXTENSION_SERVER_NAME),
        spec_u16_at(s, at + HOST_NAME_LEN_OFFSET) == Some(name_len as u16),
        0 <= name_len <= u16::MAX,
        at + HOST_NAME_OFFSET + name_len <= s.len(),
    ensures
        spec_scan_extensions(s, at, end) == Some(at + HOST_NAME_OFFSET + name_len / 2),
        at + HOST_NAME_OFFSET <= at + HOST_NAME_OFFSET + name_len / 2 <= at + HOST_NAME_OFFSET
            + name_len,
        name_len >= 3 ==> at + HOST_NAME_OFFSET < at + HOST_NAME_OFFSET + name_len / 2 < at
            + HOST_NAME_OFFSET + name_len - 1,
{
}

/// Finds where to cut a ClientHello record so that the cut falls into the
/// host name of its `server_name` extension: at the offset of the name's
/// first byte plus half the name's length.
///
/// Any buffer is accepted. The answer is `None` exactly where the walk
/// described by [`spec_find_sni`] finds no `server_name` extension, or would
/// have to read or step outside the buffer, or where the host name does not
/// lie inside the buffer.
pub fn find_sni(data: &[u8]) -> (r: Option<usize>)
    ensures
        match r {
            Some(cut) => spec_find_sni(data@) == Some(cut as int),
            None => spec_find_sni(data@).is_none(),
        },
        r matches Some(cut) ==> SESSION_ID_OFFSET < cut <= data.len(),
{
    let suites = match skip_u8_prefixed(data, SESSION_ID_OFFSET) {
        Some(next) => next,
        None => return None,
    };
    let methods = match skip_u16_prefixed(data, suites) {
        Some(next) => next,
        None => return None,
    };
    let block = match skip_u8_prefixed(data, methods) {
        Some(next) => next,
        None => return None,
    };
    let end = match skip_u16_prefixed(data, block) {
        Some(next) => next,
        None => return None,
    };
    let mut at: usize = block + 2;
    while at < end
        invariant
            at <= data.len(),
            end <= data.len(),
            spec_find_sni(data@) == spec_scan_extensions(data@, at as int, end as int),
        decreases data.len() - at,
    {
        let ty = match u16_at(data, at) {
            Some(ty) => ty,
            None => return None,
        };
        if ty == EXTENSION_SERVER_NAME {
            if data.len() - at < HOST_NAME_OFFSET {
                return None;
            }
            let name_len = match u16_at(data, at + HOST_NAME_LEN_OFFSET) {
                Some(len) => len as usize,
                None => return None,
            };
            if name_len > data.len() - at - HOST_NAME_OFFSET {
                return None;
            }
            proof {
                lemma_find_sni_bounds(data@);
            }
            return Some(at + HOST_NAME_OFFSET + name_len / 2);
        }
        at = match skip_u16_prefixed(data, at + 2) {
            Some(next) => next,
            None => return None,
        };
    }
    None
}

} // verus!
