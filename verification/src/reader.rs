//! Bounds-checked reads over a byte buffer.
//!
//! Every function takes the buffer and an offset into it and answers `None`
//! where the bytes it would need are not all inside the buffer. None of them
//! reads past the end and none panics, whatever the buffer holds.

use vstd::prelude::*;

verus! {

/// The value of two bytes read as one big-endian 16-bit integer.
pub open spec fn be16(hi: u8, lo: u8) -> int {
    hi as int * 256 + lo as int
}

/// The byte at `at`, if there is one.
pub open spec fn spec_u8_at(s: Seq<u8>, at: int) -> Option<u8> {
    if 0 <= at < s.len() {
        Some(s[at])
    } else {
        None
    }
}

/// The big-endian 16-bit integer whose two bytes start at `at`, if both are
/// inside `s`.
pub open spec fn spec_u16_at(s: Seq<u8>, at: int) -> Option<u16> {
    if 0 <= at && at + 2 <= s.len() {
        Some(be16(s[at], s[at + 1]) as u16)
    } else {
        None
    }
}

/// The offset just behind a field that starts at `at` with a one-byte length
/// and goes on with that many bytes, if the whole field is inside `s`.
pub open spec fn spec_skip_u8_prefixed(s: Seq<u8>, at: int) -> Option<int> {
    match spec_u8_at(s, at) {
        Some(n) => if at + 1 + n <= s.len() {
            Some(at + 1 + n)
        } else {
            None
        },
        None => None,
    }
}

/// The offset just behind a field that starts at `at` with a big-endian
/// two-byte length and goes on with that many bytes, if the whole field is
/// inside `s`.
pub open spec fn spec_skip_u16_prefixed(s: Seq<u8>, at: int) -> Option<int> {
    match spec_u16_at(s, at) {
        Some(n) => if at + 2 + n <= s.len() {
            Some(at + 2 + n)
        } else {
            None
        },
        None => None,
    }
}

/// Reads the byte at `at`.
pub fn u8_at(data: &[u8], at: usize) -> (r: Option<u8>)
    ensures
        r == spec_u8_at(data@, at as int),
{
    if at < data.len() {
        Some(data[at])
    } else {
        None
    }
}

/// Reads the big-endian 16-bit integer at `at`.
pub fn u16_at(data: &[u8], at: usize) -> (r: Option<u16>)
    ensures
        r == spec_u16_at(data@, at as int),
{
    if data.len() < 2 || at > data.len() - 2 {
        return None;
    }
    let hi: u16 = data[at] as u16;
    let lo: u16 = data[at + 1] as u16;
    Some(hi * 256 + lo)
}

/// Steps over a field with a one-byte length prefix that starts at `at`.
pub fn skip_u8_prefixed(data: &[u8], at: usize) -> (r: Option<usize>)
    ensures
        match r {
            Some(next) => spec_skip_u8_prefixed(data@, at as int) == Some(next as int),
            None => spec_skip_u8_prefixed(data@, at as int).is_none(),
        },
{
    match u8_at(data, at) {
        Some(n) => {
            let rest: usize = data.len() - at - 1;
            if n as usize <= rest {
                Some(at + 1 + n as usize)
            } else {
                None
            }
        },
        None => None,
    }
}

/// Steps over a field with a big-endian two-byte length prefix that starts at
/// `at`.
pub fn skip_u16_prefixed(data: &[u8], at: usize) -> (r: Option<usize>)
    ensures
        match r {
            Some(next) => spec_skip_u16_prefixed(data@, at as int) == Some(next as int),
            None => spec_skip_u16_prefixed(data@, at as int).is_none(),
        },
{
    match u16_at(data, at) {
        Some(n) => {
            let rest: usize = data.len() - at - 2;
            if n as usize <= rest {
                Some(at + 2 + n as usize)
            } else {
                None
            }
        },
        None => None,
    }
}

} // verus!
