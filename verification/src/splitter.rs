//! Cutting one TLS record into two.
//!
//! A record is a header of five bytes and a payload: content type (one byte),
//! legacy version (two bytes), payload length (two bytes, big-endian), then
//! the payload. Cut at an offset `mid`, the bytes before `mid` become the
//! first record, with a length field that counts only its share of the
//! payload. The bytes from `mid` on become the payload of a second record,
//! under a header with the same content type and version.
//!
//! A receiver joins the payloads of consecutive handshake records before it
//! reads handshake messages from them, so the two records mean what the one
//! meant.

use vstd::prelude::*;
use crate::hello::{spec_is_hello, RECORD_HEADER_LEN};
use crate::sni::{find_sni, lemma_find_sni_bounds, spec_find_sni};

verus! {

/// The largest payload length that the length field of a record can hold.
pub const MAX_LENGTH_FIELD: usize = 0xffff;

/// The payload of a record: what follows its header.
pub open spec fn record_payload(r: Seq<u8>) -> Seq<u8>
    recommends
        r.len() >= RECORD_HEADER_LEN,
{
    r.subrange(RECORD_HEADER_LEN as int, r.len() as int)
}

/// The number that the length field of a record holds.
pub open spec fn record_length_field(r: Seq<u8>) -> int
    recommends
        r.len() >= RECORD_HEADER_LEN,
{
    r[3] as int * 256 + r[4] as int
}

/// The content type and the legacy version of a record: its first three
/// bytes.
pub open spec fn record_kind(r: Seq<u8>) -> Seq<u8>
    recommends
        r.len() >= RECORD_HEADER_LEN,
{
    r.subrange(0, 3)
}

/// A buffer is one whole record: a header, and as many bytes of payload as
/// the header's length field says.
pub open spec fn is_record(r: Seq<u8>) -> bool {
    &&& r.len() >= RECORD_HEADER_LEN
    &&& record_length_field(r) == r.len() - RECORD_HEADER_LEN
}

/// The two bytes of a length field for a payload of `n` bytes: the low
/// sixteen bits of `n`, high byte first.
pub open spec fn length_bytes(n: int) -> Seq<u8> {
    seq![((n / 256) % 256) as u8, (n % 256) as u8]
}

/// The first record of `s` cut at `mid`.
pub open spec fn spec_first(s: Seq<u8>, mid: int) -> Seq<u8> {
    s.subrange(0, 3) + length_bytes(mid - RECORD_HEADER_LEN) + s.subrange(
        RECORD_HEADER_LEN as int,
        mid,
    )
}

/// The second record of `s` cut at `mid`.
pub open spec fn spec_second(s: Seq<u8>, mid: int) -> Seq<u8> {
    s.subrange(0, 3) + length_bytes(s.len() - mid) + s.subrange(mid, s.len() as int)
}

/// The offset that halves the payload of `s`.
pub open spec fn spec_midpoint(s: Seq<u8>) -> int {
    RECORD_HEADER_LEN + (s.len() - RECORD_HEADER_LEN) / 2
}

/// Where `s` is cut: in the middle of the host name of its `server_name`
/// extension, and in the middle of the payload where none is found.
pub open spec fn spec_choose_split(s: Seq<u8>) -> int {
    match spec_find_sni(s) {
        Some(cut) => cut,
        None => spec_midpoint(s),
    }
}

/// Every record longer than its header has a cut, behind the header and
/// inside the buffer.
pub proof fn lemma_choose_split_bounds(s: Seq<u8>)
    requires
        s.len() > RECORD_HEADER_LEN,
    ensures
        RECORD_HEADER_LEN <= spec_choose_split(s) <= s.len(),
{
    lemma_find_sni_bounds(s);
}

/// The two records of a cut carry the payload of the record that was cut
/// between them, byte for byte and in order, each under its content type and
/// version.
pub proof fn lemma_split_keeps_payload(s: Seq<u8>, mid: int)
    requires
        s.len() > RECORD_HEADER_LEN,
        RECORD_HEADER_LEN <= mid <= s.len(),
    ensures
        spec_first(s, mid).len() == mid,
        spec_second(s, mid).len() == RECORD_HEADER_LEN + s.len() - mid,
        record_payload(spec_first(s, mid)) + record_payload(spec_second(s, mid))
            == record_payload(s),
        record_kind(spec_first(s, mid)) == record_kind(s),
        record_kind(spec_second(s, mid)) == record_kind(s),
{
    let first = spec_first(s, mid);
    let second = spec_second(s, mid);
    assert(record_payload(first) =~= s.subrange(RECORD_HEADER_LEN as int, mid));
    assert(record_payload(second) =~= s.subrange(mid, s.len() as int));
    assert(record_payload(first) + record_payload(second) =~= record_payload(s));
    assert(record_kind(first) =~= record_kind(s));
    assert(record_kind(second) =~= record_kind(s));
}

/// The length field of each of the two records says how long its payload is
/// exactly where that length fits into sixteen bits.
pub proof fn lemma_split_length_fields(s: Seq<u8>, mid: int)
    requires
        s.len() > RECORD_HEADER_LEN,
        RECORD_HEADER_LEN <= mid <= s.len(),
    ensures
        is_record(spec_first(s, mid)) <==> mid - RECORD_HEADER_LEN <= MAX_LENGTH_FIELD,
        is_record(spec_second(s, mid)) <==> s.len() - mid <= MAX_LENGTH_FIELD,
{
    let left = mid - RECORD_HEADER_LEN;
    let right = s.len() - mid;
    assert(((left / 256) % 256) * 256 + left % 256 == left % 65536) by (nonlinear_arith)
        requires
            left >= 0,
    ;
    assert(((right / 256) % 256) * 256 + right % 256 == right % 65536) by (nonlinear_arith)
        requires
            right >= 0,
    ;
    assert(record_length_field(spec_first(s, mid)) == left % 65536);
    assert(record_length_field(spec_second(s, mid)) == right % 65536);
}

/// A ClientHello record that is cut where [`spec_choose_split`] says leaves
/// as two whole records that carry its payload between them, provided that
/// each share of the payload fits the sixteen bits of a length field.
pub proof fn lemma_hello_fragments(s: Seq<u8>)
    requires
        spec_is_hello(s),
        spec_choose_split(s) - RECORD_HEADER_LEN <= MAX_LENGTH_FIELD,
        s.len() - spec_choose_split(s) <= MAX_LENGTH_FIELD,
    ensures
        is_record(spec_first(s, spec_choose_split(s))),
        is_record(spec_second(s, spec_choose_split(s))),
        record_payload(spec_first(s, spec_choose_split(s))) + record_payload(
            spec_second(s, spec_choose_split(s)),
        ) == record_payload(s),
{
    lemma_choose_split_bounds(s);
    lemma_split_keeps_payload(s, spec_choose_split(s));
    lemma_split_length_fields(s, spec_choose_split(s));
}

/// The two bytes of a length field for a payload of `n` bytes.
fn length_field(n: usize) -> (r: (u8, u8))
    ensures
        seq![r.0, r.1] == length_bytes(n as int),
{
    let hi: u8 = ((n / 256) % 256) as u8;
    let lo: u8 = (n % 256) as u8;
    (hi, lo)
}

/// Chooses the offset at which to cut the record in `data`: in the middle of
/// the host name where [`find_sni`] finds one, else in the middle of the
/// payload.
pub fn choose_split(data: &[u8]) -> (mid: usize)
    requires
        data.len() > RECORD_HEADER_LEN,
    ensures
        mid == spec_choose_split(data@),
        RECORD_HEADER_LEN <= mid <= data.len(),
{
    match find_sni(data) {
        Some(cut) => cut,
        None => RECORD_HEADER_LEN + (data.len() - RECORD_HEADER_LEN) / 2,
    }
}

/// Cuts the record in `data` at `mid` into two records.
///
/// The first holds the bytes before `mid`, with its length field rewritten
/// to the length of its share of the payload. The second holds the content
/// type and version of `data`, a length field for the rest, and the bytes
/// from `mid` on. A length that does not fit into sixteen bits is written
/// with its low sixteen bits.
pub fn split(data: &[u8], mid: usize) -> (r: (Vec<u8>, Vec<u8>))
    requires
        data.len() > RECORD_HEADER_LEN,
        RECORD_HEADER_LEN <= mid <= data.len(),
    ensures
        r.0@ == spec_first(data@, mid as int),
        r.1@ == spec_second(data@, mid as int),
        record_payload(r.0@) + record_payload(r.1@) == record_payload(data@),
        record_kind(r.0@) == record_kind(data@),
        record_kind(r.1@) == record_kind(data@),
        is_record(r.0@) <==> mid - RECORD_HEADER_LEN <= MAX_LENGTH_FIELD,
        is_record(r.1@) <==> data.len() - mid <= MAX_LENGTH_FIELD,
{
    let (left, right) = data.split_at(mid);

    let (hi, lo) = length_field(left.len() - RECORD_HEADER_LEN);
    let mut first = vstd::slice::slice_to_vec(left);
    first[3] = hi;
    first[4] = lo;

    let (hi, lo) = length_field(right.len());
    let mut second = vec![data[0], data[1], data[2], hi, lo];
    second.extend_from_slice(right);

    proof {
        lemma_split_keeps_payload(data@, mid as int);
        lemma_split_length_fields(data@, mid as int);
        assert(first@ =~= spec_first(data@, mid as int));
        assert(second@ =~= spec_second(data@, mid as int));
    }
    (first, second)
}

/// Cuts the record in `data` into two records, at the offset that
/// [`choose_split`] picks.
pub fn fragmentate(data: &[u8]) -> (r: (Vec<u8>, Vec<u8>))
    requires
        data.len() > RECORD_HEADER_LEN,
    ensures
        r.0@ == spec_first(data@, spec_choose_split(data@)),
        r.1@ == spec_second(data@, spec_choose_split(data@)),
        record_payload(r.0@) + record_payload(r.1@) == record_payload(data@),
        record_kind(r.0@) == record_kind(data@),
        record_kind(r.1@) == record_kind(data@),
        is_record(r.0@) <==> spec_choose_split(data@) - RECORD_HEADER_LEN <= MAX_LENGTH_FIELD,
        is_record(r.1@) <==> data.len() - spec_choose_split(data@) <= MAX_LENGTH_FIELD,
{
    let mid = choose_split(data);
    split(data, mid)
}

} // verus!
