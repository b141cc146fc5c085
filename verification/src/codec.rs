//! The byte layout of persisted records and of request payloads.
//!
//! Integers are little-endian and of fixed width. A flag is one byte, zero or
//! one. An address is its 32 bytes. A string is the number of its UTF-8 bytes
//! as a 32-bit integer, followed by those bytes.

use crate::address::Address;
use vstd::bytes::{
    lemma_auto_spec_u32_to_from_le_bytes, lemma_auto_spec_u64_to_from_le_bytes,
    spec_u32_from_le_bytes, spec_u32_to_le_bytes, spec_u64_from_le_bytes, spec_u64_to_le_bytes,
    u32_from_le_bytes, u32_to_le_bytes, u64_from_le_bytes, u64_to_le_bytes,
};
use vstd::prelude::*;
use vstd::slice::slice_subrange;
use vstd::utf8::{
    decode_utf8, decode_utf8_encode_utf8, encode_utf8, encode_utf8_decode_utf8,
    encode_utf8_valid_utf8, valid_utf8,
};

verus! {

/// A signed 64-bit integer as the unsigned integer with the same bits.
pub open spec fn i64_bits(x: i64) -> u64 {
    x as u64
}

/// The signed 64-bit integer with the bits of an unsigned one.
pub open spec fn i64_of_bits(x: u64) -> i64 {
    x as i64
}

/// The bytes of a signed 64-bit integer.
pub open spec fn i64_bytes(x: i64) -> Seq<u8> {
    spec_u64_to_le_bytes(i64_bits(x))
}

/// The signed 64-bit integer that eight bytes hold.
pub open spec fn i64_from_bytes(bytes: Seq<u8>) -> i64 {
    i64_of_bits(spec_u64_from_le_bytes(bytes))
}

/// The byte of a flag.
pub open spec fn bool_byte(b: bool) -> u8 {
    if b {
        1
    } else {
        0
    }
}

/// The bytes of a string: the length of its UTF-8 form, then that form.
pub open spec fn string_bytes(s: Seq<char>) -> Seq<u8> {
    spec_u32_to_le_bytes(encode_utf8(s).len() as u32) + encode_utf8(s)
}

/// Whether a string is short enough for its length to be written down.
pub open spec fn string_fits(s: Seq<char>) -> bool {
    encode_utf8(s).len() <= u32::MAX
}

/// The bits of a signed integer survive the way to unsigned and back.
pub proof fn lemma_i64_bits(x: i64)
    ensures
        i64_of_bits(i64_bits(x)) == x,
        i64_from_bytes(i64_bytes(x)) == x,
        i64_bytes(x).len() == 8,
{
    assert((x as u64) as i64 == x) by (bit_vector);
    lemma_auto_spec_u64_to_from_le_bytes();
}

/// Appends the bytes of an unsigned 64-bit integer.
pub fn put_u64(out: &mut Vec<u8>, x: u64)
    ensures
        final(out)@ == old(out)@ + spec_u64_to_le_bytes(x),
{
    let mut bytes = u64_to_le_bytes(x);
    out.append(&mut bytes);
}

/// Appends the bytes of an unsigned 32-bit integer.
pub fn put_u32(out: &mut Vec<u8>, x: u32)
    ensures
        final(out)@ == old(out)@ + spec_u32_to_le_bytes(x),
{
    let mut bytes = u32_to_le_bytes(x);
    out.append(&mut bytes);
}

/// Appends the bytes of a signed 64-bit integer.
pub fn put_i64(out: &mut Vec<u8>, x: i64)
    ensures
        final(out)@ == old(out)@ + i64_bytes(x),
{
    let bits: u64 = #[verifier::truncate] (x as u64);
    put_u64(out, bits);
}

/// Appends the byte of a flag.
pub fn put_bool(out: &mut Vec<u8>, b: bool)
    ensures
        final(out)@ == old(out)@.push(bool_byte(b)),
{
    if b {
        out.push(1);
    } else {
        out.push(0);
    }
}

/// Appends bytes as they are.
pub fn put_bytes(out: &mut Vec<u8>, bytes: &[u8])
    ensures
        final(out)@ == old(out)@ + bytes@,
{
    let mut i: usize = 0;
    while i < bytes.len()
        invariant
            i <= bytes@.len(),
            out@ == old(out)@ + bytes@.subrange(0, i as int),
        decreases bytes@.len() - i,
    {
        out.push(bytes[i]);
        i += 1;
        assert(out@ =~= old(out)@ + bytes@.subrange(0, i as int));
    }
    assert(bytes@.subrange(0, bytes@.len() as int) =~= bytes@);
}

/// Appends the bytes of an address.
pub fn put_address(out: &mut Vec<u8>, address: &Address)
    ensures
        final(out)@ == old(out)@ + address@,
{
    let mut i: usize = 0;
    while i < 32
        invariant
            i <= 32,
            out@ == old(out)@ + address@.subrange(0, i as int),
        decreases 32 - i,
    {
        out.push(address.bytes[i]);
        i += 1;
        assert(out@ =~= old(out)@ + address@.subrange(0, i as int));
    }
    assert(address@.subrange(0, 32) =~= address@);
}

/// Appends a string: its length, then its UTF-8 bytes. Returns false, with
/// nothing appended, if the string is too long for its length to be written.
pub fn put_string(out: &mut Vec<u8>, s: &str) -> (ok: bool)
    ensures
        ok == string_fits(s@),
        ok ==> final(out)@ == old(out)@ + string_bytes(s@),
        !ok ==> final(out)@ == old(out)@,
{
    let bytes = s.as_bytes();
    if bytes.len() > 0xffff_ffff {
        return false;
    }
    let n: u32 = bytes.len() as u32;
    put_u32(out, n);
    put_bytes(out, bytes);
    assert(out@ =~= old(out)@ + string_bytes(s@));
    true
}

/// Reads the unsigned 64-bit integer at an offset.
pub fn read_u64(data: &[u8], at: usize) -> (r: u64)
    requires
        at + 8 <= data@.len(),
    ensures
        r == spec_u64_from_le_bytes(data@.subrange(at as int, at + 8)),
{
    let end = data.len();
    u64_from_le_bytes(slice_subrange(data, at, at + 8))
}

/// Reads the unsigned 32-bit integer at an offset.
pub fn read_u32(data: &[u8], at: usize) -> (r: u32)
    requires
        at + 4 <= data@.len(),
    ensures
        r == spec_u32_from_le_bytes(data@.subrange(at as int, at + 4)),
{
    let end = data.len();
    u32_from_le_bytes(slice_subrange(data, at, at + 4))
}

/// Reads the signed 64-bit integer at an offset.
pub fn read_i64(data: &[u8], at: usize) -> (r: i64)
    requires
        at + 8 <= data@.len(),
    ensures
        r == i64_from_bytes(data@.subrange(at as int, at + 8)),
{
    let bits = read_u64(data, at);
    #[verifier::truncate]
    (bits as i64)
}

/// Reads the address at an offset.
pub fn read_address(data: &[u8], at: usize) -> (r: Address)
    requires
        at + 32 <= data@.len(),
    ensures
        r@ == data@.subrange(at as int, at + 32),
{
    let end = data.len();
    let mut bytes: [u8; 32] = [0u8;32];
    let mut i: usize = 0;
    while i < 32
        invariant
            i <= 32,
            at + 32 <= data@.len() == end,
            forall|j: int| 0 <= j < i ==> bytes@[j] == data@[at + j],
        decreases 32 - i,
    {
        bytes[i] = data[at + i];
        i += 1;
    }
    let r = Address { bytes };
    assert(r@ =~= data@.subrange(at as int, at + 32));
    r
}

/// Calls `String::from_utf8` of the standard library.
///
/// Believed of it: it accepts exactly the byte strings that are valid UTF-8,
/// and the string it returns has the bytes it was given.
#[verifier::external_body]
pub(crate) fn string_from_utf8(bytes: Vec<u8>) -> (r: Option<String>)
    ensures
        r is Some <==> valid_utf8(bytes@),
        r is Some ==> encode_utf8(r.unwrap()@) == bytes@,
{
    match String::from_utf8(bytes) {
        Ok(s) => Some(s),
        Err(_) => None,
    }
}

/// Reads the string whose UTF-8 bytes lie between two offsets.
pub fn read_string(data: &[u8], from: usize, to: usize) -> (r: Option<String>)
    requires
        from <= to <= data@.len(),
    ensures
        r is Some <==> valid_utf8(data@.subrange(from as int, to as int)),
        r is Some ==> r.unwrap()@ == decode_utf8(data@.subrange(from as int, to as int)),
{
    let mut bytes: Vec<u8> = Vec::new();
    put_bytes(&mut bytes, slice_subrange(data, from, to));
    assert(bytes@ =~= data@.subrange(from as int, to as int));
    let r = string_from_utf8(bytes);
    proof {
        if r is Some {
            encode_utf8_decode_utf8(r.unwrap()@);
        }
    }
    r
}

/// A string's bytes read back as the string. What comes after them does not
/// matter.
pub proof fn lemma_string_round_trip(s: Seq<char>, rest: Seq<u8>)
    requires
        string_fits(s),
    ensures
        string_bytes(s).len() == 4 + encode_utf8(s).len(),
        spec_u32_from_le_bytes((string_bytes(s) + rest).subrange(0, 4)) == encode_utf8(s).len(),
        (string_bytes(s) + rest).subrange(4, 4 + encode_utf8(s).len() as int) == encode_utf8(s),
        valid_utf8(encode_utf8(s)),
        decode_utf8(encode_utf8(s)) == s,
{
    lemma_auto_spec_u32_to_from_le_bytes();
    let n = encode_utf8(s).len() as u32;
    let whole = string_bytes(s) + rest;
    assert(whole.subrange(0, 4) =~= spec_u32_to_le_bytes(n));
    assert(whole.subrange(4, 4 + encode_utf8(s).len() as int) =~= encode_utf8(s));
    encode_utf8_valid_utf8(s);
    encode_utf8_decode_utf8(s);
}

/// Valid UTF-8 bytes are the bytes of the string they decode to.
pub proof fn lemma_string_canonical(bytes: Seq<u8>)
    requires
        valid_utf8(bytes),
    ensures
        encode_utf8(decode_utf8(bytes)) == bytes,
{
    decode_utf8_encode_utf8(bytes);
}

/// The bytes of a request's payload: a 64-bit integer, then a string.
pub open spec fn payload_bytes(value: u64, name: Seq<char>) -> Seq<u8> {
    spec_u64_to_le_bytes(value) + string_bytes(name)
}

/// The length of the string that the bytes of a payload announce.
pub open spec fn payload_name_len(data: Seq<u8>) -> int {
    spec_u32_from_le_bytes(data.subrange(8, 12)) as int
}

/// The integer and the string that a payload holds, if the bytes are a
/// payload and nothing more.
pub open spec fn payload_parse(data: Seq<u8>) -> Option<(u64, Seq<char>)> {
    if data.len() < 12 || data.len() != 12 + payload_name_len(data) || !valid_utf8(
        data.subrange(12, data.len() as int),
    ) {
        None
    } else {
        Some(
            (
                spec_u64_from_le_bytes(data.subrange(0, 8)),
                decode_utf8(data.subrange(12, data.len() as int)),
            ),
        )
    }
}

/// A payload's integer and string, over their views.
pub open spec fn payload_view(payload: Option<(u64, String)>) -> Option<(u64, Seq<char>)> {
    match payload {
        Some((value, name)) => Some((value, name@)),
        None => None,
    }
}

/// The bytes written, over their view.
pub open spec fn bytes_view(bytes: Option<Vec<u8>>) -> Option<Seq<u8>> {
    match bytes {
        Some(b) => Some(b@),
        None => None,
    }
}

/// The bytes of a payload read back as the integer and the string.
pub proof fn lemma_payload_round_trip(value: u64, name: Seq<char>)
    requires
        string_fits(name),
    ensures
        payload_parse(payload_bytes(value, name)) == Some((value, name)),
{
    lemma_auto_spec_u64_to_from_le_bytes();
    lemma_string_round_trip(name, Seq::<u8>::empty());
    let data = payload_bytes(value, name);
    let n = encode_utf8(name).len() as int;
    assert(string_bytes(name) + Seq::<u8>::empty() =~= string_bytes(name));
    assert(data.subrange(0, 8) =~= spec_u64_to_le_bytes(value));
    assert(data.subrange(8, 12) =~= string_bytes(name).subrange(0, 4));
    assert(data.len() == 12 + n);
    assert(data.subrange(12, data.len() as int) =~= string_bytes(name).subrange(4, 4 + n));
}

/// A payload has one encoding only: bytes that read as an integer and a
/// string are the bytes of that integer and that string.
pub proof fn lemma_payload_canonical(data: Seq<u8>)
    requires
        payload_parse(data) is Some,
    ensures
        payload_bytes(payload_parse(data).unwrap().0, payload_parse(data).unwrap().1) == data,
        string_fits(payload_parse(data).unwrap().1),
{
    lemma_auto_spec_u64_to_from_le_bytes();
    lemma_auto_spec_u32_to_from_le_bytes();
    let tail = data.subrange(12, data.len() as int);
    lemma_string_canonical(tail);
    let (value, name) = payload_parse(data).unwrap();
    assert(encode_utf8(name) == tail);
    assert(spec_u64_to_le_bytes(value) == data.subrange(0, 8));
    assert(spec_u32_to_le_bytes(tail.len() as u32) == data.subrange(8, 12));
    assert(payload_bytes(value, name) =~= data);
}

/// Reads a payload: the integer and the string that the bytes hold, if
/// they hold a payload and nothing more.
pub fn read_payload(data: &[u8]) -> (r: Option<(u64, String)>)
    ensures
        payload_view(r) == payload_parse(data@),
{
    let len = data.len();
    if len < 12 {
        return None;
    }
    let n = read_u32(data, 8) as usize;
    if len - 12 != n {
        return None;
    }
    let value = read_u64(data, 0);
    match read_string(data, 12, len) {
        Some(name) => Some((value, name)),
        None => None,
    }
}

/// Writes a payload. Returns nothing if the string is too long for its
/// length to be written.
pub fn write_payload(value: u64, name: &str) -> (r: Option<Vec<u8>>)
    ensures
        bytes_view(r) == if string_fits(name@) {
            Some(payload_bytes(value, name@))
        } else {
            None
        },
{
    let mut out: Vec<u8> = Vec::new();
    put_u64(&mut out, value);
    if !put_string(&mut out, name) {
        return None;
    }
    assert(out@ =~= payload_bytes(value, name@));
    Some(out)
}

} // verus!
