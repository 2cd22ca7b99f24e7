//! The primitive encodings of the wire format: little-endian integers of a
//! fixed width, booleans of one byte, and byte strings and UTF-8 text behind a
//! 64-bit length.

use vstd::prelude::*;
use vstd::utf8::*;
use vstd::string::*;
use vstd::slice::*;

verus! {

/// The two bytes of `value`, least significant first.
pub open spec fn u16_le(value: u16) -> Seq<u8> {
    seq![(value % 256) as u8, (value / 256) as u8]
}

/// The four bytes of `value`, least significant first.
pub open spec fn u32_le(value: u32) -> Seq<u8> {
    seq![
        (value % 256) as u8,
        (value / 256 % 256) as u8,
        (value / 65536 % 256) as u8,
        (value / 16777216) as u8,
    ]
}

/// The eight bytes of `value`, least significant first.
pub open spec fn u64_le(value: u64) -> Seq<u8> {
    u32_le((value % 4294967296) as u32) + u32_le((value / 4294967296) as u32)
}

/// One byte: 1 for `true`, 0 for `false`.
pub open spec fn bool_byte(value: bool) -> Seq<u8> {
    seq![if value { 1u8 } else { 0u8 }]
}

/// A byte string on the wire: its length as a 64-bit integer, then the bytes.
pub open spec fn blob_bytes(bytes: Seq<u8>) -> Seq<u8> {
    u64_le(bytes.len() as u64) + bytes
}

/// Text on the wire: its UTF-8 encoding as a byte string.
pub open spec fn text_bytes(text: Seq<char>) -> Seq<u8> {
    blob_bytes(encode_utf8(text))
}

/// Whether `count` bytes stand in `input` from position `at` on.
pub open spec fn in_reach(input: Seq<u8>, at: int, count: int) -> bool {
    0 <= at && 0 <= count && at + count <= input.len()
}

/// The 16-bit integer whose little-endian bytes start at `at`.
pub open spec fn u16_at(input: Seq<u8>, at: int) -> u16 {
    (input[at] + 256 * input[at + 1]) as u16
}

/// The 32-bit integer whose little-endian bytes start at `at`.
pub open spec fn u32_at(input: Seq<u8>, at: int) -> u32 {
    (input[at] + 256 * input[at + 1] + 65536 * input[at + 2] + 16777216 * input[at + 3]) as u32
}

/// The 64-bit integer whose little-endian bytes start at `at`.
pub open spec fn u64_at(input: Seq<u8>, at: int) -> u64 {
    (u32_at(input, at) + 4294967296 * u32_at(input, at + 4)) as u64
}

/// Reads a boolean at `at`: only the bytes 0 and 1 stand for one.
pub open spec fn parse_bool(input: Seq<u8>, at: int) -> Option<(bool, int)> {
    if in_reach(input, at, 1) && input[at] <= 1 {
        Some((input[at] == 1, at + 1))
    } else {
        None
    }
}

/// Reads a byte string at `at`: the value and the position behind it.
pub open spec fn parse_blob(input: Seq<u8>, at: int) -> Option<(Seq<u8>, int)> {
    if in_reach(input, at, 8) && in_reach(input, at + 8, u64_at(input, at) as int) {
        Some((input.subrange(at + 8, at + 8 + u64_at(input, at)), at + 8 + u64_at(input, at)))
    } else {
        None
    }
}

/// Reads text at `at`: a byte string that must be valid UTF-8.
pub open spec fn parse_text(input: Seq<u8>, at: int) -> Option<(Seq<char>, int)> {
    match parse_blob(input, at) {
        Some((bytes, next)) => if valid_utf8(bytes) {
            Some((decode_utf8(bytes), next))
        } else {
            None
        },
        None => None,
    }
}

/// A 16-bit integer read back from its own encoding is the same integer.
pub proof fn lemma_u16_round_trip(before: Seq<u8>, value: u16, after: Seq<u8>)
    ensures
        u16_at(before + u16_le(value) + after, before.len() as int) == value,
        in_reach(before + u16_le(value) + after, before.len() as int, 2),
{
    let all = before + u16_le(value) + after;
    let at = before.len() as int;
    assert(all[at] == u16_le(value)[0]);
    assert(all[at + 1] == u16_le(value)[1]);
}

/// A 32-bit integer read back from its own encoding is the same integer.
pub proof fn lemma_u32_round_trip(before: Seq<u8>, value: u32, after: Seq<u8>)
    ensures
        u32_at(before + u32_le(value) + after, before.len() as int) == value,
        in_reach(before + u32_le(value) + after, before.len() as int, 4),
{
    let all = before + u32_le(value) + after;
    let at = before.len() as int;
    assert(all[at] == u32_le(value)[0]);
    assert(all[at + 1] == u32_le(value)[1]);
    assert(all[at + 2] == u32_le(value)[2]);
    assert(all[at + 3] == u32_le(value)[3]);
}

/// A 64-bit integer read back from its own encoding is the same integer.
pub proof fn lemma_u64_round_trip(before: Seq<u8>, value: u64, after: Seq<u8>)
    ensures
        u64_at(before + u64_le(value) + after, before.len() as int) == value,
        in_reach(before + u64_le(value) + after, before.len() as int, 8),
{
    let low = (value % 4294967296) as u32;
    let high = (value / 4294967296) as u32;
    let all = before + u64_le(value) + after;
    assert(all =~= before + u32_le(low) + (u32_le(high) + after));
    lemma_u32_round_trip(before, low, u32_le(high) + after);
    assert(all =~= (before + u32_le(low)) + u32_le(high) + after);
    lemma_u32_round_trip(before + u32_le(low), high, after);
}

/// A boolean read back from its own encoding is the same boolean.
pub proof fn lemma_bool_round_trip(before: Seq<u8>, value: bool, after: Seq<u8>)
    ensures
        parse_bool(before + bool_byte(value) + after, before.len() as int) == Some(
            (value, before.len() as int + 1),
        ),
{
    let all = before + bool_byte(value) + after;
    assert(all[before.len() as int] == bool_byte(value)[0]);
}

/// A byte string read back from its own encoding is the same byte string,
/// and the reader stops right behind it.
pub proof fn lemma_blob_round_trip(before: Seq<u8>, bytes: Seq<u8>, after: Seq<u8>)
    requires
        bytes.len() <= u64::MAX,
    ensures
        parse_blob(before + blob_bytes(bytes) + after, before.len() as int) == Some(
            (bytes, before.len() as int + blob_bytes(bytes).len()),
        ),
        blob_bytes(bytes).len() == 8 + bytes.len(),
{
    let all = before + blob_bytes(bytes) + after;
    let at = before.len() as int;
    let length = bytes.len() as u64;
    assert(all =~= before + u64_le(length) + (bytes + after));
    lemma_u64_round_trip(before, length, bytes + after);
    assert(all.subrange(at + 8, at + 8 + length) =~= bytes);
}

/// Text read back from its own encoding is the same text.
pub proof fn lemma_text_round_trip(before: Seq<u8>, text: Seq<char>, after: Seq<u8>)
    requires
        encode_utf8(text).len() <= u64::MAX,
    ensures
        parse_text(before + text_bytes(text) + after, before.len() as int) == Some(
            (text, before.len() as int + text_bytes(text).len()),
        ),
        text_bytes(text).len() == 8 + encode_utf8(text).len(),
{
    lemma_blob_round_trip(before, encode_utf8(text), after);
    encode_utf8_valid_utf8(text);
    encode_utf8_decode_utf8(text);
}

/// Appends the little-endian bytes of `value`.
pub fn put_u16(buffer: &mut Vec<u8>, value: u16)
    ensures
        final(buffer)@ == old(buffer)@ + u16_le(value),
{
    buffer.push((value % 256) as u8);
    buffer.push((value / 256) as u8);
    assert(buffer@ =~= old(buffer)@ + u16_le(value));
}

/// Appends the little-endian bytes of `value`.
pub fn put_u32(buffer: &mut Vec<u8>, value: u32)
    ensures
        final(buffer)@ == old(buffer)@ + u32_le(value),
{
    buffer.push((value % 256) as u8);
    buffer.push((value / 256 % 256) as u8);
    buffer.push((value / 65536 % 256) as u8);
    buffer.push((value / 16777216) as u8);
    assert(buffer@ =~= old(buffer)@ + u32_le(value));
}

/// Appends the little-endian bytes of `value`.
pub fn put_u64(buffer: &mut Vec<u8>, value: u64)
    ensures
        final(buffer)@ == old(buffer)@ + u64_le(value),
{
    put_u32(buffer, (value % 4294967296) as u32);
    put_u32(buffer, (value / 4294967296) as u32);
    assert(buffer@ =~= old(buffer)@ + u64_le(value));
}

/// Appends one byte for `value`.
pub fn put_bool(buffer: &mut Vec<u8>, value: bool)
    ensures
        final(buffer)@ == old(buffer)@ + bool_byte(value),
{
    buffer.push(if value { 1 } else { 0 });
    assert(buffer@ =~= old(buffer)@ + bool_byte(value));
}

/// Appends `bytes` as they are.
pub fn put_raw(buffer: &mut Vec<u8>, bytes: &[u8])
    ensures
        final(buffer)@ == old(buffer)@ + bytes@,
{
    let mut i: usize = 0;
    while i < bytes.len()
        invariant
            i <= bytes.len(),
            buffer@ == old(buffer)@ + bytes@.subrange(0, i as int),
        decreases bytes.len() - i,
    {
        buffer.push(bytes[i]);
        i = i + 1;
        assert(buffer@ =~= old(buffer)@ + bytes@.subrange(0, i as int));
    }
    assert(bytes@.subrange(0, i as int) =~= bytes@);
}

/// Appends `bytes` behind their length.
pub fn put_blob(buffer: &mut Vec<u8>, bytes: &[u8])
    ensures
        final(buffer)@ == old(buffer)@ + blob_bytes(bytes@),
        bytes@.len() <= u64::MAX,
{
    put_u64(buffer, bytes.len() as u64);
    put_raw(buffer, bytes);
    assert(buffer@ =~= old(buffer)@ + blob_bytes(bytes@));
}

/// Appends `text` as UTF-8 behind the length of that encoding.
pub fn put_text(buffer: &mut Vec<u8>, text: &str)
    ensures
        final(buffer)@ == old(buffer)@ + text_bytes(text@),
        encode_utf8(text@).len() <= u64::MAX,
{
    put_blob(buffer, text.as_bytes());
}

/// Reads a 16-bit integer at `at`, if two bytes stand there.
pub fn take_u16(input: &[u8], at: usize) -> (read: Option<(u16, usize)>)
    ensures
        read == (if in_reach(input@, at as int, 2) {
            Some((u16_at(input@, at as int), (at + 2) as usize))
        } else {
            None
        }),
{
    if input.len() < 2 || at > input.len() - 2 {
        return None;
    }
    let value: u16 = input[at] as u16 + 256 * (input[at + 1] as u16);
    Some((value, at + 2))
}

/// Reads a 32-bit integer at `at`, if four bytes stand there.
pub fn take_u32(input: &[u8], at: usize) -> (read: Option<(u32, usize)>)
    ensures
        read == (if in_reach(input@, at as int, 4) {
            Some((u32_at(input@, at as int), (at + 4) as usize))
        } else {
            None
        }),
{
    if input.len() < 4 || at > input.len() - 4 {
        return None;
    }
    let value: u32 = input[at] as u32 + 256 * (input[at + 1] as u32) + 65536 * (input[at
        + 2] as u32) + 16777216 * (input[at + 3] as u32);
    Some((value, at + 4))
}

/// Reads a 64-bit integer at `at`, if eight bytes stand there.
pub fn take_u64(input: &[u8], at: usize) -> (read: Option<(u64, usize)>)
    ensures
        read == (if in_reach(input@, at as int, 8) {
            Some((u64_at(input@, at as int), (at + 8) as usize))
        } else {
            None
        }),
{
    if input.len() < 8 || at > input.len() - 8 {
        return None;
    }
    match (take_u32(input, at), take_u32(input, at + 4)) {
        (Some((low, _)), Some((high, _))) => {
            let value: u64 = low as u64 + 4294967296 * (high as u64);
            Some((value, at + 8))
        },
        _ => None,
    }
}

/// Reads a boolean at `at`.
pub fn take_bool(input: &[u8], at: usize) -> (read: Option<(bool, usize)>)
    ensures
        match parse_bool(input@, at as int) {
            Some((value, next)) => read == Some((value, next as usize)) && next <= input@.len(),
            None => read is None,
        },
{
    if at >= input.len() || input[at] > 1 {
        return None;
    }
    Some((input[at] == 1, at + 1))
}

/// Reads a byte string at `at`.
pub fn take_blob(input: &[u8], at: usize) -> (read: Option<(Vec<u8>, usize)>)
    ensures
        match parse_blob(input@, at as int) {
            Some((bytes, next)) => read matches Some((got, after)) && got@ == bytes && after == next
                && next <= input@.len(),
            None => read is None,
        },
{
    match take_u64(input, at) {
        Some((length, start)) => {
            if length > (input.len() - start) as u64 {
                return None;
            }
            let end: usize = start + length as usize;
            let bytes = slice_to_vec(slice_subrange(input, start, end));
            Some((bytes, end))
        },
        None => None,
    }
}

/// `String::from_utf8`: the text that `bytes` encode, exactly when they are
/// valid UTF-8.
#[verifier::external_body]
fn text_from_utf8(bytes: Vec<u8>) -> (text: Option<String>)
    ensures
        text is Some <==> valid_utf8(bytes@),
        text matches Some(decoded) ==> decoded@ == decode_utf8(bytes@),
{
    String::from_utf8(bytes).ok()
}

/// Reads text at `at`.
pub fn take_text(input: &[u8], at: usize) -> (read: Option<(String, usize)>)
    ensures
        match parse_text(input@, at as int) {
            Some((text, next)) => read matches Some((got, after)) && got@ == text && after == next
                && next <= input@.len(),
            None => read is None,
        },
{
    match take_blob(input, at) {
        Some((bytes, next)) => match text_from_utf8(bytes) {
            Some(text) => Some((text, next)),
            None => None,
        },
        None => None,
    }
}

} // verus!
