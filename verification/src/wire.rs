//! The building blocks of the binary formats: fixed-width little-endian
//! integers, length-prefixed strings, tagged optional values and addresses.
//!
//! Each block has a writer, which appends its bytes to a buffer, and a parser,
//! which reads one value off the front of an input and hands back the rest.
//! The lemmas at the end say that a parser undoes its writer.

use vstd::prelude::*;
use vstd::bytes::{
    lemma_auto_spec_u32_to_from_le_bytes, lemma_auto_spec_u64_to_from_le_bytes,
    spec_u32_from_le_bytes, spec_u32_to_le_bytes, spec_u64_from_le_bytes, spec_u64_to_le_bytes,
    u32_from_le_bytes, u32_to_le_bytes, u64_from_le_bytes, u64_to_le_bytes,
};
use vstd::slice::{slice_subrange, slice_to_vec};
use vstd::utf8::{
    decode_utf8, decode_utf8_encode_utf8, encode_utf8, encode_utf8_decode_utf8,
    encode_utf8_valid_utf8, valid_utf8,
};
use crate::address::Address;

verus! {

/// The largest number of bytes that a length prefix can announce.
pub const MAX_LEN: usize = 0xffff_ffff;

// ---------------------------------------------------------------------------
// What is written
// ---------------------------------------------------------------------------

/// Four bytes, least significant first.
pub open spec fn enc_u32(value: u32) -> Seq<u8> {
    spec_u32_to_le_bytes(value)
}

/// Eight bytes, least significant first.
pub open spec fn enc_u64(value: u64) -> Seq<u8> {
    spec_u64_to_le_bytes(value)
}

/// Eight bytes, least significant first, in two's complement.
pub open spec fn enc_i64(value: i64) -> Seq<u8> {
    spec_u64_to_le_bytes(value as u64)
}

/// Whether a string is short enough for its length prefix.
pub open spec fn str_fits(text: Seq<char>) -> bool {
    encode_utf8(text).len() <= MAX_LEN
}

/// The length of the UTF-8 form in four bytes, then the UTF-8 form.
pub open spec fn enc_str(text: Seq<char>) -> Seq<u8> {
    enc_u32(encode_utf8(text).len() as u32) + encode_utf8(text)
}

/// Whether an optional string is short enough for its length prefix.
pub open spec fn opt_str_fits(text: Option<Seq<char>>) -> bool {
    match text {
        Some(t) => str_fits(t),
        None => true,
    }
}

/// A zero byte for an absent string; a one byte and the string for a present one.
pub open spec fn enc_opt_str(text: Option<Seq<char>>) -> Seq<u8> {
    match text {
        Some(t) => seq![1u8] + enc_str(t),
        None => seq![0u8],
    }
}

/// A zero byte for an absent number; a one byte and the number for a present one.
pub open spec fn enc_opt_u64(value: Option<u64>) -> Seq<u8> {
    match value {
        Some(v) => seq![1u8] + enc_u64(v),
        None => seq![0u8],
    }
}

// ---------------------------------------------------------------------------
// What is read
// ---------------------------------------------------------------------------

/// The first byte and the rest.
pub open spec fn parse_u8(input: Seq<u8>) -> Option<(u8, Seq<u8>)> {
    if input.len() >= 1 {
        Some((input[0], input.skip(1)))
    } else {
        None
    }
}

/// The number in the first four bytes and the rest.
pub open spec fn parse_u32(input: Seq<u8>) -> Option<(u32, Seq<u8>)> {
    if input.len() >= 4 {
        Some((spec_u32_from_le_bytes(input.take(4)), input.skip(4)))
    } else {
        None
    }
}

/// The number in the first eight bytes and the rest.
pub open spec fn parse_u64(input: Seq<u8>) -> Option<(u64, Seq<u8>)> {
    if input.len() >= 8 {
        Some((spec_u64_from_le_bytes(input.take(8)), input.skip(8)))
    } else {
        None
    }
}

/// The signed number in the first eight bytes and the rest.
pub open spec fn parse_i64(input: Seq<u8>) -> Option<(i64, Seq<u8>)> {
    if input.len() >= 8 {
        Some((spec_u64_from_le_bytes(input.take(8)) as i64, input.skip(8)))
    } else {
        None
    }
}

/// The first thirty-two bytes and the rest.
pub open spec fn parse_address(input: Seq<u8>) -> Option<(Seq<u8>, Seq<u8>)> {
    if input.len() >= 32 {
        Some((input.take(32), input.skip(32)))
    } else {
        None
    }
}

/// The string behind a length prefix and the rest. The announced bytes must
/// be there and must be well-formed UTF-8.
pub open spec fn parse_str(input: Seq<u8>) -> Option<(Seq<char>, Seq<u8>)> {
    match parse_u32(input) {
        Some((len, body)) => {
            if body.len() >= len && valid_utf8(body.take(len as int)) {
                Some((decode_utf8(body.take(len as int)), body.skip(len as int)))
            } else {
                None
            }
        },
        None => None,
    }
}

/// The optional string behind a tag byte and the rest. A tag other than zero
/// and one is refused.
pub open spec fn parse_opt_str(input: Seq<u8>) -> Option<(Option<Seq<char>>, Seq<u8>)> {
    match parse_u8(input) {
        Some((tag, body)) => {
            if tag == 0 {
                Some((None, body))
            } else if tag == 1 {
                match parse_str(body) {
                    Some((text, rest)) => Some((Some(text), rest)),
                    None => None,
                }
            } else {
                None
            }
        },
        None => None,
    }
}

/// The optional number behind a tag byte and the rest. A tag other than zero
/// and one is refused.
pub open spec fn parse_opt_u64(input: Seq<u8>) -> Option<(Option<u64>, Seq<u8>)> {
    match parse_u8(input) {
        Some((tag, body)) => {
            if tag == 0 {
                Some((None, body))
            } else if tag == 1 {
                match parse_u64(body) {
                    Some((value, rest)) => Some((Some(value), rest)),
                    None => None,
                }
            } else {
                None
            }
        },
        None => None,
    }
}

/// The view of an optional string.
pub open spec fn opt_str_view(text: Option<String>) -> Option<Seq<char>> {
    match text {
        Some(t) => Some(t@),
        None => None,
    }
}

// ---------------------------------------------------------------------------
// Writers
// ---------------------------------------------------------------------------

/// Appends one byte.
pub fn put_u8(out: &mut Vec<u8>, value: u8)
    ensures
        final(out)@ == old(out)@ + seq![value],
{
    out.push(value);
    assert(out@ =~= old(out)@ + seq![value]);
}

/// Appends a number in four bytes.
pub fn put_u32(out: &mut Vec<u8>, value: u32)
    ensures
        final(out)@ == old(out)@ + enc_u32(value),
{
    let mut bytes = u32_to_le_bytes(value);
    out.append(&mut bytes);
}

/// Appends a number in eight bytes.
pub fn put_u64(out: &mut Vec<u8>, value: u64)
    ensures
        final(out)@ == old(out)@ + enc_u64(value),
{
    let mut bytes = u64_to_le_bytes(value);
    out.append(&mut bytes);
}

/// Appends a signed number in eight bytes.
pub fn put_i64(out: &mut Vec<u8>, value: i64)
    ensures
        final(out)@ == old(out)@ + enc_i64(value),
{
    let mut bytes = u64_to_le_bytes(value as u64);
    out.append(&mut bytes);
}

/// Appends the thirty-two bytes of an address.
pub fn put_address(out: &mut Vec<u8>, address: &Address)
    ensures
        final(out)@ == old(out)@ + address@,
{
    let mut i: usize = 0;
    while i < 32
        invariant
            i <= 32,
            out@ == old(out)@ + address@.take(i as int),
        decreases 32 - i,
    {
        out.push(address.bytes[i]);
        assert(address@.take(i + 1) =~= address@.take(i as int) + seq![address@[i as int]]);
        assert(out@ =~= old(out)@ + address@.take(i + 1));
        i += 1;
    }
    assert(address@.take(32) =~= address@);
}

/// Appends a string behind its length prefix.
pub fn put_str(out: &mut Vec<u8>, text: &str)
    requires
        str_fits(text@),
    ensures
        final(out)@ == old(out)@ + enc_str(text@),
{
    let bytes = text.as_bytes();
    put_u32(out, bytes.len() as u32);
    let mut body = slice_to_vec(bytes);
    out.append(&mut body);
    assert(out@ =~= old(out)@ + enc_str(text@));
}

/// Appends an optional string behind its tag byte.
pub fn put_opt_str(out: &mut Vec<u8>, text: &Option<String>)
    requires
        opt_str_fits(opt_str_view(*text)),
    ensures
        final(out)@ == old(out)@ + enc_opt_str(opt_str_view(*text)),
{
    match text {
        Some(t) => {
            put_u8(out, 1);
            put_str(out, t.as_str());
            assert(out@ =~= old(out)@ + enc_opt_str(opt_str_view(*text)));
        },
        None => {
            put_u8(out, 0);
        },
    }
}

/// Appends an optional number behind its tag byte.
pub fn put_opt_u64(out: &mut Vec<u8>, value: Option<u64>)
    ensures
        final(out)@ == old(out)@ + enc_opt_u64(value),
{
    match value {
        Some(v) => {
            put_u8(out, 1);
            put_u64(out, v);
            assert(out@ =~= old(out)@ + enc_opt_u64(value));
        },
        None => {
            put_u8(out, 0);
        },
    }
}

// ---------------------------------------------------------------------------
// Readers
// ---------------------------------------------------------------------------

/// Calls `String::from_utf8`, which accepts exactly the well-formed UTF-8
/// byte sequences and then returns the string that consists of those bytes.
#[verifier::external_body]
pub(crate) fn string_from_utf8(bytes: Vec<u8>) -> (text: Option<String>)
    ensures
        text is Some <==> valid_utf8(bytes@),
        text matches Some(t) ==> encode_utf8(t@) == bytes@,
{
    String::from_utf8(bytes).ok()
}

/// Reads one byte at `pos`.
pub fn read_u8(buf: &[u8], pos: usize) -> (read: Option<(u8, usize)>)
    requires
        pos <= buf@.len(),
    ensures
        match read {
            Some((value, next)) => pos <= next <= buf@.len() && parse_u8(buf@.skip(pos as int))
                == Some((value, buf@.skip(next as int))),
            None => parse_u8(buf@.skip(pos as int)).is_none(),
        },
{
    if buf.len() - pos < 1 {
        return None;
    }
    let value = buf[pos];
    assert(buf@.skip(pos as int).skip(1) =~= buf@.skip(pos + 1));
    Some((value, pos + 1))
}

/// Reads a four-byte number at `pos`.
pub fn read_u32(buf: &[u8], pos: usize) -> (read: Option<(u32, usize)>)
    requires
        pos <= buf@.len(),
    ensures
        match read {
            Some((value, next)) => pos <= next <= buf@.len() && parse_u32(buf@.skip(pos as int))
                == Some((value, buf@.skip(next as int))),
            None => parse_u32(buf@.skip(pos as int)).is_none(),
        },
{
    if buf.len() - pos < 4 {
        return None;
    }
    let value = u32_from_le_bytes(slice_subrange(buf, pos, pos + 4));
    assert(buf@.skip(pos as int).take(4) =~= buf@.subrange(pos as int, pos + 4));
    assert(buf@.skip(pos as int).skip(4) =~= buf@.skip(pos + 4));
    Some((value, pos + 4))
}

/// Reads an eight-byte number at `pos`.
pub fn read_u64(buf: &[u8], pos: usize) -> (read: Option<(u64, usize)>)
    requires
        pos <= buf@.len(),
    ensures
        match read {
            Some((value, next)) => pos <= next <= buf@.len() && parse_u64(buf@.skip(pos as int))
                == Some((value, buf@.skip(next as int))),
            None => parse_u64(buf@.skip(pos as int)).is_none(),
        },
{
    if buf.len() - pos < 8 {
        return None;
    }
    let value = u64_from_le_bytes(slice_subrange(buf, pos, pos + 8));
    assert(buf@.skip(pos as int).take(8) =~= buf@.subrange(pos as int, pos + 8));
    assert(buf@.skip(pos as int).skip(8) =~= buf@.skip(pos + 8));
    Some((value, pos + 8))
}

/// Reads a signed eight-byte number at `pos`.
pub fn read_i64(buf: &[u8], pos: usize) -> (read: Option<(i64, usize)>)
    requires
        pos <= buf@.len(),
    ensures
        match read {
            Some((value, next)) => pos <= next <= buf@.len() && parse_i64(buf@.skip(pos as int))
                == Some((value, buf@.skip(next as int))),
            None => parse_i64(buf@.skip(pos as int)).is_none(),
        },
{
    match read_u64(buf, pos) {
        Some((value, next)) => Some((value as i64, next)),
        None => None,
    }
}

/// Reads an address at `pos`.
pub fn read_address(buf: &[u8], pos: usize) -> (read: Option<(Address, usize)>)
    requires
        pos <= buf@.len(),
    ensures
        match read {
            Some((address, next)) => pos <= next <= buf@.len() && parse_address(
                buf@.skip(pos as int),
            ) == Some((address@, buf@.skip(next as int))),
            None => parse_address(buf@.skip(pos as int)).is_none(),
        },
{
    if buf.len() - pos < 32 {
        return None;
    }
    let mut bytes = [0u8; 32];
    let mut i: usize = 0;
    while i < 32
        invariant
            i <= 32,
            pos + 32 <= buf.len(),
            forall|k: int| 0 <= k < i ==> bytes@[k] == buf@[pos + k],
        decreases 32 - i,
    {
        bytes[i] = buf[pos + i];
        i += 1;
    }
    let address = Address::new(bytes);
    assert(address@ =~= buf@.skip(pos as int).take(32));
    assert(buf@.skip(pos as int).skip(32) =~= buf@.skip(pos + 32));
    Some((address, pos + 32))
}

/// Reads a length-prefixed string at `pos`.
pub fn read_str(buf: &[u8], pos: usize) -> (read: Option<(String, usize)>)
    requires
        pos <= buf@.len(),
    ensures
        match read {
            Some((text, next)) => pos <= next <= buf@.len() && parse_str(buf@.skip(pos as int))
                == Some((text@, buf@.skip(next as int))),
            None => parse_str(buf@.skip(pos as int)).is_none(),
        },
{
    let (len, start) = match read_u32(buf, pos) {
        Some(found) => found,
        None => {
            return None;
        },
    };
    let len = len as usize;
    if buf.len() - start < len {
        return None;
    }
    let body = slice_to_vec(slice_subrange(buf, start, start + len));
    assert(buf@.skip(start as int).take(len as int) =~= body@);
    assert(buf@.skip(start as int).skip(len as int) =~= buf@.skip(start + len));
    match string_from_utf8(body) {
        Some(text) => {
            proof {
                encode_utf8_decode_utf8(text@);
            }
            Some((text, start + len))
        },
        None => None,
    }
}

/// Reads an optional string at `pos`.
pub fn read_opt_str(buf: &[u8], pos: usize) -> (read: Option<(Option<String>, usize)>)
    requires
        pos <= buf@.len(),
    ensures
        match read {
            Some((text, next)) => pos <= next <= buf@.len() && parse_opt_str(
                buf@.skip(pos as int),
            ) == Some((opt_str_view(text), buf@.skip(next as int))),
            None => parse_opt_str(buf@.skip(pos as int)).is_none(),
        },
{
    let (tag, start) = match read_u8(buf, pos) {
        Some(found) => found,
        None => {
            return None;
        },
    };
    if tag == 0 {
        Some((None, start))
    } else if tag == 1 {
        match read_str(buf, start) {
            Some((text, next)) => Some((Some(text), next)),
            None => None,
        }
    } else {
        None
    }
}

/// Reads an optional number at `pos`.
pub fn read_opt_u64(buf: &[u8], pos: usize) -> (read: Option<(Option<u64>, usize)>)
    requires
        pos <= buf@.len(),
    ensures
        match read {
            Some((value, next)) => pos <= next <= buf@.len() && parse_opt_u64(
                buf@.skip(pos as int),
            ) == Some((value, buf@.skip(next as int))),
            None => parse_opt_u64(buf@.skip(pos as int)).is_none(),
        },
{
    let (tag, start) = match read_u8(buf, pos) {
        Some(found) => found,
        None => {
            return None;
        },
    };
    if tag == 0 {
        Some((None, start))
    } else if tag == 1 {
        match read_u64(buf, start) {
            Some((value, next)) => Some((Some(value), next)),
            None => None,
        }
    } else {
        None
    }
}

// ---------------------------------------------------------------------------
// A parser undoes its writer
// ---------------------------------------------------------------------------

/// Reading back one written byte.
pub proof fn lemma_parse_u8(value: u8, rest: Seq<u8>)
    ensures
        parse_u8(seq![value] + rest) == Some((value, rest)),
{
    assert((seq![value] + rest).skip(1) =~= rest);
}

/// Reading back a written four-byte number.
pub proof fn lemma_parse_u32(value: u32, rest: Seq<u8>)
    ensures
        parse_u32(enc_u32(value) + rest) == Some((value, rest)),
        enc_u32(value).len() == 4,
{
    lemma_auto_spec_u32_to_from_le_bytes();
    assert((enc_u32(value) + rest).take(4) =~= enc_u32(value));
    assert((enc_u32(value) + rest).skip(4) =~= rest);
}

/// Reading back a written eight-byte number.
pub proof fn lemma_parse_u64(value: u64, rest: Seq<u8>)
    ensures
        parse_u64(enc_u64(value) + rest) == Some((value, rest)),
        enc_u64(value).len() == 8,
{
    lemma_auto_spec_u64_to_from_le_bytes();
    assert((enc_u64(value) + rest).take(8) =~= enc_u64(value));
    assert((enc_u64(value) + rest).skip(8) =~= rest);
}

/// Reading back a written signed number.
pub proof fn lemma_parse_i64(value: i64, rest: Seq<u8>)
    ensures
        parse_i64(enc_i64(value) + rest) == Some((value, rest)),
        enc_i64(value).len() == 8,
{
    lemma_auto_spec_u64_to_from_le_bytes();
    assert((enc_i64(value) + rest).take(8) =~= enc_i64(value));
    assert((enc_i64(value) + rest).skip(8) =~= rest);
    assert((value as u64) as i64 == value) by (bit_vector);
}

/// Reading back a written address.
pub proof fn lemma_parse_address(address: Seq<u8>, rest: Seq<u8>)
    requires
        address.len() == 32,
    ensures
        parse_address(address + rest) == Some((address, rest)),
{
    assert((address + rest).take(32) =~= address);
    assert((address + rest).skip(32) =~= rest);
}

/// Reading back a written string.
pub proof fn lemma_parse_str(text: Seq<char>, rest: Seq<u8>)
    requires
        str_fits(text),
    ensures
        parse_str(enc_str(text) + rest) == Some((text, rest)),
{
    let body = encode_utf8(text);
    let len = body.len() as u32;
    lemma_join(enc_u32(len), body, rest);
    lemma_parse_u32(len, body + rest);
    assert((body + rest).take(len as int) =~= body);
    assert((body + rest).skip(len as int) =~= rest);
    encode_utf8_valid_utf8(text);
    encode_utf8_decode_utf8(text);
}

/// Reading back a written optional string.
pub proof fn lemma_parse_opt_str(text: Option<Seq<char>>, rest: Seq<u8>)
    requires
        opt_str_fits(text),
    ensures
        parse_opt_str(enc_opt_str(text) + rest) == Some((text, rest)),
{
    match text {
        Some(t) => {
            lemma_join(seq![1u8], enc_str(t), rest);
            lemma_parse_u8(1u8, enc_str(t) + rest);
            lemma_parse_str(t, rest);
        },
        None => {
            lemma_parse_u8(0u8, rest);
        },
    }
}

/// Reading back a written optional number.
pub proof fn lemma_parse_opt_u64(value: Option<u64>, rest: Seq<u8>)
    ensures
        parse_opt_u64(enc_opt_u64(value) + rest) == Some((value, rest)),
{
    match value {
        Some(v) => {
            lemma_join(seq![1u8], enc_u64(v), rest);
            lemma_parse_u8(1u8, enc_u64(v) + rest);
            lemma_parse_u64(v, rest);
        },
        None => {
            lemma_parse_u8(0u8, rest);
        },
    }
}

/// Joining byte strings does not depend on where the brackets stand.
pub proof fn lemma_join(a: Seq<u8>, b: Seq<u8>, c: Seq<u8>)
    ensures
        (a + b) + c == a + (b + c),
{
    assert((a + b) + c =~= a + (b + c));
}

/// Nothing joined to a byte string leaves it as it is.
pub proof fn lemma_join_nothing(a: Seq<u8>)
    ensures
        a + Seq::<u8>::empty() == a,
{
    assert(a + Seq::<u8>::empty() =~= a);
}

// ---------------------------------------------------------------------------
// What is read was written
// ---------------------------------------------------------------------------

/// A byte that was read stood at the front of the input.
pub proof fn lemma_read_u8(input: Seq<u8>)
    ensures
        parse_u8(input) matches Some((value, rest)) ==> input == seq![value] + rest,
{
    if input.len() >= 1 {
        assert(input =~= seq![input[0]] + input.skip(1));
    }
}

/// A four-byte number that was read stood at the front of the input as it
/// is written.
pub proof fn lemma_read_u32(input: Seq<u8>)
    ensures
        parse_u32(input) matches Some((value, rest)) ==> input == enc_u32(value) + rest,
{
    if input.len() >= 4 {
        lemma_auto_spec_u32_to_from_le_bytes();
        assert(input.take(4).len() == 4);
        assert(input =~= input.take(4) + input.skip(4));
    }
}

/// An eight-byte number that was read stood at the front of the input as it
/// is written.
pub proof fn lemma_read_u64(input: Seq<u8>)
    ensures
        parse_u64(input) matches Some((value, rest)) ==> input == enc_u64(value) + rest,
{
    if input.len() >= 8 {
        lemma_auto_spec_u64_to_from_le_bytes();
        assert(input.take(8).len() == 8);
        assert(input =~= input.take(8) + input.skip(8));
    }
}

/// A signed number that was read stood at the front of the input as it is
/// written.
pub proof fn lemma_read_i64(input: Seq<u8>)
    ensures
        parse_i64(input) matches Some((value, rest)) ==> input == enc_i64(value) + rest,
{
    if input.len() >= 8 {
        lemma_auto_spec_u64_to_from_le_bytes();
        let raw = spec_u64_from_le_bytes(input.take(8));
        assert((raw as i64) as u64 == raw) by (bit_vector);
        assert(input.take(8).len() == 8);
        assert(input =~= input.take(8) + input.skip(8));
    }
}

/// An address that was read stood at the front of the input.
pub proof fn lemma_read_address(input: Seq<u8>)
    ensures
        parse_address(input) matches Some((address, rest)) ==> input == address + rest
            && address.len() == 32,
{
    if input.len() >= 32 {
        assert(input =~= input.take(32) + input.skip(32));
    }
}

/// A string that was read stood at the front of the input as it is written.
pub proof fn lemma_read_str(input: Seq<u8>)
    ensures
        parse_str(input) matches Some((text, rest)) ==> input == enc_str(text) + rest
            && str_fits(text),
{
    lemma_read_u32(input);
    match parse_u32(input) {
        Some((len, body)) => {
            if body.len() >= len && valid_utf8(body.take(len as int)) {
                let bytes = body.take(len as int);
                decode_utf8_encode_utf8(bytes);
                assert(body =~= bytes + body.skip(len as int));
                lemma_join(enc_u32(len), bytes, body.skip(len as int));
            }
        },
        None => {},
    }
}

/// An optional string that was read stood at the front of the input as it
/// is written.
pub proof fn lemma_read_opt_str(input: Seq<u8>)
    ensures
        parse_opt_str(input) matches Some((text, rest)) ==> input == enc_opt_str(text) + rest
            && opt_str_fits(text),
{
    lemma_read_u8(input);
    match parse_u8(input) {
        Some((tag, body)) => {
            if tag == 1 {
                lemma_read_str(body);
                match parse_str(body) {
                    Some((text, rest)) => {
                        lemma_join(seq![1u8], enc_str(text), rest);
                    },
                    None => {},
                }
            }
        },
        None => {},
    }
}

/// An optional number that was read stood at the front of the input as it
/// is written.
pub proof fn lemma_read_opt_u64(input: Seq<u8>)
    ensures
        parse_opt_u64(input) matches Some((value, rest)) ==> input == enc_opt_u64(value) + rest,
{
    lemma_read_u8(input);
    match parse_u8(input) {
        Some((tag, body)) => {
            if tag == 1 {
                lemma_read_u64(body);
                match parse_u64(body) {
                    Some((value, rest)) => {
                        lemma_join(seq![1u8], enc_u64(value), rest);
                    },
                    None => {},
                }
            }
        },
        None => {},
    }
}

} // verus!
