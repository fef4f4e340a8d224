use crate::wire::{
    push_u32_le, read_u32_le, u32_from_le, u32_le_bytes_round_trip, u32_le_round_trip, u32_to_le,
};
use vstd::prelude::*;
use vstd::slice::{slice_subrange, slice_to_vec};
use vstd::string::StringSliceAdditionalSpecFns;
use vstd::utf8::{
    decode_utf8, decode_utf8_encode_utf8, encode_utf8, encode_utf8_decode_utf8,
    encode_utf8_valid_utf8, valid_utf8,
};

verus! {

/// Whether a text can be stored: its UTF-8 form is counted in 32 bits.
pub open spec fn text_fits(text: Seq<char>) -> bool {
    encode_utf8(text).len() <= u32::MAX
}

/// The stored form of a text: the length of its UTF-8 form as a
/// little-endian 32-bit number, then the UTF-8 form.
pub open spec fn text_to_wire(text: Seq<char>) -> Seq<u8> {
    u32_to_le(encode_utf8(text).len() as u32) + encode_utf8(text)
}

/// The text stored at the front of `b` and the bytes after it; nothing where
/// `b` is too short for the length, or for as many bytes as the length
/// announces, or where those bytes are not UTF-8.
pub open spec fn text_from_wire(b: Seq<u8>) -> Option<(Seq<char>, Seq<u8>)> {
    if b.len() < 4 {
        None
    } else {
        let n = u32_from_le(b.subrange(0, 4)) as int;
        if b.len() - 4 < n {
            None
        } else if !valid_utf8(b.subrange(4, 4 + n)) {
            None
        } else {
            Some((decode_utf8(b.subrange(4, 4 + n)), b.skip(4 + n)))
        }
    }
}

/// A stored text, whatever follows it, reads back as the text and what follows.
pub proof fn text_round_trip(text: Seq<char>, rest: Seq<u8>)
    requires
        text_fits(text),
    ensures
        text_from_wire(text_to_wire(text) + rest) == Some((text, rest)),
{
    let raw = encode_utf8(text);
    let b = text_to_wire(text) + rest;
    u32_le_round_trip(raw.len() as u32);
    assert(b.subrange(0, 4) =~= u32_to_le(raw.len() as u32));
    let n = raw.len() as int;
    assert(b.subrange(4, 4 + n) =~= raw);
    assert(b.skip(4 + n) =~= rest);
    encode_utf8_valid_utf8(text);
    encode_utf8_decode_utf8(text);
}

/// What reads as a text is the stored form of that text, followed by the rest.
pub proof fn text_wire_unique(b: Seq<u8>)
    requires
        text_from_wire(b) is Some,
    ensures
        ({
            let (text, rest) = text_from_wire(b)->0;
            text_fits(text) && b == text_to_wire(text) + rest
        }),
{
    let n = u32_from_le(b.subrange(0, 4)) as int;
    let raw = b.subrange(4, 4 + n);
    decode_utf8_encode_utf8(raw);
    u32_le_bytes_round_trip(b.subrange(0, 4));
    assert(b =~= b.subrange(0, 4) + raw + b.skip(4 + n));
}

/// Calls std's `String::from_utf8`. The contract states what its
/// documentation promises: the bytes are accepted exactly when they are
/// well-formed UTF-8, and the string then consists of those bytes.
#[verifier::external_body]
fn string_from_utf8(bytes: Vec<u8>) -> (r: Option<String>)
    ensures
        r is Some <==> valid_utf8(bytes@),
        r matches Some(s) ==> encode_utf8(s@) == bytes@,
{
    match String::from_utf8(bytes) {
        Ok(s) => Some(s),
        Err(_) => None,
    }
}

/// Reads the text stored at `data[pos..]`; returns it with the position after it.
pub fn read_text(data: &[u8], pos: usize) -> (r: Option<(String, usize)>)
    requires
        pos <= data@.len(),
    ensures
        match r {
            Some((text, next)) => pos <= next <= data@.len() && text_from_wire(
                data@.skip(pos as int),
            ) == Some((text@, data@.skip(next as int))),
            None => text_from_wire(data@.skip(pos as int)) is None,
        },
{
    let ghost b = data@.skip(pos as int);
    if data.len() - pos < 4 {
        return None;
    }
    let n = read_u32_le(data, pos) as usize;
    let start = pos + 4;
    assert(data@.subrange(pos as int, pos + 4) =~= b.subrange(0, 4));
    if data.len() - start < n {
        return None;
    }
    let raw = slice_to_vec(slice_subrange(data, start, start + n));
    assert(raw@ =~= b.subrange(4, 4 + n));
    assert(data@.skip(start + n) =~= b.skip(4 + n));
    match string_from_utf8(raw) {
        Some(text) => {
            proof {
                encode_utf8_decode_utf8(text@);
            }
            Some((text, start + n))
        },
        None => None,
    }
}

/// Appends the stored form of `text` to `out`; refuses, and leaves `out` as
/// it was, where the text cannot be stored.
pub fn push_text(out: &mut Vec<u8>, text: &String) -> (stored: bool)
    ensures
        stored == text_fits(text@),
        stored ==> final(out)@ == old(out)@ + text_to_wire(text@),
        !stored ==> final(out)@ == old(out)@,
{
    let raw = text.as_str().as_bytes();
    if raw.len() > u32::MAX as usize {
        return false;
    }
    push_u32_le(out, raw.len() as u32);
    out.extend_from_slice(raw);
    assert(out@ =~= old(out)@ + text_to_wire(text@));
    true
}

/// The optional text stored at the front of `b` and the bytes after it: a
/// byte 0 stores no text, a byte 1 is followed by the stored text, and
/// nothing else stores an optional text.
pub open spec fn optional_text_from_wire(b: Seq<u8>) -> Option<(Option<Seq<char>>, Seq<u8>)> {
    if b.len() == 0 {
        None
    } else if b[0] == 0 {
        Some((None, b.skip(1)))
    } else if b[0] == 1 {
        match text_from_wire(b.skip(1)) {
            Some((text, rest)) => Some((Some(text), rest)),
            None => None,
        }
    } else {
        None
    }
}

/// The contents of an optional string.
pub open spec fn optional_text(text: Option<String>) -> Option<Seq<char>> {
    match text {
        Some(t) => Some(t@),
        None => None,
    }
}

/// Reads the optional text stored at `data[pos..]`; returns it with the position after it.
pub fn read_optional_text(data: &[u8], pos: usize) -> (r: Option<(Option<String>, usize)>)
    requires
        pos <= data@.len(),
    ensures
        match r {
            Some((text, next)) => pos <= next <= data@.len() && optional_text_from_wire(
                data@.skip(pos as int),
            ) == Some((optional_text(text), data@.skip(next as int))),
            None => optional_text_from_wire(data@.skip(pos as int)) is None,
        },
{
    let ghost b = data@.skip(pos as int);
    if data.len() - pos < 1 {
        return None;
    }
    let tag = data[pos];
    assert(data@.skip(pos + 1) =~= b.skip(1));
    if tag == 0 {
        Some((None, pos + 1))
    } else if tag == 1 {
        match read_text(data, pos + 1) {
            Some((text, next)) => Some((Some(text), next)),
            None => None,
        }
    } else {
        None
    }
}

} // verus!
