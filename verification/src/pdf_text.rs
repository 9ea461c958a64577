//! Decoding of PDF text strings.
//!
//! A text string is read as UTF-16BE after the byte-order mark `FE FF`, as
//! UTF-8 after the marker `EF BB BF`, as UTF-8 without a marker, and, where
//! none of these works out, as one character per byte. Decoding never fails.

use vstd::prelude::*;
use vstd::utf8::*;

verus! {

/// `char::from_u32` yields the character with the given scalar value, and
/// nothing for a surrogate or a value past `10FFFF`.
pub assume_specification[ char::from_u32 ](i: u32) -> (res: Option<char>)
    ensures
        res == if is_scalar(i) {
            Some(i as char)
        } else {
            None::<char>
        },
;

/// `String::from_utf8`, with the error reduced to `None`: a string exactly
/// when the bytes are well-formed UTF-8, and then the one they encode.
#[verifier::external_body]
fn string_from_utf8(bytes: Vec<u8>) -> (res: Option<String>)
    ensures
        res is Some <==> valid_utf8(bytes@),
        res matches Some(s) ==> s@ == decode_utf8(bytes@),
{
    String::from_utf8(bytes).ok()
}

/// Whether `bytes` opens with the UTF-16 big-endian byte-order mark.
pub open spec fn has_utf16_marker(bytes: Seq<u8>) -> bool {
    bytes.len() >= 2 && bytes[0] == 0xFE && bytes[1] == 0xFF
}

/// Whether `bytes` opens with the UTF-8 marker.
pub open spec fn has_utf8_marker(bytes: Seq<u8>) -> bool {
    bytes.len() >= 3 && bytes[0] == 0xEF && bytes[1] == 0xBB && bytes[2] == 0xBF
}

/// The 16-bit units that `bytes` holds in big-endian order; an odd last byte is left out.
pub open spec fn utf16_be_units(bytes: Seq<u8>) -> Seq<u16> {
    Seq::new(bytes.len() / 2, |i: int| (bytes[2 * i] * 256 + bytes[2 * i + 1]) as u16)
}

pub open spec fn is_high_surrogate(u: u16) -> bool {
    0xD800 <= u <= 0xDBFF
}

pub open spec fn is_low_surrogate(u: u16) -> bool {
    0xDC00 <= u <= 0xDFFF
}

/// The scalar value that a surrogate pair stands for.
pub open spec fn surrogate_pair_value(high: u16, low: u16) -> u32 {
    (0x10000 + (high - 0xD800) * 0x400 + (low - 0xDC00)) as u32
}

/// `text` put in front of a decoded remainder, if there is one.
pub open spec fn prepend(text: Seq<char>, rest: Option<Seq<char>>) -> Option<Seq<char>> {
    match rest {
        Some(r) => Some(text + r),
        None => None,
    }
}

/// The text that a sequence of UTF-16 units encodes; `None` when a surrogate
/// stands alone or out of order.
pub open spec fn decode_utf16(units: Seq<u16>) -> Option<Seq<char>>
    decreases units.len(),
{
    if units.len() == 0 {
        Some(Seq::empty())
    } else if !is_high_surrogate(units[0]) && !is_low_surrogate(units[0]) {
        prepend(seq![(units[0] as u32) as char], decode_utf16(units.skip(1)))
    } else if is_high_surrogate(units[0]) && units.len() >= 2 && is_low_surrogate(units[1]) {
        prepend(
            seq![surrogate_pair_value(units[0], units[1]) as char],
            decode_utf16(units.skip(2)),
        )
    } else {
        None
    }
}

/// One character per byte, each byte taken as the code point of the same number.
pub open spec fn latin1(bytes: Seq<u8>) -> Seq<char> {
    Seq::new(bytes.len(), |i: int| bytes[i] as char)
}

/// The text of a PDF string with the given bytes: the first of these
/// readings that works out.
/// - After the marker `FE FF`, the rest as UTF-16 in big-endian order.
/// - After the marker `EF BB BF`, the rest as UTF-8.
/// - All of it as UTF-8.
/// - All of it byte for byte, which always works out.
pub open spec fn decoded_text(bytes: Seq<u8>) -> Seq<char> {
    if has_utf16_marker(bytes) && decode_utf16(utf16_be_units(bytes.skip(2))) is Some {
        decode_utf16(utf16_be_units(bytes.skip(2)))->0
    } else if has_utf8_marker(bytes) && valid_utf8(bytes.skip(3)) {
        decode_utf8(bytes.skip(3))
    } else if valid_utf8(bytes) {
        decode_utf8(bytes)
    } else {
        latin1(bytes)
    }
}

/// The UTF-16 units of one character.
pub open spec fn encode_utf16_char(c: char) -> Seq<u16> {
    let v = c as u32;
    if v < 0x10000 {
        seq![v as u16]
    } else {
        seq![(0xD800 + (v - 0x10000) / 0x400) as u16, (0xDC00 + (v - 0x10000) % 0x400) as u16]
    }
}

/// The UTF-16 encoding of `text`.
pub open spec fn encode_utf16(text: Seq<char>) -> Seq<u16>
    decreases text.len(),
{
    if text.len() == 0 {
        Seq::empty()
    } else {
        encode_utf16_char(text[0]) + encode_utf16(text.skip(1))
    }
}

/// The bytes of `units`, each unit high byte first.
pub open spec fn utf16_be_bytes(units: Seq<u16>) -> Seq<u8> {
    Seq::new(
        2 * units.len(),
        |i: int|
            if i % 2 == 0 {
                (units[i / 2] / 256) as u8
            } else {
                (units[i / 2] % 256) as u8
            },
    )
}

/// Decoding undoes encoding: the UTF-16 units of a text decode to that text.
pub proof fn lemma_utf16_round_trip(text: Seq<char>)
    ensures
        decode_utf16(encode_utf16(text)) == Some(text),
    decreases text.len(),
{
    if text.len() > 0 {
        let c = text[0];
        let v = c as u32;
        let head = encode_utf16_char(c);
        let tail = encode_utf16(text.skip(1));
        let units = encode_utf16(text);
        lemma_utf16_round_trip(text.skip(1));
        char_is_scalar(c);
        char_u32_cast(c, v);
        if v < 0x10000 {
            assert(units[0] == v as u16);
            assert(units.skip(1) =~= tail);
            assert(units[0] as u32 == v);
        } else {
            let offset = v - 0x10000;
            assert(units[0] == head[0]);
            assert(units[1] == head[1]);
            assert(units.skip(2) =~= tail);
            assert(0 <= offset / 0x400 < 0x400 && 0 <= offset % 0x400 < 0x400);
            assert(offset == (offset / 0x400) * 0x400 + offset % 0x400);
            assert(surrogate_pair_value(units[0], units[1]) == v);
        }
        assert(seq![c] + text.skip(1) =~= text);
    }
}

/// Reading units back from their big-endian bytes gives the units.
pub proof fn lemma_utf16_be_bytes_units(units: Seq<u16>)
    ensures
        utf16_be_units(utf16_be_bytes(units)) == units,
{
    let bytes = utf16_be_bytes(units);
    assert forall|i: int| 0 <= i < units.len() implies #[trigger] utf16_be_units(bytes)[i]
        == units[i] by {
        assert(bytes[2 * i] == (units[i] / 256) as u8);
        assert(bytes[2 * i + 1] == (units[i] % 256) as u8);
    }
    assert(utf16_be_units(bytes) =~= units);
}

/// A string that opens with `FE FF` and goes on with the big-endian UTF-16
/// encoding of a text decodes to that text.
pub proof fn lemma_decodes_marked_utf16(text: Seq<char>)
    ensures
        decoded_text(seq![0xFEu8, 0xFFu8] + utf16_be_bytes(encode_utf16(text))) == text,
{
    let body = utf16_be_bytes(encode_utf16(text));
    let bytes = seq![0xFEu8, 0xFFu8] + body;
    assert(bytes.skip(2) =~= body);
    lemma_utf16_be_bytes_units(encode_utf16(text));
    lemma_utf16_round_trip(text);
}

/// A string that opens with `EF BB BF` and goes on with the UTF-8 encoding of
/// a text decodes to that text, the marker left out.
pub proof fn lemma_decodes_marked_utf8(text: Seq<char>)
    ensures
        decoded_text(seq![0xEFu8, 0xBBu8, 0xBFu8] + encode_utf8(text)) == text,
{
    let bytes = seq![0xEFu8, 0xBBu8, 0xBFu8] + encode_utf8(text);
    assert(bytes.skip(3) =~= encode_utf8(text));
    encode_utf8_valid_utf8(text);
    encode_utf8_decode_utf8(text);
}

/// A string without a marker that is no UTF-8 either decodes byte for
/// byte, to as many characters as it has bytes.
pub proof fn lemma_undecodable_is_byte_for_byte(bytes: Seq<u8>)
    requires
        !has_utf16_marker(bytes),
        !has_utf8_marker(bytes),
        !valid_utf8(bytes),
    ensures
        decoded_text(bytes) == latin1(bytes),
        decoded_text(bytes).len() == bytes.len(),
{
}

/// The bytes of `bytes` from index `from` on.
fn tail_of(bytes: &[u8], from: usize) -> (res: Vec<u8>)
    requires
        from <= bytes.len(),
    ensures
        res@ == bytes@.skip(from as int),
{
    let mut res: Vec<u8> = Vec::new();
    let mut i: usize = from;
    while i < bytes.len()
        invariant
            from <= i <= bytes.len(),
            res@ == bytes@.subrange(from as int, i as int),
        decreases bytes.len() - i,
    {
        res.push(bytes[i]);
        i += 1;
    }
    assert(bytes@.subrange(from as int, bytes.len() as int) =~= bytes@.skip(from as int));
    res
}

/// Decodes the big-endian UTF-16 text that follows the two marker bytes.
fn decode_utf16_be(bytes: &[u8]) -> (res: Option<String>)
    requires
        bytes.len() >= 2,
    ensures
        res is Some <==> decode_utf16(utf16_be_units(bytes@.skip(2))) is Some,
        res matches Some(s) ==> Some(s@) == decode_utf16(utf16_be_units(bytes@.skip(2))),
{
    let ghost units = utf16_be_units(bytes@.skip(2));
    let count: usize = (bytes.len() - 2) / 2;
    let mut out = String::new();
    let mut i: usize = 0;
    proof {
        assert(units.skip(0) =~= units);
        let whole = decode_utf16(units);
        if whole is Some {
            assert(Seq::<char>::empty() + whole->0 =~= whole->0);
        }
    }
    while i < count
        invariant
            i <= count,
            count == units.len(),
            bytes.len() >= 2,
            count == (bytes.len() - 2) / 2,
            units == utf16_be_units(bytes@.skip(2)),
            decode_utf16(units) == prepend(out@, decode_utf16(units.skip(i as int))),
        decreases count - i,
    {
        let unit: u16 = bytes[2 + 2 * i] as u16 * 256 + bytes[2 + 2 * i + 1] as u16;
        proof {
            assert(units.skip(i as int)[0] == units[i as int]);
            assert(units[i as int] == unit);
            assert(units.skip(i as int).skip(1) =~= units.skip(i + 1));
        }
        if unit < 0xD800 || unit > 0xDFFF {
            match char::from_u32(unit as u32) {
                Some(c) => {
                    proof {
                        let rest = decode_utf16(units.skip(i + 1));
                        if rest is Some {
                            assert(out@ + (seq![c] + rest->0) =~= out@.push(c) + rest->0);
                        }
                    }
                    out.push(c);
                },
                None => {
                    return None;
                },
            }
            i += 1;
        } else if unit <= 0xDBFF && i + 1 < count {
            let low: u16 = bytes[2 + 2 * (i + 1)] as u16 * 256 + bytes[2 + 2 * (i + 1) + 1] as u16;
            proof {
                assert(units.skip(i as int)[1] == units[i + 1]);
                assert(units[i + 1] == low);
                assert(units.skip(i as int).skip(2) =~= units.skip(i + 2));
            }
            if low < 0xDC00 || low > 0xDFFF {
                return None;
            }
            let value: u32 = 0x10000 + (unit - 0xD800) as u32 * 0x400 + (low - 0xDC00) as u32;
            match char::from_u32(value) {
                Some(c) => {
                    proof {
                        let rest = decode_utf16(units.skip(i + 2));
                        if rest is Some {
                            assert(out@ + (seq![c] + rest->0) =~= out@.push(c) + rest->0);
                        }
                    }
                    out.push(c);
                },
                None => {
                    return None;
                },
            }
            i += 2;
        } else {
            return None;
        }
    }
    proof {
        assert(units.skip(i as int) =~= Seq::<u16>::empty());
        assert(out@ + Seq::<char>::empty() =~= out@);
    }
    Some(out)
}

/// One character per byte.
fn decode_latin1(bytes: &[u8]) -> (res: String)
    ensures
        res@ == latin1(bytes@),
{
    let mut out = String::new();
    let mut i: usize = 0;
    while i < bytes.len()
        invariant
            i <= bytes.len(),
            out@ == latin1(bytes@).take(i as int),
        decreases bytes.len() - i,
    {
        out.push(bytes[i] as char);
        assert(latin1(bytes@).take(i + 1) =~= latin1(bytes@).take(i as int).push(
            bytes@[i as int] as char,
        ));
        i += 1;
    }
    assert(latin1(bytes@).take(bytes.len() as int) =~= latin1(bytes@));
    out
}

/// Decodes the bytes of a PDF text string. Every byte string decodes: one
/// that fits none of the encodings is read byte for byte.
pub fn decode_pdf_bytes(bytes: &[u8]) -> (res: String)
    ensures
        res@ == decoded_text(bytes@),
{
    if bytes.len() >= 2 && bytes[0] == 0xFE && bytes[1] == 0xFF {
        match decode_utf16_be(bytes) {
            Some(text) => {
                return text;
            },
            None => {},
        }
    }
    if bytes.len() >= 3 && bytes[0] == 0xEF && bytes[1] == 0xBB && bytes[2] == 0xBF {
        match string_from_utf8(tail_of(bytes, 3)) {
            Some(text) => {
                return text;
            },
            None => {},
        }
    }
    let whole = tail_of(bytes, 0);
    assert(bytes@.skip(0) =~= bytes@);
    match string_from_utf8(whole) {
        Some(text) => text,
        None => decode_latin1(bytes),
    }
}

} // verus!
