//! Byte encodings that the Riot APIs use: standard base64 (with padding),
//! UTF-8 decoding and the validity rule of HTTP header values.
use vstd::prelude::*;
use vstd::utf8::{decode_utf8, encode_utf8, valid_utf8};
use base64::Engine;

verus! {

/// The symbol of the standard base64 alphabet for a 6-bit value.
pub open spec fn base64_symbol(v: int) -> char {
    if v < 26 {
        (65 + v) as char
    } else if v < 52 {
        (97 + (v - 26)) as char
    } else if v < 62 {
        (48 + (v - 52)) as char
    } else if v == 62 {
        '+'
    } else {
        '/'
    }
}

/// Standard base64 with `=` padding (RFC 4648, section 4): every group of
/// three bytes becomes four symbols; a final group of one or two bytes is
/// padded to four symbols with `=`.
pub open spec fn base64_encode(b: Seq<u8>) -> Seq<char>
    decreases b.len(),
{
    if b.len() == 0 {
        seq![]
    } else {
        let x0 = b[0] as int;
        let x1 = if b.len() > 1 { b[1] as int } else { 0 };
        let x2 = if b.len() > 2 { b[2] as int } else { 0 };
        if b.len() == 1 {
            seq![base64_symbol(x0 / 4), base64_symbol((x0 % 4) * 16), '=', '=']
        } else if b.len() == 2 {
            seq![
                base64_symbol(x0 / 4),
                base64_symbol((x0 % 4) * 16 + x1 / 16),
                base64_symbol((x1 % 16) * 4),
                '=',
            ]
        } else {
            seq![
                base64_symbol(x0 / 4),
                base64_symbol((x0 % 4) * 16 + x1 / 16),
                base64_symbol((x1 % 16) * 4 + x2 / 64),
                base64_symbol(x2 % 64),
            ] + base64_encode(b.skip(3))
        }
    }
}

/// The bytes whose standard base64 encoding is `text`, if there are any.
/// By `lemma_base64_injective` there is at most one such sequence.
pub open spec fn base64_decode(text: Seq<char>) -> Option<Seq<u8>> {
    if exists|b: Seq<u8>| base64_encode(b) == text {
        Some(choose|b: Seq<u8>| base64_encode(b) == text)
    } else {
        None
    }
}

proof fn lemma_symbol_injective(a: int, b: int)
    requires
        0 <= a < 64,
        0 <= b < 64,
        base64_symbol(a) == base64_symbol(b),
    ensures
        a == b,
{
    assert(base64_symbol(a) as int == base64_symbol(b) as int);
}

proof fn lemma_symbol_not_pad(a: int)
    requires
        0 <= a < 64,
    ensures
        base64_symbol(a) != '=',
{
    assert(base64_symbol(a) as int != '=' as int);
}

proof fn lemma_group_injective(x0: int, x1: int, x2: int, y0: int, y1: int, y2: int)
    requires
        0 <= x0 < 256,
        0 <= x1 < 256,
        0 <= x2 < 256,
        0 <= y0 < 256,
        0 <= y1 < 256,
        0 <= y2 < 256,
        x0 / 4 == y0 / 4,
        (x0 % 4) * 16 + x1 / 16 == (y0 % 4) * 16 + y1 / 16,
        (x1 % 16) * 4 + x2 / 64 == (y1 % 16) * 4 + y2 / 64,
        x2 % 64 == y2 % 64,
    ensures
        x0 == y0,
        x1 == y1,
        x2 == y2,
{
}

/// Standard base64 encoding is injective: distinct byte sequences have
/// distinct encodings, so a text decodes to at most one byte sequence.
pub proof fn lemma_base64_injective(a: Seq<u8>, b: Seq<u8>)
    requires
        base64_encode(a) == base64_encode(b),
    ensures
        a == b,
    decreases a.len(),
{
    let ea = base64_encode(a);
    let eb = base64_encode(b);
    if a.len() == 0 || b.len() == 0 {
        assert(ea.len() == 0 || eb.len() == 0);
        if a.len() != 0 {
            assert(ea.len() >= 4) by { lemma_encode_len(a); }
        }
        if b.len() != 0 {
            assert(eb.len() >= 4) by { lemma_encode_len(b); }
        }
        assert(a =~= b);
    } else {
        let x0 = a[0] as int;
        let x1 = if a.len() > 1 { a[1] as int } else { 0 };
        let x2 = if a.len() > 2 { a[2] as int } else { 0 };
        let y0 = b[0] as int;
        let y1 = if b.len() > 1 { b[1] as int } else { 0 };
        let y2 = if b.len() > 2 { b[2] as int } else { 0 };
        lemma_encode_head(a);
        lemma_encode_head(b);
        assert(ea[0] == eb[0] && ea[1] == eb[1] && ea[2] == eb[2] && ea[3] == eb[3]);
        lemma_symbol_not_pad((x1 % 16) * 4 + x2 / 64);
        lemma_symbol_not_pad((y1 % 16) * 4 + y2 / 64);
        lemma_symbol_not_pad(x2 % 64);
        lemma_symbol_not_pad(y2 % 64);
        lemma_symbol_not_pad(x0 % 4 * 16);
        lemma_symbol_not_pad((x1 % 16) * 4);
        lemma_symbol_not_pad((y1 % 16) * 4);
        // the padding tells the length of the last group
        assert(a.len() == 1 <==> b.len() == 1);
        assert(a.len() == 2 <==> b.len() == 2);
        lemma_symbol_injective(x0 / 4, y0 / 4);
        lemma_symbol_injective((x0 % 4) * 16 + x1 / 16, (y0 % 4) * 16 + y1 / 16);
        if a.len() == 1 {
            assert(x0 == y0);
            assert(a =~= b);
        } else if a.len() == 2 {
            lemma_symbol_injective((x1 % 16) * 4, (y1 % 16) * 4);
            lemma_group_injective(x0, x1, 0, y0, y1, 0);
            assert(a =~= b);
        } else {
            lemma_symbol_injective((x1 % 16) * 4 + x2 / 64, (y1 % 16) * 4 + y2 / 64);
            lemma_symbol_injective(x2 % 64, y2 % 64);
            lemma_group_injective(x0, x1, x2, y0, y1, y2);
            lemma_base64_injective(a.skip(3), b.skip(3));
            assert(a =~= a.take(3) + a.skip(3));
            assert(b =~= b.take(3) + b.skip(3));
            assert(a.take(3) =~= b.take(3));
        }
    }
}

proof fn lemma_encode_head(b: Seq<u8>)
    requires
        b.len() > 0,
    ensures
        ({
            let e = base64_encode(b);
            let x0 = b[0] as int;
            let x1 = if b.len() > 1 { b[1] as int } else { 0 };
            let x2 = if b.len() > 2 { b[2] as int } else { 0 };
            &&& e.len() >= 4
            &&& e[0] == base64_symbol(x0 / 4)
            &&& e[1] == base64_symbol((x0 % 4) * 16 + x1 / 16)
            &&& e[2] == if b.len() == 1 { '=' } else { base64_symbol((x1 % 16) * 4 + x2 / 64) }
            &&& e[3] == if b.len() <= 2 { '=' } else { base64_symbol(x2 % 64) }
            &&& b.len() > 2 ==> base64_encode(b.skip(3)) == e.skip(4)
        }),
{
    lemma_encode_len(b);
    if b.len() > 2 {
        let x0 = b[0] as int;
        let x1 = b[1] as int;
        let x2 = b[2] as int;
        let head = seq![
            base64_symbol(x0 / 4),
            base64_symbol((x0 % 4) * 16 + x1 / 16),
            base64_symbol((x1 % 16) * 4 + x2 / 64),
            base64_symbol(x2 % 64),
        ];
        assert(base64_encode(b) == head + base64_encode(b.skip(3)));
        assert((head + base64_encode(b.skip(3))).skip(4) =~= base64_encode(b.skip(3)));
    }
}

proof fn lemma_encode_len(b: Seq<u8>)
    ensures
        b.len() > 0 ==> base64_encode(b).len() >= 4,
        b.len() == 0 ==> base64_encode(b).len() == 0,
    decreases b.len(),
{
    if b.len() > 2 {
        lemma_encode_len(b.skip(3));
    }
}

/// Decoding gives back what encoding was given.
pub proof fn law_base64_round_trip(b: Seq<u8>)
    ensures
        base64_decode(base64_encode(b)) == Some(b),
{
    let text = base64_encode(b);
    assert(exists|c: Seq<u8>| base64_encode(c) == text);
    let c = choose|c: Seq<u8>| base64_encode(c) == text;
    lemma_base64_injective(c, b);
}

/// Every character is a visible ASCII character or a space.
pub open spec fn is_visible_ascii(s: Seq<char>) -> bool {
    forall|i: int| 0 <= i < s.len() ==> 32 <= #[trigger] (s[i] as int) <= 126
}

/// The base64 alphabet and its padding are visible ASCII.
pub proof fn lemma_base64_visible(b: Seq<u8>)
    ensures
        is_visible_ascii(base64_encode(b)),
    decreases b.len(),
{
    if b.len() > 0 {
        lemma_encode_head(b);
        lemma_encode_len(b);
        if b.len() > 2 {
            lemma_base64_visible(b.skip(3));
        }
        let e = base64_encode(b);
        assert forall|i: int| 0 <= i < e.len() implies 32 <= #[trigger] (e[i] as int) <= 126 by {
            if i < 4 {
                lemma_symbols_visible();
            } else {
                assert(e[i] == e.skip(4)[i - 4]);
            }
        }
    }
}

proof fn lemma_symbols_visible()
    ensures
        forall|v: int| 0 <= v < 64 ==> 32 <= #[trigger] (base64_symbol(v) as int) <= 126,
{
}

/// The message of the `base64::DecodeError` that decoding `input` reports.
pub uninterp spec fn base64_decode_error_text(input: Seq<u8>) -> Seq<char>;

/// The message of the `std::string::FromUtf8Error` for the bytes `input`.
pub uninterp spec fn utf8_error_text(input: Seq<u8>) -> Seq<char>;

/// Whether a byte may stand in an HTTP header value: visible ASCII, space,
/// horizontal tab, or any byte of 128 and above.
pub open spec fn header_byte_ok(b: u8) -> bool {
    (b >= 32 && b != 127) || b == 9
}

/// `base64::engine::general_purpose::STANDARD.encode`: standard alphabet with
/// padding. Its only panic is an overflow of the output size, which needs an
/// input of more than `isize::MAX` bytes; no slice is that long.
#[verifier::external_body]
pub(crate) fn base64_encode_bytes(bytes: &[u8]) -> (r: String)
    ensures
        r@ == base64_encode(bytes@),
{
    base64::engine::general_purpose::STANDARD.encode(bytes)
}

/// `base64::engine::general_purpose::STANDARD.decode` of the UTF-8 bytes of
/// `text`. The engine requires canonical padding and rejects trailing bits,
/// so it accepts exactly the texts that `encode` produces and returns the
/// bytes they encode; on any other input it reports a `DecodeError`, whose
/// message is named by `base64_decode_error_text`.
#[verifier::external_body]
pub(crate) fn base64_decode_str(text: &str) -> (r: Result<Vec<u8>, String>)
    ensures
        r matches Ok(b) ==> base64_encode(b@) == text@,
        r is Err <==> (forall|b: Seq<u8>| base64_encode(b) != text@),
        r matches Err(e) ==> e@ == base64_decode_error_text(encode_utf8(text@)),
{
    match base64::engine::general_purpose::STANDARD.decode(text) {
        Ok(b) => Ok(b),
        Err(e) => Err(e.to_string()),
    }
}

/// `String::from_utf8`: succeeds exactly on valid UTF-8 and then holds the
/// decoded characters; otherwise reports a `FromUtf8Error`, whose message is
/// named by `utf8_error_text`.
#[verifier::external_body]
pub(crate) fn utf8_string(bytes: Vec<u8>) -> (r: Result<String, String>)
    ensures
        r matches Ok(s) ==> valid_utf8(bytes@) && s@ == decode_utf8(bytes@),
        r is Err ==> !valid_utf8(bytes@),
        r matches Err(e) ==> e@ == utf8_error_text(bytes@),
{
    match String::from_utf8(bytes) {
        Ok(s) => Ok(s),
        Err(e) => Err(e.to_string()),
    }
}

/// `reqwest::header::HeaderValue::from_str`: accepted exactly when every
/// UTF-8 byte of `value` may stand in a header value; the error displays
/// "failed to parse header value".
#[verifier::external_body]
pub(crate) fn check_header_value(value: &str) -> (r: Result<(), String>)
    ensures
        r is Ok <==> (forall|i: int|
            0 <= i < encode_utf8(value@).len() ==> header_byte_ok(#[trigger] encode_utf8(value@)[i])),
        r matches Err(e) ==> e@ == "failed to parse header value"@,
{
    match reqwest::header::HeaderValue::from_str(value) {
        Ok(_) => Ok(()),
        Err(e) => Err(e.to_string()),
    }
}

/// The UTF-8 bytes of `s`.
pub fn utf8_bytes(s: &str) -> (r: &[u8])
    ensures
        r@ == encode_utf8(s@),
{
    s.as_bytes()
}

} // verus!
