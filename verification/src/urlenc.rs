//! Percent-encoding of URL components (the `urlencoding` crate).

use vstd::prelude::*;
use vstd::utf8::{decode_utf8, encode_scalar, encode_utf8, valid_utf8};

verus! {

/// Bytes that `urlencoding::encode` leaves as they are: ASCII letters,
/// digits, `-`, `.`, `_` and `~`.
pub open spec fn is_unreserved(b: u8) -> bool {
    (48 <= b <= 57) || (65 <= b <= 90) || (97 <= b <= 122) || b == 45 || b == 46 || b == 95
        || b == 126
}

/// The uppercase hexadecimal digit for `n < 16`.
pub open spec fn hex_upper_digit(n: int) -> char {
    if n < 10 {
        ((n + 48) as u8) as char
    } else {
        ((n + 55) as u8) as char
    }
}

/// Percent-encoding of bytes: unreserved bytes as themselves, every other
/// byte as `%` and two uppercase hexadecimal digits.
pub open spec fn percent_encode(b: Seq<u8>) -> Seq<char>
    decreases b.len(),
{
    if b.len() == 0 {
        Seq::empty()
    } else {
        let head = if is_unreserved(b[0]) {
            seq![b[0] as char]
        } else {
            seq!['%', hex_upper_digit(b[0] as int / 16), hex_upper_digit(b[0] as int % 16)]
        };
        head + percent_encode(b.drop_first())
    }
}

/// What `urlencoding::encode` gives for `s`: the percent-encoding of its
/// UTF-8 bytes.
pub open spec fn url_encode_spec(s: Seq<char>) -> Seq<char> {
    percent_encode(encode_utf8(s))
}

/// The value of an ASCII hexadecimal digit (either case).
pub open spec fn hex_value(b: u8) -> Option<u8> {
    if 48 <= b <= 57 {
        Some((b - 48) as u8)
    } else if 65 <= b <= 70 {
        Some((b - 55) as u8)
    } else if 97 <= b <= 102 {
        Some((b - 87) as u8)
    } else {
        None
    }
}

/// Percent-decoding of bytes: `%` and two hexadecimal digits become one
/// byte; everything else, a `%` not so followed included, is kept.
pub open spec fn percent_decode(b: Seq<u8>) -> Seq<u8>
    decreases b.len(),
{
    if b.len() == 0 {
        Seq::empty()
    } else if b[0] == 37 && b.len() >= 3 && hex_value(b[1]) is Some && hex_value(b[2]) is Some {
        seq![(hex_value(b[1])->0 * 16 + hex_value(b[2])->0) as u8] + percent_decode(b.skip(3))
    } else {
        seq![b[0]] + percent_decode(b.drop_first())
    }
}

/// What `urlencoding::decode` gives for `s`: the text of the percent-decoded
/// UTF-8 bytes, or `None` when they are not valid UTF-8.
pub open spec fn url_decode_spec(s: Seq<char>) -> Option<Seq<char>> {
    let d = percent_decode(encode_utf8(s));
    if valid_utf8(d) {
        Some(decode_utf8(d))
    } else {
        None
    }
}

/// An ASCII value is encoded in UTF-8 as the one byte of that value.
proof fn lemma_ascii_scalar(v: u32)
    requires
        v <= 0x7F,
    ensures
        encode_scalar(v) == seq![v as u8],
{
    assert((v & 0x7F) as u8 == v as u8) by (bit_vector)
        requires
            v <= 0x7F,
    ;
}

/// An ASCII character is encoded in UTF-8 as the one byte of its value.
proof fn lemma_ascii_char(c: char)
    requires
        (c as u32) <= 0x7F,
    ensures
        encode_utf8(seq![c]) == seq![(c as u32) as u8],
{
    lemma_ascii_scalar(c as u32);
    assert(seq![c][0] == c);
    assert(seq![c].drop_first() =~= Seq::<char>::empty());
    assert(encode_utf8(Seq::<char>::empty()) =~= Seq::<u8>::empty());
    assert(encode_utf8(seq![c]) =~= seq![(c as u32) as u8]);
}

/// UTF-8 encoding distributes over concatenation.
proof fn lemma_encode_utf8_append(a: Seq<char>, c: Seq<char>)
    ensures
        encode_utf8(a + c) == encode_utf8(a) + encode_utf8(c),
    decreases a.len(),
{
    if a.len() > 0 {
        assert((a + c)[0] == a[0]);
        assert((a + c).drop_first() =~= a.drop_first() + c);
        lemma_encode_utf8_append(a.drop_first(), c);
        assert(encode_scalar(a[0] as u32) + (encode_utf8(a.drop_first()) + encode_utf8(c))
            =~= (encode_scalar(a[0] as u32) + encode_utf8(a.drop_first())) + encode_utf8(c));
    } else {
        assert(a + c =~= c);
        assert(encode_utf8(a) =~= Seq::<u8>::empty());
        assert(encode_utf8(a) + encode_utf8(c) =~= encode_utf8(c));
    }
}

/// The hexadecimal digit written for `n` is read back as `n`.
proof fn lemma_hex_digit_round_trip(n: int)
    requires
        0 <= n < 16,
    ensures
        (hex_upper_digit(n) as u32) <= 0x7F,
        hex_value((hex_upper_digit(n) as u32) as u8) == Some(n as u8),
{
}

/// Percent-decoding the UTF-8 bytes of a percent-encoding gives back the
/// encoded bytes.
proof fn lemma_decode_encoded_bytes(b: Seq<u8>)
    ensures
        percent_decode(encode_utf8(percent_encode(b))) == b,
    decreases b.len(),
{
    if b.len() > 0 {
        let b0 = b[0];
        let tail = percent_encode(b.drop_first());
        let rest = encode_utf8(tail);
        lemma_decode_encoded_bytes(b.drop_first());
        if is_unreserved(b0) {
            let head = seq![b0 as char];
            assert(percent_encode(b) == head + tail);
            lemma_encode_utf8_append(head, tail);
            assert((b0 as char) as u32 == b0 as u32);
            lemma_ascii_char(b0 as char);
            assert(encode_utf8(head) =~= seq![b0]);
            let bytes = seq![b0] + rest;
            assert(bytes[0] == b0);
            assert(bytes.drop_first() =~= rest);
            assert(percent_decode(bytes) == seq![b0] + percent_decode(rest));
            assert(b =~= seq![b0] + b.drop_first());
        } else {
            let hi = b0 as int / 16;
            let lo = b0 as int % 16;
            let h1 = hex_upper_digit(hi);
            let h2 = hex_upper_digit(lo);
            let head = seq!['%', h1, h2];
            assert(percent_encode(b) == head + tail);
            lemma_encode_utf8_append(head, tail);
            lemma_hex_digit_round_trip(hi);
            lemma_hex_digit_round_trip(lo);
            lemma_ascii_char('%');
            lemma_ascii_char(h1);
            lemma_ascii_char(h2);
            assert(head =~= seq!['%'] + seq![h1] + seq![h2]);
            lemma_encode_utf8_append(seq!['%'] + seq![h1], seq![h2]);
            lemma_encode_utf8_append(seq!['%'], seq![h1]);
            let hb1 = (h1 as u32) as u8;
            let hb2 = (h2 as u32) as u8;
            assert(('%' as u32) as u8 == 37u8);
            assert(encode_utf8(head) =~= seq![37u8, hb1, hb2]);
            let bytes = seq![37u8, hb1, hb2] + rest;
            assert(bytes[0] == 37 && bytes[1] == hb1 && bytes[2] == hb2);
            assert(bytes.skip(3) =~= rest);
            assert(hex_value(hb1)->0 * 16 + hex_value(hb2)->0 == b0);
            assert(percent_decode(bytes) == seq![b0] + percent_decode(rest));
            assert(b =~= seq![b0] + b.drop_first());
        }
    }
}

/// Decoding the percent-encoding of a text gives back the text: an object
/// name put into a link by `urlencoding::encode` is read back whole by
/// `urlencoding::decode`.
pub proof fn law_decode_undoes_encode(s: Seq<char>)
    ensures
        url_decode_spec(url_encode_spec(s)) == Some(s),
{
    lemma_decode_encoded_bytes(encode_utf8(s));
    vstd::utf8::encode_utf8_valid_utf8(s);
    vstd::utf8::encode_utf8_decode_utf8(s);
}

/// `urlencoding::encode(s)`, owned.
#[verifier::external_body]
pub(crate) fn url_encode(s: &str) -> (r: String)
    ensures
        r@ == url_encode_spec(s@),
{
    urlencoding::encode(s).into_owned()
}

/// `urlencoding::decode(s)`, owned; `None` for its UTF-8 error.
#[verifier::external_body]
fn url_decode(s: &str) -> (r: Option<String>)
    ensures
        match r {
            Some(t) => url_decode_spec(s@) == Some(t@),
            None => url_decode_spec(s@) is None,
        },
{
    match urlencoding::decode(s) {
        Ok(t) => Some(t.into_owned()),
        Err(_) => None,
    }
}

/// Decodes a percent-encoded path component, keeping the text as it is when
/// the decoded bytes are not UTF-8.
pub fn decode_path_or_keep(s: &str) -> (r: String)
    ensures
        r@ == match url_decode_spec(s@) {
            Some(t) => t,
            None => s@,
        },
{
    match url_decode(s) {
        Some(t) => t,
        None => s.to_owned(),
    }
}

} // verus!
