//! Percent-encoding of URL components, as used for the `url` query parameter.

use vstd::prelude::*;
use vstd::utf8::*;

verus! {

/// Bytes that percent-encoding leaves as they are: ASCII letters, digits and `-._~`.
pub open spec fn is_unreserved(b: u8) -> bool {
    ||| 48 <= b <= 57
    ||| 65 <= b <= 90
    ||| 97 <= b <= 122
    ||| b == 45
    ||| b == 46
    ||| b == 95
    ||| b == 126
}

/// Upper-case hexadecimal digit of a nibble.
pub open spec fn hex_digit(n: u8) -> char {
    if n < 10 {
        ((48 + n) as u8) as char
    } else {
        ((55 + n) as u8) as char
    }
}

/// Value of a hexadecimal digit, either case.
pub open spec fn hex_value(c: u8) -> Option<u8> {
    if 48 <= c <= 57 {
        Some((c - 48) as u8)
    } else if 65 <= c <= 70 {
        Some((c - 55) as u8)
    } else if 97 <= c <= 102 {
        Some((c - 87) as u8)
    } else {
        None
    }
}

/// The encoding of one byte.
pub open spec fn pct_encode_byte(b: u8) -> Seq<char> {
    if is_unreserved(b) {
        seq![b as char]
    } else {
        seq!['%', hex_digit(b / 16), hex_digit(b % 16)]
    }
}

/// Percent-encoding of a byte string.
pub open spec fn pct_encode(b: Seq<u8>) -> Seq<char>
    decreases b.len(),
{
    if b.len() == 0 {
        seq![]
    } else {
        pct_encode_byte(b[0]) + pct_encode(b.drop_first())
    }
}

/// Percent-decoding of a byte string: each `%` followed by two hexadecimal digits
/// becomes the byte they spell; every other byte, `+` included, stays.
pub open spec fn pct_decode(b: Seq<u8>) -> Seq<u8>
    decreases b.len(),
{
    if b.len() == 0 {
        seq![]
    } else if b[0] == 37 && b.len() >= 3 && hex_value(b[1]) is Some && hex_value(b[2]) is Some {
        seq![(hex_value(b[1])->0 * 16 + hex_value(b[2])->0) as u8] + pct_decode(b.subrange(3, b.len() as int))
    } else {
        seq![b[0]] + pct_decode(b.drop_first())
    }
}

/// The percent-encoding of the UTF-8 bytes of `s`.
pub open spec fn encode_spec(s: Seq<char>) -> Seq<char> {
    pct_encode(encode_utf8(s))
}

/// The percent-decoding of `s`, when the decoded bytes are UTF-8.
pub open spec fn decode_spec(s: Seq<char>) -> Option<Seq<char>> {
    let b = pct_decode(encode_utf8(s));
    if valid_utf8(b) {
        Some(decode_utf8(b))
    } else {
        None
    }
}

/// Relies on `urlencoding::encode`: every byte but ASCII alphanumerics and `-._~`
/// becomes `%` and two upper-case hexadecimal digits.
#[verifier::external_body]
fn urlencoding_encode(s: &str) -> (r: String)
    ensures
        r@ == pct_encode(encode_utf8(s@)),
{
    urlencoding::encode(s).into_owned()
}

/// Relies on `urlencoding::decode`: `%XX` sequences become bytes, other bytes stay,
/// and the result is an error unless the bytes are UTF-8.
#[verifier::external_body]
fn urlencoding_decode(s: &str) -> (r: Option<String>)
    ensures
        r is Some <==> valid_utf8(pct_decode(encode_utf8(s@))),
        r is Some ==> r->0@ == decode_utf8(pct_decode(encode_utf8(s@))),
{
    urlencoding::decode(s).ok().map(|c| c.into_owned())
}

/// Percent-encodes `s` as a URL query component.
pub fn encode_component(s: &str) -> (r: String)
    ensures
        r@ == encode_spec(s@),
{
    urlencoding_encode(s)
}

/// Percent-decodes a URL query component; `None` when the result is not UTF-8.
pub fn decode_component(s: &str) -> (r: Option<String>)
    ensures
        r matches Some(t) ==> decode_spec(s@) == Some(t@),
        r is None ==> decode_spec(s@) is None,
{
    urlencoding_decode(s)
}

/// The bytes of a sequence of ASCII characters.
pub open spec fn ascii_bytes(c: Seq<char>) -> Seq<u8> {
    Seq::new(c.len(), |i: int| c[i] as u8)
}

proof fn lemma_hex_digit(n: u8)
    requires
        n < 16,
    ensures
        (hex_digit(n) as u8) as char == hex_digit(n),
        hex_value(hex_digit(n) as u8) == Some(n),
        hex_digit(n) as u8 != 37,
        '\0' <= hex_digit(n) <= '\u{7f}',
{
}

proof fn lemma_pct_encode_ascii(b: Seq<u8>)
    ensures
        is_ascii_chars(pct_encode(b)),
    decreases b.len(),
{
    if b.len() > 0 {
        lemma_pct_encode_ascii(b.drop_first());
        let c = pct_encode_byte(b[0]);
        if !is_unreserved(b[0]) {
            lemma_hex_digit(b[0] / 16);
            lemma_hex_digit(b[0] % 16);
        }
        assert(is_ascii_chars(c));
        is_ascii_chars_concat(pct_encode(b), c, pct_encode(b.drop_first()));
    }
}

proof fn lemma_pct_decode_encode(b: Seq<u8>)
    ensures
        pct_decode(ascii_bytes(pct_encode(b))) == b,
    decreases b.len(),
{
    if b.len() > 0 {
        let c = pct_encode_byte(b[0]);
        let rest = pct_encode(b.drop_first());
        let all = ascii_bytes(pct_encode(b));
        let tail = ascii_bytes(rest);
        lemma_pct_decode_encode(b.drop_first());
        assert(all =~= ascii_bytes(c) + tail);
        if is_unreserved(b[0]) {
            assert(all.drop_first() =~= tail);
            assert(pct_decode(all) =~= seq![b[0]] + b.drop_first());
        } else {
            let hi = b[0] / 16;
            let lo = b[0] % 16;
            lemma_hex_digit(hi);
            lemma_hex_digit(lo);
            assert(all[0] == 37);
            assert(all[1] == hex_digit(hi) as u8);
            assert(all[2] == hex_digit(lo) as u8);
            assert(all.subrange(3, all.len() as int) =~= tail);
            assert((hi * 16 + lo) as u8 == b[0]);
            assert(pct_decode(all) =~= seq![b[0]] + b.drop_first());
        }
        assert(b =~= seq![b[0]] + b.drop_first());
    }
}

/// A character that percent-encoding may write: an unreserved one, `%`, or a
/// hexadecimal digit.
pub open spec fn is_encoded_char(c: char) -> bool {
    ||| c == '%'
    ||| ('0' <= c <= '9')
    ||| ('A' <= c <= 'Z')
    ||| ('a' <= c <= 'z')
    ||| c == '-'
    ||| c == '.'
    ||| c == '_'
    ||| c == '~'
}

/// Percent-encoding writes only unreserved characters, `%` and hexadecimal digits.
pub proof fn lemma_encoded_chars(s: Seq<char>)
    ensures
        forall|i: int| 0 <= i < encode_spec(s).len() ==> is_encoded_char(#[trigger] encode_spec(s)[i]),
{
    lemma_pct_encode_chars(encode_utf8(s));
}

proof fn lemma_pct_encode_chars(b: Seq<u8>)
    ensures
        forall|i: int| 0 <= i < pct_encode(b).len() ==> is_encoded_char(#[trigger] pct_encode(b)[i]),
    decreases b.len(),
{
    if b.len() > 0 {
        lemma_pct_encode_chars(b.drop_first());
        let c = pct_encode_byte(b[0]);
        if !is_unreserved(b[0]) {
            lemma_hex_digit(b[0] / 16);
            lemma_hex_digit(b[0] % 16);
        }
        assert forall|i: int| 0 <= i < c.len() implies is_encoded_char(#[trigger] c[i]) by {}
        let e = pct_encode(b);
        assert(e =~= c + pct_encode(b.drop_first()));
        assert forall|i: int| 0 <= i < e.len() implies is_encoded_char(#[trigger] e[i]) by {
            if i >= c.len() {
                assert(e[i] == pct_encode(b.drop_first())[i - c.len()]);
            }
        }
    }
}

/// Percent-decoding undoes percent-encoding: the `url` parameter of a proxied
/// URL decodes to exactly the text that was encoded into it.
pub proof fn lemma_decode_encode(s: Seq<char>)
    ensures
        decode_spec(encode_spec(s)) == Some(s),
{
    let b = encode_utf8(s);
    let e = pct_encode(b);
    lemma_pct_encode_ascii(b);
    is_ascii_chars_encode_utf8(e);
    assert(encode_utf8(e) =~= ascii_bytes(e));
    lemma_pct_decode_encode(b);
    encode_utf8_valid_utf8(s);
    encode_utf8_decode_utf8(s);
}

} // verus!
