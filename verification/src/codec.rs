use vstd::prelude::*;
use vstd::string::StringSliceAdditionalSpecFns;

verus! {

/// The lowercase hexadecimal digit of a value below sixteen.
pub open spec fn hex_digit(v: u8) -> char {
    if v < 10 {
        (48 + v) as char
    } else {
        (87 + v) as char
    }
}

/// The lowercase hexadecimal text of `bytes`: two digits per byte, high
/// nibble first.
pub open spec fn hex_lower(bytes: Seq<u8>) -> Seq<char>
    decreases bytes.len(),
{
    if bytes.len() == 0 {
        Seq::empty()
    } else {
        hex_lower(bytes.drop_last()) + seq![hex_digit(bytes.last() / 16), hex_digit(bytes.last() % 16)]
    }
}

/// The value of a hexadecimal digit of either case, if it is one.
pub open spec fn hex_value(c: u8) -> Option<u8> {
    if 48 <= c <= 57 {
        Some((c - 48) as u8)
    } else if 65 <= c <= 70 {
        Some((c - 55) as u8)
    } else if 97 <= c <= 102 {
        Some((c - 87) as u8)
    } else {
        None
    }
}

/// The bytes that hexadecimal text decodes to: `None` where its length is odd
/// or it holds a byte that is not a hexadecimal digit.
pub open spec fn hex_decode_spec(text: Seq<u8>) -> Option<Seq<u8>>
    decreases text.len(),
{
    if text.len() % 2 != 0 {
        None
    } else if text.len() == 0 {
        Some(Seq::empty())
    } else {
        let n = text.len() as int;
        match (hex_decode_spec(text.subrange(0, n - 2)), hex_value(text[n - 2]), hex_value(text[n - 1])) {
            (Some(front), Some(hi), Some(lo)) => Some(front.push((hi * 16 + lo) as u8)),
            _ => None,
        }
    }
}

/// Lowercase hex text is ASCII, two characters per byte.
pub proof fn lemma_hex_lower_ascii(b: Seq<u8>)
    ensures
        hex_lower(b).len() == 2 * b.len(),
        vstd::utf8::is_ascii_chars(hex_lower(b)),
    decreases b.len(),
{
    if b.len() > 0 {
        lemma_hex_lower_ascii(b.drop_last());
        let h = hex_lower(b);
        let front = hex_lower(b.drop_last());
        let hi = hex_digit(b.last() / 16);
        let lo = hex_digit(b.last() % 16);
        assert('\0' <= hi <= '\u{7f}');
        assert('\0' <= lo <= '\u{7f}');
        assert forall|i: int| 0 <= i < h.len() implies '\0' <= #[trigger] h[i] <= '\u{7f}' by {
            if i < front.len() {
                assert(h[i] == front[i]);
            }
        }
    }
}

proof fn lemma_hex_digit_value(v: u8)
    requires
        v < 16,
    ensures
        hex_value(hex_digit(v) as u8) == Some(v),
{
}

/// Decoding the lowercase hex text of bytes gives the bytes back.
pub proof fn lemma_hex_round_trip(b: Seq<u8>)
    ensures
        hex_decode_spec(vstd::utf8::encode_utf8(hex_lower(b))) == Some(b),
    decreases b.len(),
{
    lemma_hex_lower_ascii(b);
    vstd::utf8::is_ascii_chars_encode_utf8(hex_lower(b));
    let e = vstd::utf8::encode_utf8(hex_lower(b));
    if b.len() > 0 {
        let front = b.drop_last();
        lemma_hex_round_trip(front);
        lemma_hex_lower_ascii(front);
        vstd::utf8::is_ascii_chars_encode_utf8(hex_lower(front));
        let ef = vstd::utf8::encode_utf8(hex_lower(front));
        let n = e.len() as int;
        assert(n == 2 * b.len());
        assert forall|i: int| 0 <= i < n - 2 implies #[trigger] e.subrange(0, n - 2)[i] == ef[i] by {
            assert(hex_lower(b)[i] == hex_lower(front)[i]);
        }
        assert(e.subrange(0, n - 2) =~= ef);
        let last = b.last();
        assert(hex_lower(b)[n - 2] == hex_digit(last / 16));
        assert(hex_lower(b)[n - 1] == hex_digit(last % 16));
        lemma_hex_digit_value(last / 16);
        lemma_hex_digit_value(last % 16);
        assert(e[n - 2] == hex_digit(last / 16) as u8);
        assert(e[n - 1] == hex_digit(last % 16) as u8);
        assert(((last / 16) * 16 + last % 16) as u8 == last);
        assert(front.push(last) =~= b);
    } else {
        assert(e.len() == 0);
    }
}

/// Calls `hex::encode`. As its source shows, the result is the lowercase
/// hexadecimal text of the input, two digits per byte.
#[verifier::external_body]
pub fn hex_encode(bytes: &[u8]) -> (r: String)
    ensures
        r@ == hex_lower(bytes@),
{
    hex::encode(bytes)
}

/// Calls `hex::decode`. As its source shows, it refuses text of odd length or
/// with a byte that is not a hexadecimal digit of either case, and otherwise
/// gives one byte per pair of digits.
#[verifier::external_body]
pub fn hex_decode(text: &str) -> (r: Option<Vec<u8>>)
    ensures
        r is Some <==> hex_decode_spec(text.spec_bytes()) is Some,
        r matches Some(v) ==> hex_decode_spec(text.spec_bytes()) == Some(v@),
{
    hex::decode(text).ok()
}

/// The escape of one character inside a JSON string, as `serde_json` writes it:
/// the quote and backslash after a backslash, the five short control escapes,
/// other control characters as `\u00` and two lowercase hex digits, and every
/// other character as itself.
pub open spec fn json_escape_char(c: char) -> Seq<char> {
    if c == '"' {
        seq!['\\', '"']
    } else if c == '\\' {
        seq!['\\', '\\']
    } else if c == '\u{8}' {
        seq!['\\', 'b']
    } else if c == '\t' {
        seq!['\\', 't']
    } else if c == '\n' {
        seq!['\\', 'n']
    } else if c == '\u{c}' {
        seq!['\\', 'f']
    } else if c == '\r' {
        seq!['\\', 'r']
    } else if (c as u32) < 32 {
        seq!['\\', 'u', '0', '0', hex_digit(((c as u32) / 16) as u8), hex_digit(((c as u32) % 16) as u8)]
    } else {
        seq![c]
    }
}

/// The escaped characters of a string.
pub open spec fn json_escape(s: Seq<char>) -> Seq<char>
    decreases s.len(),
{
    if s.len() == 0 {
        Seq::empty()
    } else {
        json_escape(s.drop_last()) + json_escape_char(s.last())
    }
}

/// A string as a JSON string literal: escaped and between quotes.
pub open spec fn json_quote(s: Seq<char>) -> Seq<char> {
    seq!['"'] + json_escape(s) + seq!['"']
}

/// Calls `serde_json::to_string` on a string, which cannot fail for one. As
/// its source shows, the result is the string escaped and between quotes.
#[verifier::external_body]
pub fn json_string(s: &str) -> (r: String)
    ensures
        r@ == json_quote(s@),
{
    serde_json::to_string(s).unwrap_or_else(|_| String::new())
}

} // verus!
