//! The identifier codec: trace and span identifiers as fixed-width byte
//! values on the host side and as fixed-width hexadecimal text on the
//! guest side. Decoding is total: malformed text yields the all-zero
//! invalid sentinel instead of an error, so one bad identifier can never
//! drop a whole telemetry batch.
use vstd::prelude::*;

verus! {

/// The number of bytes in a trace identifier.
pub const TRACE_ID_BYTES: usize = 16;

/// The number of bytes in a span identifier.
pub const SPAN_ID_BYTES: usize = 8;

/// A hexadecimal digit's numeric value; 16 for any character that is not
/// a hexadecimal digit. Digits, lowercase `a`-`f` and uppercase `A`-`F`
/// all count.
pub open spec fn hex_val(c: char) -> int {
    let u = c as u32;
    if 48 <= u && u <= 57 {
        u - 48
    } else if 97 <= u && u <= 102 {
        u - 87
    } else if 65 <= u && u <= 70 {
        u - 55
    } else {
        16
    }
}

/// Whether a character is a hexadecimal digit.
pub open spec fn is_hex_digit(c: char) -> bool {
    hex_val(c) < 16
}

/// Whether every character of a text is a hexadecimal digit.
pub open spec fn all_hex(s: Seq<char>) -> bool {
    forall|i: int| 0 <= i < s.len() ==> is_hex_digit(s[i])
}

/// The canonical lowercase character for a digit value below 16.
pub open spec fn hex_char_of(d: int) -> char {
    if d == 0 { '0' }
    else if d == 1 { '1' }
    else if d == 2 { '2' }
    else if d == 3 { '3' }
    else if d == 4 { '4' }
    else if d == 5 { '5' }
    else if d == 6 { '6' }
    else if d == 7 { '7' }
    else if d == 8 { '8' }
    else if d == 9 { '9' }
    else if d == 10 { 'a' }
    else if d == 11 { 'b' }
    else if d == 12 { 'c' }
    else if d == 13 { 'd' }
    else if d == 14 { 'e' }
    else { 'f' }
}

/// Whether a character is a canonical (lowercase) hexadecimal digit.
pub open spec fn is_lower_hex(c: char) -> bool {
    is_hex_digit(c) && !(65 <= c as u32 && c as u32 <= 70)
}

/// The bytes spelled by a hexadecimal text, two digits per byte.
pub open spec fn decoded_bytes(s: Seq<char>) -> Seq<u8> {
    Seq::new((s.len() / 2) as nat, |i: int| (16 * hex_val(s[2 * i]) + hex_val(s[2 * i + 1])) as u8)
}

/// The all-zero invalid sentinel of a given width.
pub open spec fn zero_bytes(n: int) -> Seq<u8> {
    Seq::new(n as nat, |i: int| 0u8)
}

/// What decoding an identifier of `n` bytes returns: the spelled bytes
/// for a well-formed text of exactly `2 * n` hexadecimal digits, and the
/// invalid sentinel for anything else.
pub open spec fn spec_decode_id(s: Seq<char>, n: int) -> Seq<u8> {
    if s.len() == 2 * n && all_hex(s) {
        decoded_bytes(s)
    } else {
        zero_bytes(n)
    }
}

/// The canonical lowercase hexadecimal spelling of a byte sequence, two
/// characters per byte, zero-padded.
pub open spec fn hex_text_of(b: Seq<u8>) -> Seq<char> {
    Seq::new((2 * b.len()) as nat, |i: int|
        if i % 2 == 0 { hex_char_of(b[i / 2] as int / 16) } else { hex_char_of(b[i / 2] as int % 16) }
    )
}

/// The numeric value of one character, with 16 reported for a non-digit.
fn hex_digit_val(c: char) -> (r: u8)
    ensures
        r as int == hex_val(c),
{
    let u = c as u32;
    if 48 <= u && u <= 57 {
        (u - 48) as u8
    } else if 97 <= u && u <= 102 {
        (u - 87) as u8
    } else if 65 <= u && u <= 70 {
        (u - 55) as u8
    } else {
        16
    }
}

/// The all-zero identifier of `n` bytes.
fn zero_id(n: usize) -> (r: Vec<u8>)
    ensures
        r@ == zero_bytes(n as int),
{
    let mut out: Vec<u8> = Vec::new();
    let mut i: usize = 0;
    while i < n
        invariant
            i <= n,
            out@.len() == i,
            forall|j: int| 0 <= j < i ==> out@[j] == 0u8,
        decreases n - i,
    {
        out.push(0u8);
        i = i + 1;
    }
    proof {
        assert(out@ =~= zero_bytes(n as int));
    }
    out
}

/// Decodes hexadecimal text into an identifier of `n` bytes, substituting
/// the all-zero sentinel when the text has the wrong length or holds a
/// character that is no hexadecimal digit.
fn decode_id(s: &str, n: usize) -> (r: Vec<u8>)
    requires
        n <= 1024,
    ensures
        r@ == spec_decode_id(s@, n as int),
        r@.len() == n,
{
    if s.unicode_len() != 2 * n {
        return zero_id(n);
    }
    let mut out: Vec<u8> = Vec::new();
    let mut i: usize = 0;
    while i < n
        invariant
            i <= n,
            n <= 1024,
            s@.len() == 2 * n,
            out@.len() == i,
            forall|j: int| 0 <= j < 2 * i ==> is_hex_digit(#[trigger] s@[j]),
            forall|k: int| 0 <= k < i ==> out@[k] == (16 * hex_val(s@[2 * k]) + hex_val(
                s@[2 * k + 1],
            )) as u8,
        decreases n - i,
    {
        let hi = s.get_char(2 * i);
        let lo = s.get_char(2 * i + 1);
        let hv = hex_digit_val(hi);
        let lv = hex_digit_val(lo);
        if hv == 16 || lv == 16 {
            proof {
                assert(!all_hex(s@));
            }
            return zero_id(n);
        }
        proof {
            assert(s@[2 * (i as int)] == hi);
            assert(s@[2 * (i as int) + 1] == lo);
            assert(is_hex_digit(s@[2 * (i as int)]));
            assert(is_hex_digit(s@[2 * (i as int) + 1]));
        }
        out.push(hv * 16 + lv);
        i = i + 1;
    }
    proof {
        assert(all_hex(s@));
        assert(out@ =~= decoded_bytes(s@));
    }
    out
}

/// Decodes a trace id from its 32-character hexadecimal text; malformed
/// text yields the 16-byte invalid sentinel.
pub fn decode_trace_id(s: &str) -> (r: Vec<u8>)
    ensures
        r@ == spec_decode_id(s@, TRACE_ID_BYTES as int),
        r@.len() == TRACE_ID_BYTES,
{
    decode_id(s, TRACE_ID_BYTES)
}

/// Decodes a span id from its 16-character hexadecimal text; malformed
/// text yields the 8-byte invalid sentinel.
pub fn decode_span_id(s: &str) -> (r: Vec<u8>)
    ensures
        r@ == spec_decode_id(s@, SPAN_ID_BYTES as int),
        r@.len() == SPAN_ID_BYTES,
{
    decode_id(s, SPAN_ID_BYTES)
}

/// The one-character text of a digit value below 16.
fn hex_digit_str(d: u8) -> (r: &'static str)
    requires
        d < 16,
    ensures
        r@.len() == 1,
        r@[0] == hex_char_of(d as int),
{
    proof {
        reveal_strlit("0");
        reveal_strlit("1");
        reveal_strlit("2");
        reveal_strlit("3");
        reveal_strlit("4");
        reveal_strlit("5");
        reveal_strlit("6");
        reveal_strlit("7");
        reveal_strlit("8");
        reveal_strlit("9");
        reveal_strlit("a");
        reveal_strlit("b");
        reveal_strlit("c");
        reveal_strlit("d");
        reveal_strlit("e");
        reveal_strlit("f");
    }
    if d == 0 { "0" }
    else if d == 1 { "1" }
    else if d == 2 { "2" }
    else if d == 3 { "3" }
    else if d == 4 { "4" }
    else if d == 5 { "5" }
    else if d == 6 { "6" }
    else if d == 7 { "7" }
    else if d == 8 { "8" }
    else if d == 9 { "9" }
    else if d == 10 { "a" }
    else if d == 11 { "b" }
    else if d == 12 { "c" }
    else if d == 13 { "d" }
    else if d == 14 { "e" }
    else { "f" }
}

/// Spells a byte sequence as lowercase hexadecimal text, two characters
/// per byte.
fn encode_hex(b: &Vec<u8>) -> (r: String)
    ensures
        r@ == hex_text_of(b@),
{
    let mut out = String::new();
    let mut i: usize = 0;
    while i < b.len()
        invariant
            i <= b@.len(),
            out@.len() == 2 * i,
            forall|j: int| 0 <= j < 2 * i ==> out@[j] == hex_text_of(b@)[j],
        decreases b@.len() - i,
    {
        let byte = b[i];
        out.append(hex_digit_str(byte / 16));
        out.append(hex_digit_str(byte % 16));
        i = i + 1;
    }
    proof {
        assert(out@ =~= hex_text_of(b@));
    }
    out
}

/// Encodes a trace id as its canonical hexadecimal text: lowercase,
/// zero-padded, two characters per byte (32 for a full-width id).
pub fn encode_trace_id(b: &Vec<u8>) -> (r: String)
    ensures
        r@ == hex_text_of(b@),
        r@.len() == 2 * b@.len(),
{
    encode_hex(b)
}

/// Encodes a span id as its canonical hexadecimal text: lowercase,
/// zero-padded, two characters per byte (16 for a full-width id).
pub fn encode_span_id(b: &Vec<u8>) -> (r: String)
    ensures
        r@ == hex_text_of(b@),
        r@.len() == 2 * b@.len(),
{
    encode_hex(b)
}

/// The canonical spelling uses only lowercase hexadecimal digits, and
/// spells the digit values back.
proof fn lemma_hex_char_of(d: int)
    requires
        0 <= d < 16,
    ensures
        is_lower_hex(hex_char_of(d)),
        hex_val(hex_char_of(d)) == d,
{
}

/// A canonical (lowercase) hexadecimal digit is spelled by its own value.
proof fn lemma_char_of_val(c: char)
    requires
        is_lower_hex(c),
    ensures
        hex_char_of(hex_val(c)) == c,
{
}

/// Decoding is the inverse of encoding: the canonical text of any byte
/// sequence decodes back to exactly those bytes.
pub proof fn lemma_decode_of_encode(b: Seq<u8>)
    ensures
        spec_decode_id(hex_text_of(b), b.len() as int) == b,
{
    let s = hex_text_of(b);
    assert forall|i: int| 0 <= i < s.len() implies is_hex_digit(s[i]) by {
        if i % 2 == 0 {
            lemma_hex_char_of(b[i / 2] as int / 16);
        } else {
            lemma_hex_char_of(b[i / 2] as int % 16);
        }
    }
    assert forall|k: int| 0 <= k < b.len() implies decoded_bytes(s)[k] == b[k] by {
        lemma_hex_char_of(b[k] as int / 16);
        lemma_hex_char_of(b[k] as int % 16);
        assert(s[2 * k] == hex_char_of(b[k] as int / 16));
        assert(s[2 * k + 1] == hex_char_of(b[k] as int % 16));
        assert(16 * (b[k] as int / 16) + b[k] as int % 16 == b[k] as int);
    }
    assert(spec_decode_id(s, b.len() as int) =~= b);
}

/// Encoding is the inverse of decoding on well-formed text: a text of the
/// correct length made of lowercase hexadecimal digits is spelled back
/// unchanged by encoding its decoded bytes.
pub proof fn lemma_encode_of_decode(s: Seq<char>, n: int)
    requires
        n >= 0,
        s.len() == 2 * n,
        forall|i: int| 0 <= i < s.len() ==> is_lower_hex(s[i]),
    ensures
        hex_text_of(spec_decode_id(s, n)) == s,
{
    let b = spec_decode_id(s, n);
    assert(all_hex(s));
    assert(b == decoded_bytes(s));
    let t = hex_text_of(b);
    assert forall|i: int| 0 <= i < t.len() implies t[i] == s[i] by {
        let k = i / 2;
        let hv = hex_val(s[2 * k]);
        let lv = hex_val(s[2 * k + 1]);
        assert(b[k] == (16 * hv + lv) as u8);
        assert(0 <= hv < 16 && 0 <= lv < 16);
        assert(b[k] as int / 16 == hv);
        assert(b[k] as int % 16 == lv);
        if i % 2 == 0 {
            assert(i == 2 * k);
            lemma_char_of_val(s[2 * k]);
        } else {
            assert(i == 2 * k + 1);
            lemma_char_of_val(s[2 * k + 1]);
        }
    }
    assert(t =~= s);
}

/// Malformed identifier text never fails to decode: a text of the wrong
/// length, or holding any character that is no hexadecimal digit, decodes
/// to the all-zero invalid sentinel.
pub proof fn lemma_malformed_decodes_to_sentinel(s: Seq<char>, n: int)
    requires
        s.len() != 2 * n || exists|i: int| 0 <= i < s.len() && !is_hex_digit(s[i]),
    ensures
        spec_decode_id(s, n) == zero_bytes(n),
{
}

} // verus!
