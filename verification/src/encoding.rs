//! Percent-encoding of URL components and header values (RFC 3986
//! unreserved characters kept, every other byte written as `%XX`), and the
//! lenient decoder the administration panel uses on file names.

use vstd::prelude::*;
use vstd::utf8::{decode_utf8, encode_utf8, valid_utf8};
use crate::text::string_of;

verus! {

/// RFC 3986 unreserved bytes: ASCII letters, digits, `-`, `.`, `_`, `~`.
pub open spec fn unreserved(b: u8) -> bool {
    ||| (0x41 <= b && b <= 0x5a)
    ||| (0x61 <= b && b <= 0x7a)
    ||| (0x30 <= b && b <= 0x39)
    ||| b == 0x2d
    ||| b == 0x2e
    ||| b == 0x5f
    ||| b == 0x7e
}

/// The upper-case hexadecimal digit for a value below 16.
pub open spec fn hex_upper(v: u8) -> char {
    if v < 10 {
        ((48 + v) as u32) as char
    } else {
        ((55 + v) as u32) as char
    }
}

/// How one byte is written: itself when unreserved, else `%` and two
/// upper-case hexadecimal digits.
pub open spec fn encode_byte(b: u8) -> Seq<char> {
    if unreserved(b) {
        seq![(b as u32) as char]
    } else {
        seq!['%', hex_upper(b / 16), hex_upper(b % 16)]
    }
}

/// The percent-encoding of a byte string.
pub open spec fn percent_encode(b: Seq<u8>) -> Seq<char>
    decreases b.len(),
{
    if b.len() == 0 {
        seq![]
    } else {
        encode_byte(b[0]) + percent_encode(b.drop_first())
    }
}

/// The value of a hexadecimal digit byte, either case.
pub open spec fn hex_val(b: u8) -> Option<u8> {
    if 0x30 <= b && b <= 0x39 {
        Some((b - 0x30) as u8)
    } else if 0x61 <= b && b <= 0x66 {
        Some((b - 0x61 + 10) as u8)
    } else if 0x41 <= b && b <= 0x46 {
        Some((b - 0x41 + 10) as u8)
    } else {
        None
    }
}

/// Percent-decoding that keeps what it cannot decode: `%` followed by two
/// hexadecimal digits becomes that byte; every other byte stays.
pub open spec fn percent_decode(b: Seq<u8>) -> Seq<u8>
    decreases b.len(),
{
    if b.len() == 0 {
        seq![]
    } else if b[0] == 0x25 && b.len() > 2 && hex_val(b[1]) is Some && hex_val(b[2]) is Some {
        seq![(hex_val(b[1])->0 * 16 + hex_val(b[2])->0) as u8] + percent_decode(b.skip(3))
    } else {
        seq![b[0]] + percent_decode(b.drop_first())
    }
}

/// The text `String::from_utf8_lossy` makes of a byte string.
pub uninterp spec fn utf8_lossy(b: Seq<u8>) -> Seq<char>;

/// Bytes as text: decoded when well-formed UTF-8, else as
/// `String::from_utf8_lossy` replaces what is malformed.
pub open spec fn lossy_text(b: Seq<u8>) -> Seq<char> {
    if valid_utf8(b) {
        decode_utf8(b)
    } else {
        utf8_lossy(b)
    }
}

/// `String::from_utf8_lossy(b)`: the bytes decoded, with each malformed
/// sequence replaced by U+FFFD. Only the well-formed case is stated; the
/// replacement itself is left to the name `utf8_lossy`.
#[verifier::external_body]
fn from_utf8_lossy(b: &[u8]) -> (s: String)
    ensures
        s@ == utf8_lossy(b@),
        valid_utf8(b@) ==> s@ == decode_utf8(b@),
{
    String::from_utf8_lossy(b).into_owned()
}

fn hex_upper_exec(v: u8) -> (c: char)
    requires
        v < 16,
    ensures
        c == hex_upper(v),
{
    if v < 10 {
        (48u8 + v) as char
    } else {
        (55u8 + v) as char
    }
}

/// Percent-encodes a byte string.
pub fn percent_encode_bytes(b: &[u8]) -> (r: Vec<char>)
    ensures
        r@ == percent_encode(b@),
{
    let mut out: Vec<char> = Vec::new();
    let mut i: usize = 0;
    proof {
        assert(b@.skip(0) =~= b@);
    }
    while i < b.len()
        invariant
            i <= b.len(),
            percent_encode(b@) == out@ + percent_encode(b@.skip(i as int)),
        decreases b.len() - i,
    {
        let x = b[i];
        let ghost before = out@;
        let keep = (0x41 <= x && x <= 0x5a) || (0x61 <= x && x <= 0x7a) || (0x30 <= x && x <= 0x39)
            || x == 0x2d || x == 0x2e || x == 0x5f || x == 0x7e;
        if keep {
            out.push(x as char);
        } else {
            out.push('%');
            let hi = x >> 4;
            let lo = x & 0x0f;
            assert(hi == x / 16 && lo == x % 16) by (bit_vector)
                requires
                    hi == x >> 4,
                    lo == x & 0x0f,
            ;
            out.push(hex_upper_exec(hi));
            out.push(hex_upper_exec(lo));
        }
        proof {
            let t = b@.skip(i as int);
            assert(t[0] == x);
            assert(t.drop_first() =~= b@.skip(i + 1));
            assert(out@ =~= before + encode_byte(x));
            assert(before + (encode_byte(x) + percent_encode(b@.skip(i + 1))) =~= out@
                + percent_encode(b@.skip(i + 1)));
        }
        i = i + 1;
    }
    proof {
        assert(b@.skip(b@.len() as int) =~= Seq::<u8>::empty());
        assert(out@ + Seq::<char>::empty() =~= out@);
    }
    out
}

/// Percent-encodes the UTF-8 bytes of a query parameter value.
pub fn percent_encode_query_component(input: &str) -> (r: String)
    ensures
        r@ == percent_encode(encode_utf8(input@)),
{
    let v = percent_encode_bytes(input.as_bytes());
    string_of(v.as_slice())
}

/// Percent-encodes the UTF-8 bytes of a URL component.
pub fn url_encode_component(s: &str) -> (r: String)
    ensures
        r@ == percent_encode(encode_utf8(s@)),
{
    let v = percent_encode_bytes(s.as_bytes());
    string_of(v.as_slice())
}

/// Percent-encodes the UTF-8 bytes of a header parameter value.
pub fn percent_encode_header_value(input: &str) -> (r: String)
    ensures
        r@ == percent_encode(encode_utf8(input@)),
{
    let v = percent_encode_bytes(input.as_bytes());
    string_of(v.as_slice())
}

fn hex_val_exec(b: u8) -> (r: Option<u8>)
    ensures
        r == hex_val(b),
{
    if 0x30 <= b && b <= 0x39 {
        Some(b - 0x30)
    } else if 0x61 <= b && b <= 0x66 {
        Some(b - 0x61 + 10)
    } else if 0x41 <= b && b <= 0x46 {
        Some(b - 0x41 + 10)
    } else {
        None
    }
}

/// Percent-decodes a byte string, keeping what does not decode.
pub fn percent_decode_bytes(b: &[u8]) -> (r: Vec<u8>)
    ensures
        r@ == percent_decode(b@),
{
    let mut out: Vec<u8> = Vec::new();
    let mut i: usize = 0;
    proof {
        assert(b@.skip(0) =~= b@);
    }
    while i < b.len()
        invariant
            i <= b.len(),
            percent_decode(b@) == out@ + percent_decode(b@.skip(i as int)),
        decreases b.len() - i,
    {
        let ghost before = out@;
        let ghost t = b@.skip(i as int);
        if b[i] == 0x25 && b.len() - i > 2 {
            let hi = hex_val_exec(b[i + 1]);
            let lo = hex_val_exec(b[i + 2]);
            if let (Some(a), Some(c)) = (hi, lo) {
                let v = (a << 4) | c;
                assert(v == a * 16 + c) by (bit_vector)
                    requires
                        a < 16,
                        c < 16,
                        v == (a << 4) | c,
                ;
                out.push(v);
                proof {
                    assert(t[0] == 0x25 && t[1] == b@[i + 1] && t[2] == b@[i + 2]);
                    assert(t.skip(3) =~= b@.skip(i + 3));
                    assert(out@ =~= before + seq![v]);
                    assert(before + (seq![v] + percent_decode(b@.skip(i + 3))) =~= out@
                        + percent_decode(b@.skip(i + 3)));
                }
                i = i + 3;
                continue;
            }
        }
        out.push(b[i]);
        proof {
            assert(t[0] == b@[i as int]);
            if t.len() > 2 {
                assert(t[1] == b@[i + 1] && t[2] == b@[i + 2]);
            }
            assert(t.drop_first() =~= b@.skip(i + 1));
            assert(out@ =~= before + seq![b@[i as int]]);
            assert(before + (seq![b@[i as int]] + percent_decode(b@.skip(i + 1))) =~= out@
                + percent_decode(b@.skip(i + 1)));
        }
        i = i + 1;
    }
    proof {
        assert(b@.skip(b@.len() as int) =~= Seq::<u8>::empty());
        assert(out@ + Seq::<u8>::empty() =~= out@);
    }
    out
}

/// Decodes a percent-encoded component into text, leniently: undecodable
/// escapes stay as they are and malformed UTF-8 is replaced.
pub fn url_decode_component_lossy(input: &str) -> (r: String)
    ensures
        r@ == lossy_text(percent_decode(encode_utf8(input@))),
{
    let bytes = percent_decode_bytes(input.as_bytes());
    from_utf8_lossy(bytes.as_slice())
}

/// The number of bytes UTF-8 takes for a character.
pub open spec fn utf8_width(c: char) -> nat {
    vstd::utf8::encode_scalar(c as u32).len()
}

pub fn utf8_width_exec(c: char) -> (n: usize)
    ensures
        n == utf8_width(c),
{
    let v = c as u32;
    proof {
        vstd::utf8::char_is_scalar(c);
    }
    if v < 0x80 {
        1
    } else if v < 0x800 {
        2
    } else if v < 0x10000 {
        3
    } else {
        4
    }
}

/// UTF-8 encodes a concatenation piece by piece.
pub proof fn lemma_encode_utf8_concat(a: Seq<char>, b: Seq<char>)
    ensures
        encode_utf8(a + b) == encode_utf8(a) + encode_utf8(b),
    decreases a.len(),
{
    if a.len() == 0 {
        assert(a + b =~= b);
        assert(encode_utf8(a) =~= Seq::<u8>::empty());
        assert(Seq::<u8>::empty() + encode_utf8(b) =~= encode_utf8(b));
    } else {
        assert((a + b).drop_first() =~= a.drop_first() + b);
        assert((a + b)[0] == a[0]);
        lemma_encode_utf8_concat(a.drop_first(), b);
        assert(encode_utf8(a + b) =~= encode_utf8(a) + encode_utf8(b));
    }
}

/// The UTF-8 length of a prefix grows by each next character's width.
pub proof fn lemma_encode_utf8_take(s: Seq<char>, k: int)
    requires
        0 <= k < s.len(),
    ensures
        encode_utf8(s.take(k + 1)).len() == encode_utf8(s.take(k)).len() + utf8_width(s[k]),
{
    assert(s.take(k + 1) =~= s.take(k) + seq![s[k]]);
    lemma_encode_utf8_concat(s.take(k), seq![s[k]]);
    assert(seq![s[k]].drop_first() =~= Seq::<char>::empty());
    assert(encode_utf8(seq![s[k]]) =~= vstd::utf8::encode_scalar(s[k] as u32) + encode_utf8(
        Seq::<char>::empty(),
    ));
}

// ---------------------------------------------------------------------------
// Round trip
// ---------------------------------------------------------------------------

/// The bytes of a text made only of ASCII characters.
pub open spec fn ascii_bytes(cs: Seq<char>) -> Seq<u8> {
    cs.map_values(|c: char| (c as u32) as u8)
}

pub open spec fn all_ascii(cs: Seq<char>) -> bool {
    forall|i: int| 0 <= i < cs.len() ==> (#[trigger] cs[i] as u32) < 0x80
}

proof fn lemma_encode_utf8_ascii(cs: Seq<char>)
    requires
        all_ascii(cs),
    ensures
        encode_utf8(cs) == ascii_bytes(cs),
    decreases cs.len(),
{
    if cs.len() > 0 {
        let rest = cs.drop_first();
        assert(all_ascii(rest)) by {
            assert forall|i: int| 0 <= i < rest.len() implies (#[trigger] rest[i] as u32) < 0x80 by {
                assert(rest[i] == cs[i + 1]);
            }
        }
        lemma_encode_utf8_ascii(rest);
        let c = cs[0] as u32;
        assert(c < 0x80);
        assert(vstd::utf8::encode_scalar(c) =~= seq![c as u8]) by {
            assert(vstd::utf8::has_width_1_encoding(c));
            assert(vstd::utf8::leading_byte_width_1(c) == c as u8) by (bit_vector)
                requires
                    c < 0x80,
            ;
        }
        assert(ascii_bytes(cs) =~= seq![c as u8] + ascii_bytes(rest));
    }
}

proof fn lemma_percent_encode_ascii(b: Seq<u8>)
    ensures
        all_ascii(percent_encode(b)),
    decreases b.len(),
{
    if b.len() > 0 {
        lemma_percent_encode_ascii(b.drop_first());
        let e = encode_byte(b[0]);
        let r = percent_encode(b.drop_first());
        assert(all_ascii(e));
        assert forall|i: int| 0 <= i < e.len() + r.len() implies (#[trigger] (e + r)[i] as u32)
            < 0x80 by {
            if i >= e.len() {
                assert((e + r)[i] == r[i - e.len()]);
            }
        }
    }
}

proof fn lemma_decode_encoded(b: Seq<u8>)
    ensures
        percent_decode(ascii_bytes(percent_encode(b))) == b,
    decreases b.len(),
{
    if b.len() > 0 {
        let x = b[0];
        let rest = b.drop_first();
        lemma_decode_encoded(rest);
        let e = encode_byte(x);
        let tail = ascii_bytes(percent_encode(rest));
        let all = ascii_bytes(percent_encode(b));
        assert(all =~= ascii_bytes(e) + tail);
        if unreserved(x) {
            assert(ascii_bytes(e) =~= seq![x]);
            assert(all[0] == x);
            assert(x != 0x25);
            assert(all.drop_first() =~= tail);
            assert(b =~= seq![x] + rest);
        } else {
            let hi = x / 16;
            let lo = x % 16;
            assert(ascii_bytes(e)[0] == 0x25);
            assert(ascii_bytes(e)[1] == (hex_upper(hi) as u32) as u8);
            assert(ascii_bytes(e)[2] == (hex_upper(lo) as u32) as u8);
            assert(hex_val((hex_upper(hi) as u32) as u8) == Some(hi));
            assert(hex_val((hex_upper(lo) as u32) as u8) == Some(lo));
            assert(all.skip(3) =~= tail);
            assert(b =~= seq![x] + rest);
            assert(seq![(hi * 16 + lo) as u8] =~= seq![x]);
        }
    }
}

/// Decoding what `url_encode_component` (or either of its twins) wrote gives
/// back the original text.
pub proof fn law_url_decode_inverts_encode(s: Seq<char>)
    ensures
        lossy_text(percent_decode(encode_utf8(percent_encode(encode_utf8(s))))) == s,
{
    let b = encode_utf8(s);
    lemma_percent_encode_ascii(b);
    lemma_encode_utf8_ascii(percent_encode(b));
    lemma_decode_encoded(b);
    vstd::utf8::encode_utf8_valid_utf8(s);
    vstd::utf8::encode_utf8_decode_utf8(s);
}

/// Percent-encoding writes nothing but unreserved characters, `%` and
/// upper-case hexadecimal digits.
pub proof fn law_percent_encode_alphabet(b: Seq<u8>)
    ensures
        forall|i: int|
            0 <= i < percent_encode(b).len() ==> {
                let c = #[trigger] percent_encode(b)[i];
                unreserved((c as u32) as u8) && (c as u32) < 0x80 || c == '%'
            },
    decreases b.len(),
{
    if b.len() > 0 {
        law_percent_encode_alphabet(b.drop_first());
        let e = encode_byte(b[0]);
        let r = percent_encode(b.drop_first());
        assert(percent_encode(b) == e + r);
        assert forall|i: int| 0 <= i < e.len() + r.len() implies {
            let c = #[trigger] (e + r)[i];
            unreserved((c as u32) as u8) && (c as u32) < 0x80 || c == '%'
        } by {
            if i >= e.len() {
                assert((e + r)[i] == r[i - e.len()]);
            }
        }
    }
}

} // verus!
