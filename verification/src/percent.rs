//! Percent-encoding of the bytes of an argument, so that it can stand as one
//! segment of a URL path, and the decoding that undoes it.
use vstd::prelude::*;
use vstd::string::*;



verus! {

/// Whether `b` may stand in a path segment as it is: an ASCII letter or
/// digit, or one of `-`, `.`, `_`, `~`.
pub open spec fn is_unreserved(b: u8) -> bool {
    (0x41 <= b <= 0x5a) || (0x61 <= b <= 0x7a) || (0x30 <= b <= 0x39) || b == 0x2d || b == 0x2e
        || b == 0x5f || b == 0x7e
}

/// The character of the hexadecimal digit `d`, in upper case.
pub open spec fn upper_hex_char(d: nat) -> char {
    if d < 10 {
        (0x30 + d) as u8 as char
    } else {
        (0x41 + d - 10) as u8 as char
    }
}

/// Whether `c` is a hexadecimal digit, in either case.
pub open spec fn is_hex_char(c: char) -> bool {
    ('0' <= c <= '9') || ('A' <= c <= 'F') || ('a' <= c <= 'f')
}

/// The value of the hexadecimal digit `c`.
pub open spec fn hex_value(c: char) -> nat {
    if '0' <= c <= '9' {
        (c as u8 - 0x30) as nat
    } else if 'A' <= c <= 'F' {
        (c as u8 - 0x41 + 10) as nat
    } else {
        (c as u8 - 0x61 + 10) as nat
    }
}

/// One byte, encoded: itself where it is unreserved, else `%` and its two
/// hexadecimal digits in upper case.
pub open spec fn encode_byte(b: u8) -> Seq<char> {
    if is_unreserved(b) {
        seq![b as char]
    } else {
        seq!['%', upper_hex_char((b / 16) as nat), upper_hex_char((b % 16) as nat)]
    }
}

/// The bytes, each encoded, one after the other.
pub open spec fn percent_encode_spec(bytes: Seq<u8>) -> Seq<char>
    decreases bytes.len(),
{
    if bytes.len() == 0 {
        Seq::empty()
    } else {
        percent_encode_spec(bytes.drop_last()) + encode_byte(bytes.last())
    }
}

/// The bytes that a text stands for: `%` and two hexadecimal digits stand
/// for the byte with that value, any other character for itself.
pub open spec fn percent_decode_spec(s: Seq<char>) -> Seq<u8>
    decreases s.len(),
{
    if s.len() == 0 {
        Seq::empty()
    } else if s[0] == '%' && s.len() >= 3 && is_hex_char(s[1]) && is_hex_char(s[2]) {
        seq![(16 * hex_value(s[1]) + hex_value(s[2])) as u8] + percent_decode_spec(s.skip(3))
    } else {
        seq![s[0] as u8] + percent_decode_spec(s.skip(1))
    }
}

/// Whether every character of `s` is an ASCII character.
pub open spec fn is_ascii_text(s: Seq<char>) -> bool {
    forall|i: int| 0 <= i < s.len() ==> (#[trigger] s[i]) as u32 <= 0x7f
}

/// Whether `s` is ASCII text without a percent sign: text that decoding
/// leaves as it is.
pub open spec fn is_plain(s: Seq<char>) -> bool {
    forall|i: int| 0 <= i < s.len() ==> (#[trigger] s[i]) as u32 <= 0x7f && s[i] != '%'
}

/// The bytes of ASCII text.
pub open spec fn ascii_bytes(s: Seq<char>) -> Seq<u8> {
    s.map_values(|c: char| c as u8)
}

/// Decoding undoes the encoding of one byte, whatever follows it.
pub proof fn lemma_decode_encoded_byte(b: u8, tail: Seq<char>)
    ensures
        percent_decode_spec(encode_byte(b) + tail) == seq![b] + percent_decode_spec(tail),
{
    let s = encode_byte(b) + tail;
    if is_unreserved(b) {
        assert(s.skip(1) =~= tail);
    } else {
        let hi = (b / 16) as nat;
        let lo = (b % 16) as nat;
        assert(s.skip(3) =~= tail);
    }
}

/// Decoding undoes encoding, whatever follows the encoded bytes.
pub proof fn lemma_decode_encoded(bytes: Seq<u8>, tail: Seq<char>)
    ensures
        percent_decode_spec(percent_encode_spec(bytes) + tail) == bytes + percent_decode_spec(tail),
    decreases bytes.len(),
{
    if bytes.len() == 0 {
        assert(bytes + percent_decode_spec(tail) =~= percent_decode_spec(tail));
    } else {
        let init = bytes.drop_last();
        let last = bytes.last();
        assert(percent_encode_spec(bytes) + tail =~= percent_encode_spec(init) + (encode_byte(last)
            + tail));
        lemma_decode_encoded(init, encode_byte(last) + tail);
        lemma_decode_encoded_byte(last, tail);
    }
}

/// Decoding leaves plain text as it is, whatever follows it.
pub proof fn lemma_decode_plain(plain: Seq<char>, tail: Seq<char>)
    requires
        is_plain(plain),
    ensures
        percent_decode_spec(plain + tail) == ascii_bytes(plain) + percent_decode_spec(tail),
    decreases plain.len(),
{
    if plain.len() == 0 {
        assert(ascii_bytes(plain) + percent_decode_spec(tail) =~= percent_decode_spec(tail));
    } else {
        let s = plain + tail;
        let rest = plain.skip(1);
        assert(s.skip(1) =~= rest + tail);
        assert forall|i: int| 0 <= i < rest.len() implies (#[trigger] rest[i]) as u32 <= 0x7f
            && rest[i] != '%' by {
            assert(rest[i] == plain[i + 1]);
        }
        lemma_decode_plain(rest, tail);
    }
}

/// An encoded text is ASCII text.
pub proof fn lemma_encoded_is_ascii(bytes: Seq<u8>)
    ensures
        is_ascii_text(percent_encode_spec(bytes)),
    decreases bytes.len(),
{
    if bytes.len() > 0 {
        lemma_encoded_is_ascii(bytes.drop_last());
    }
}

/// Decoding what was encoded gives the bytes back.
pub proof fn lemma_percent_round_trip(bytes: Seq<u8>)
    ensures
        percent_decode_spec(percent_encode_spec(bytes)) == bytes,
{
    lemma_decode_encoded(bytes, Seq::empty());
}

/// The character of the hexadecimal digit `d`, in upper case.
pub fn upper_hex_digit(d: u8) -> (c: char)
    requires
        d < 16,
    ensures
        c == upper_hex_char(d as nat),
{
    if d < 10 {
        (0x30 + d) as char
    } else {
        (0x41 + d - 10) as char
    }
}

/// The value of the character `c` as a hexadecimal digit, if it is one.
pub fn hex_digit_value(c: char) -> (r: Option<u8>)
    ensures
        match r {
            Some(v) => is_hex_char(c) && v == hex_value(c),
            None => !is_hex_char(c),
        },
{
    if '0' <= c && c <= '9' {
        Some(c as u8 - 0x30)
    } else if 'A' <= c && c <= 'F' {
        Some(c as u8 - 0x41 + 10)
    } else if 'a' <= c && c <= 'f' {
        Some(c as u8 - 0x61 + 10)
    } else {
        None
    }
}

/// `bytes`, percent-encoded.
pub fn percent_encode(bytes: &[u8]) -> (r: String)
    ensures
        r@ == percent_encode_spec(bytes@),
{
    let mut r = String::new();
    let mut i: usize = 0;
    while i < bytes.len()
        invariant
            i <= bytes.len(),
            r@ == percent_encode_spec(bytes@.take(i as int)),
        decreases bytes.len() - i,
    {
        let b = bytes[i];
        proof {
            assert(bytes@.take(i + 1).drop_last() =~= bytes@.take(i as int));
        }
        let unreserved = (0x41 <= b && b <= 0x5a) || (0x61 <= b && b <= 0x7a) || (0x30 <= b && b
            <= 0x39) || b == 0x2d || b == 0x2e || b == 0x5f || b == 0x7e;
        if unreserved {
            r.push(b as char);
            assert(r@ =~= percent_encode_spec(bytes@.take(i as int)) + encode_byte(b));
        } else {
            r.push('%');
            r.push(upper_hex_digit(b / 16));
            r.push(upper_hex_digit(b % 16));
        }
        i += 1;
    }
    assert(bytes@.take(bytes.len() as int) == bytes@);
    r
}

/// The bytes that the ASCII text `s` stands for; nothing where `s` holds a
/// character outside ASCII.
pub fn percent_decode(s: &str) -> (r: Option<Vec<u8>>)
    ensures
        match r {
            Some(bytes) => is_ascii_text(s@) && bytes@ == percent_decode_spec(s@),
            None => !is_ascii_text(s@),
        },
{
    let chars = crate::text::to_chars(s);
    let n = chars.len();
    let mut out: Vec<u8> = Vec::new();
    let mut i: usize = 0;
    assert(chars@.skip(0) =~= chars@);
    while i < n
        invariant
            i <= n,
            n == chars.len(),
            chars@ == s@,
            forall|k: int| 0 <= k < i ==> (#[trigger] chars@[k]) as u32 <= 0x7f,
            percent_decode_spec(chars@) == out@ + percent_decode_spec(chars@.skip(i as int)),
        decreases n - i,
    {
        let c = chars[i];
        let ghost rest = chars@.skip(i as int);
        if c as u32 > 0x7f {
            return None;
        }
        let mut taken: usize = 1;
        let mut byte: u8 = c as u8;
        if c == '%' && n - i >= 3 {
            if chars[i + 1] as u32 > 0x7f || chars[i + 2] as u32 > 0x7f {
                return None;
            }
            match (hex_digit_value(chars[i + 1]), hex_digit_value(chars[i + 2])) {
                (Some(hi), Some(lo)) => {
                    byte = 16 * hi + lo;
                    taken = 3;
                },
                _ => {},
            }
        }
        out.push(byte);
        proof {
            if rest.len() >= 3 {
                assert(rest[2] == chars@[i + 2]);
            }
            assert(rest.skip(taken as int) =~= chars@.skip(i + taken));
        }
        i += taken;
    }
    Some(out)
}

} // verus!
