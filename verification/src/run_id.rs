//! The identifier of one backend instance's lifetime: a 128-bit value, drawn
//! at random, that names routes and labels cluster objects.
use vstd::prelude::*;

use crate::text::push_decimal;

verus! {

/// The character of the hexadecimal digit `d`, in lower case.
pub open spec fn hex_char(d: nat) -> char {
    if d == 0 {
        '0'
    } else if d == 1 {
        '1'
    } else if d == 2 {
        '2'
    } else if d == 3 {
        '3'
    } else if d == 4 {
        '4'
    } else if d == 5 {
        '5'
    } else if d == 6 {
        '6'
    } else if d == 7 {
        '7'
    } else if d == 8 {
        '8'
    } else if d == 9 {
        '9'
    } else if d == 10 {
        'a'
    } else if d == 11 {
        'b'
    } else if d == 12 {
        'c'
    } else if d == 13 {
        'd'
    } else if d == 14 {
        'e'
    } else {
        'f'
    }
}

/// The last `width` hexadecimal digits of `n`, most significant first.
pub open spec fn hex_fixed(n: nat, width: nat) -> Seq<char>
    decreases width,
{
    if width == 0 {
        Seq::empty()
    } else {
        hex_fixed(n / 16, (width - 1) as nat).push(hex_char(n % 16))
    }
}

/// The 32 hexadecimal digits of `value` in groups of 8, 4, 4, 4 and 12,
/// with a hyphen between the groups.
pub open spec fn hyphenated_spec(value: u128) -> Seq<char> {
    let h = hex_fixed(value as nat, 32);
    h.subrange(0, 8) + seq!['-'] + h.subrange(8, 12) + seq!['-'] + h.subrange(12, 16) + seq!['-']
        + h.subrange(16, 20) + seq!['-'] + h.subrange(20, 32)
}

/// `hex_fixed` has `width` digits.
pub proof fn lemma_hex_fixed_len(n: nat, width: nat)
    ensures
        hex_fixed(n, width).len() == width,
    decreases width,
{
    if width > 0 {
        lemma_hex_fixed_len(n / 16, (width - 1) as nat);
    }
}

/// The character of the hexadecimal digit `d`.
pub fn hex_digit(d: u8) -> (c: char)
    requires
        d < 16,
    ensures
        c == hex_char(d as nat),
{
    if d == 0 {
        '0'
    } else if d == 1 {
        '1'
    } else if d == 2 {
        '2'
    } else if d == 3 {
        '3'
    } else if d == 4 {
        '4'
    } else if d == 5 {
        '5'
    } else if d == 6 {
        '6'
    } else if d == 7 {
        '7'
    } else if d == 8 {
        '8'
    } else if d == 9 {
        '9'
    } else if d == 10 {
        'a'
    } else if d == 11 {
        'b'
    } else if d == 12 {
        'c'
    } else if d == 13 {
        'd'
    } else if d == 14 {
        'e'
    } else {
        'f'
    }
}

/// Appends the last `width` hexadecimal digits of `n` to `out`.
pub fn push_hex(out: &mut Vec<char>, n: u128, width: u32)
    ensures
        final(out)@ == old(out)@ + hex_fixed(n as nat, width as nat),
    decreases width,
{
    if width > 0 {
        push_hex(out, n / 16, width - 1);
        let d: u8 = (n % 16) as u8;
        out.push(hex_digit(d));
    }
}

/// Whether `value` is the value of an identifier of version 4: counted from
/// the least significant bit, bits 76 to 79, the version, hold 4, and bits 62
/// and 63, the variant, hold binary 10. The other 122 bits are free.
pub open spec fn is_version_4(value: u128) -> bool {
    &&& (value as nat / 0x1000_0000_0000_0000_0000) % 16 == 4
    &&& (value as nat / 0x4000_0000_0000_0000) % 4 == 2
}

/// Identifier of one backend instance's lifetime.
#[derive(Debug, Clone, Copy)]
pub struct RunId {
    pub value: u128,
}

impl RunId {
    /// A fresh identifier of version 4: all but version and variant is random.
    pub fn generate() -> (id: RunId)
        ensures
            is_version_4(id.value),
    {
        RunId { value: random_value() }
    }

    /// The identifier with the given 128-bit value.
    pub fn from_u128(value: u128) -> (id: RunId)
        ensures
            id.value == value,
    {
        RunId { value }
    }

    /// The 128-bit value.
    pub fn as_u128(&self) -> (value: u128)
        ensures
            value == self.value,
    {
        self.value
    }

    /// The identifier as it stands in routes, labels and object names:
    /// lower-case hexadecimal digits in hyphenated groups.
    pub fn to_hyphenated(&self) -> (s: String)
        ensures
            s@ == hyphenated_spec(self.value),
    {
        let mut digits: Vec<char> = Vec::new();
        push_hex(&mut digits, self.value, 32);
        proof {
            lemma_hex_fixed_len(self.value as nat, 32);
        }
        let mut s = String::new();
        push_range(&mut s, &digits, 0, 8);
        s.push('-');
        push_range(&mut s, &digits, 8, 12);
        s.push('-');
        push_range(&mut s, &digits, 12, 16);
        s.push('-');
        push_range(&mut s, &digits, 16, 20);
        s.push('-');
        push_range(&mut s, &digits, 20, 32);
        s
    }

    /// The identifier as a decimal number, as it stands in file names.
    pub fn to_decimal(&self) -> (s: String)
        ensures
            s@ == crate::text::decimal_spec(self.value as nat),
    {
        let mut s = String::new();
        push_decimal(&mut s, self.value);
        s
    }
}

/// `uuid::Uuid::new_v4` followed by `Uuid::as_u128`: an identifier drawn from
/// the system's random source, as its 128-bit value. Each call may give
/// another value, so only what holds of every outcome is stated: `new_v4`
/// sets the version field to 4 and the variant field to binary 10, whatever
/// the random bits are, and `as_u128` gives the identifier's bytes as one
/// number, most significant byte first. The call ends the program where the
/// system has no random bytes to give.
#[verifier::external_body]
fn random_value() -> (value: u128)
    ensures
        is_version_4(value),
{
    uuid::Uuid::new_v4().as_u128()
}

/// Appends the characters of `from` at the positions `lo` up to `hi` to `out`.
pub fn push_range(out: &mut String, from: &Vec<char>, lo: usize, hi: usize)
    requires
        lo <= hi <= from.len(),
    ensures
        final(out)@ == old(out)@ + from@.subrange(lo as int, hi as int),
{
    let mut i: usize = lo;
    while i < hi
        invariant
            lo <= i <= hi <= from.len(),
            out@ == old(out)@ + from@.subrange(lo as int, i as int),
        decreases hi - i,
    {
        out.push(from[i]);
        i += 1;
    }
}

/// 16 to the power of `k`.
pub open spec fn pow16(k: nat) -> nat
    decreases k,
{
    if k == 0 {
        1
    } else {
        16 * pow16((k - 1) as nat)
    }
}

/// The digit of `hex_fixed` that stands `k` places before the last is the
/// digit of `n` with the weight 16 to the power of `k`.
pub proof fn lemma_hex_fixed_digit(n: nat, width: nat, k: nat)
    requires
        k < width,
    ensures
        hex_fixed(n, width).len() == width,
        pow16(k) > 0,
        hex_fixed(n, width)[width - 1 - k] == hex_char((n / pow16(k)) % 16),
    decreases k,
{
    let inner = hex_fixed(n / 16, (width - 1) as nat);
    lemma_hex_fixed_len(n, width);
    lemma_hex_fixed_len(n / 16, (width - 1) as nat);
    assert(hex_fixed(n, width) == inner.push(hex_char(n % 16)));
    if k > 0 {
        let below = (k - 1) as nat;
        lemma_hex_fixed_digit(n / 16, (width - 1) as nat, below);
        vstd::arithmetic::div_mod::lemma_div_denominator(n as int, 16, pow16(below) as int);
        assert(pow16(k) == 16 * pow16(below));
        assert((n / 16) / pow16(below) == n / pow16(k));
        assert(hex_fixed(n, width)[width - 1 - k] == inner[width - 1 - k]);
    } else {
        assert(pow16(0) == 1);
        assert(n / 1 == n);
    }
}

/// The text of an identifier of version 4 shows its version and its
/// variant: the first character of its third group is the digit 4, and the
/// first character of its fourth group is one of `8`, `9`, `a` and `b`.
pub proof fn lemma_version_digit(value: u128)
    requires
        is_version_4(value),
    ensures
        hyphenated_spec(value).len() == 36,
        hyphenated_spec(value)[14] == '4',
        hyphenated_spec(value)[19] == '8' || hyphenated_spec(value)[19] == '9' || hyphenated_spec(
            value,
        )[19] == 'a' || hyphenated_spec(value)[19] == 'b',
{
    let n = value as nat;
    lemma_hex_fixed_digit(n, 32, 19);
    lemma_hex_fixed_digit(n, 32, 15);
    assert(pow16(19) == 0x1000_0000_0000_0000_0000 && pow16(15) == 0x1000_0000_0000_0000) by {
        reveal_with_fuel(pow16, 20);
    }
    vstd::arithmetic::div_mod::lemma_div_denominator(n as int, 0x1000_0000_0000_0000, 4);
    let q = n / 0x1000_0000_0000_0000;
    assert((q / 4) % 4 == 2);
    assert(8 <= q % 16 <= 11);
}

} // verus!
