//! Numbers as text: the hexadecimal and decimal notations used in the emitted
//! source, their inverse, and a few string helpers.

use vstd::prelude::*;

verus! {

/// `String::push` appends the given character to the end of the string.
pub assume_specification[ String::push ](s: &mut String, c: char)
    ensures
        final(s)@ == old(s)@.push(c),
;

/// The character that stands for the digit `d` (`0`-`9`, then `A`-`F`).
pub open spec fn digit_char(d: nat) -> char {
    if d < 10 {
        ('0' as nat + d) as char
    } else {
        ('A' as nat + d - 10) as char
    }
}

/// The digit that `c` stands for, if it is one of `0`-`9` or `A`-`F`.
pub open spec fn digit_value(c: char) -> Option<nat> {
    if '0' <= c && c <= '9' {
        Some((c as nat - '0' as nat) as nat)
    } else if 'A' <= c && c <= 'F' {
        Some((c as nat - 'A' as nat + 10) as nat)
    } else {
        None
    }
}

/// The digits of `n` in base 16, most significant first, without leading zeros.
pub open spec fn hex_digits(n: nat) -> Seq<char>
    decreases n,
{
    if n < 16 {
        seq![digit_char(n)]
    } else {
        hex_digits(n / 16).push(digit_char(n % 16))
    }
}

/// The digits of `n` in base 10, most significant first, without leading zeros.
pub open spec fn decimal_digits(n: nat) -> Seq<char>
    decreases n,
{
    if n < 10 {
        seq![digit_char(n)]
    } else {
        decimal_digits(n / 10).push(digit_char(n % 10))
    }
}

/// `n` in prefixed upper-case hexadecimal: `0x0`, `0x1F`, ...
pub open spec fn hex_text(n: nat) -> Seq<char> {
    seq!['0', 'x'] + hex_digits(n)
}

/// Whether every character of `s` is a hexadecimal digit.
pub open spec fn all_hex_digits(s: Seq<char>) -> bool {
    forall|i: int| 0 <= i < s.len() ==> (#[trigger] digit_value(s[i])) is Some
}

/// The number that a sequence of hexadecimal digits denotes.
pub open spec fn hex_digits_value(s: Seq<char>) -> nat
    decreases s.len(),
{
    if s.len() == 0 {
        0
    } else {
        16 * hex_digits_value(s.drop_last()) + match digit_value(s.last()) {
            Some(d) => d,
            None => 0,
        }
    }
}

/// Reads prefixed hexadecimal text back: the number it denotes, or `None`
/// where the text is not `0x` followed by at least one digit.
pub open spec fn hex_value(t: Seq<char>) -> Option<nat> {
    if t.len() > 2 && t[0] == '0' && t[1] == 'x' && all_hex_digits(t.skip(2)) {
        Some(hex_digits_value(t.skip(2)))
    } else {
        None
    }
}

/// The unsigned 64-bit number with the same bit pattern as `v`.
pub open spec fn bits_of(v: i64) -> nat {
    if v >= 0 {
        v as nat
    } else {
        (v + 0x1_0000_0000_0000_0000) as nat
    }
}

/// The digits of a number denote that number.
pub proof fn lemma_hex_digits_value(n: nat)
    ensures
        hex_digits(n).len() >= 1,
        all_hex_digits(hex_digits(n)),
        hex_digits_value(hex_digits(n)) == n,
    decreases n,
{
    let s = hex_digits(n);
    if n < 16 {
        assert(hex_digits_value(s.drop_last()) == 0);
    } else {
        lemma_hex_digits_value(n / 16);
        assert(s.drop_last() =~= hex_digits(n / 16));
    }
}

/// Hexadecimal text reads back as the number it was written from.
pub proof fn lemma_hex_round_trip(n: nat)
    ensures
        hex_value(hex_text(n)) == Some(n),
{
    lemma_hex_digits_value(n);
    assert(hex_text(n).skip(2) =~= hex_digits(n));
}

/// Hexadecimal text never carries a minus sign.
pub proof fn lemma_hex_text_unsigned(n: nat)
    ensures
        !hex_text(n).contains('-'),
{
    lemma_hex_digits_value(n);
    let t = hex_text(n);
    assert forall|i: int| 0 <= i < t.len() implies t[i] != '-' by {
        if i >= 2 {
            assert(digit_value(hex_digits(n)[i - 2]) is Some);
        }
    }
}

fn digit(d: u8) -> (c: char)
    requires
        d < 16,
    ensures
        c == digit_char(d as nat),
{
    if d < 10 {
        (48u8 + d) as char
    } else {
        (55u8 + d) as char
    }
}

fn push_hex_digits(out: &mut String, v: u64)
    ensures
        final(out)@ == old(out)@ + hex_digits(v as nat),
    decreases v,
{
    if v >= 16 {
        push_hex_digits(out, v / 16);
    }
    out.push(digit((v % 16) as u8));
}

fn push_decimal_digits(out: &mut String, v: u64)
    ensures
        final(out)@ == old(out)@ + decimal_digits(v as nat),
    decreases v,
{
    if v >= 10 {
        push_decimal_digits(out, v / 10);
    }
    out.push(digit((v % 10) as u8));
}

/// Writes `v` in prefixed upper-case hexadecimal.
pub fn format_hex(v: u64) -> (s: String)
    ensures
        s@ == hex_text(v as nat),
{
    let mut s = String::new();
    s.push('0');
    s.push('x');
    push_hex_digits(&mut s, v);
    s
}

/// Writes the 64 bits of `v` in prefixed upper-case hexadecimal, so a negative
/// number appears as its two's complement.
pub fn format_hex_signed(v: i64) -> (s: String)
    ensures
        s@ == hex_text(bits_of(v)),
{
    if v >= 0 {
        format_hex(v as u64)
    } else {
        format_hex(u64::MAX - ((-(v + 1)) as u64))
    }
}

/// Writes `v` in decimal.
pub fn format_decimal(v: u64) -> (s: String)
    ensures
        s@ == decimal_digits(v as nat),
{
    let mut s = String::new();
    push_decimal_digits(&mut s, v);
    s
}

/// Whether two strings hold the same characters.
pub fn same_text(a: &str, b: &str) -> (r: bool)
    ensures
        r == (a@ == b@),
{
    let x = a.to_owned();
    let y = b.to_owned();
    x == y
}

} // verus!
