//! Text helpers shared by the token encoder and the handlers: decimal
//! rendering of integers and ASCII conversions between bytes and characters.
use vstd::prelude::*;

verus! {

/// The character of the decimal digit `d` (`d < 10`).
pub open spec fn digit(d: nat) -> char {
    (d + 48) as char
}

/// The decimal representation of `n`, most significant digit first.
pub open spec fn decimal(n: nat) -> Seq<char>
    decreases n,
{
    if n < 10 {
        seq![digit(n)]
    } else {
        decimal(n / 10).push(digit(n % 10))
    }
}

/// The decimal representation of `i`, with a leading `-` when negative.
pub open spec fn signed_decimal(i: int) -> Seq<char> {
    if i < 0 {
        seq!['-'] + decimal((-i) as nat)
    } else {
        decimal(i as nat)
    }
}

/// The bytes of ASCII characters.
pub open spec fn ascii_bytes(s: Seq<char>) -> Seq<u8> {
    s.map_values(|c: char| c as u8)
}

/// The characters of ASCII bytes.
pub open spec fn ascii_chars(s: Seq<u8>) -> Seq<char> {
    s.map_values(|b: u8| b as char)
}

/// Appends one character to a string.
#[verifier::external_body]
pub fn push_char(s: &mut String, c: char)
    ensures
        final(s)@ == old(s)@.push(c),
{
    s.push(c);
}

/// The character of the decimal digit `d`.
pub fn digit_char(d: u64) -> (c: char)
    requires
        d < 10,
    ensures
        c == digit(d as nat),
        c as u8 == d + 48,
{
    ((d as u8) + 48u8) as char
}

/// Appends the decimal representation of `n` to `s`.
pub fn push_decimal(s: &mut String, n: u64)
    ensures
        final(s)@ == old(s)@ + decimal(n as nat),
    decreases n,
{
    if n >= 10 {
        push_decimal(s, n / 10);
    }
    push_char(s, digit_char(n % 10));
}

/// Appends the decimal representation of `i` (with a leading `-` when
/// negative) to `s`.
pub fn push_signed_decimal(s: &mut String, i: i64)
    ensures
        final(s)@ == old(s)@ + signed_decimal(i as int),
{
    if i < 0 {
        push_char(s, '-');
        let magnitude: u64 = (0i128 - (i as i128)) as u64;
        push_decimal(s, magnitude);
    } else {
        push_decimal(s, i as u64);
    }
}

/// Appends the ASCII bytes of the decimal representation of `n` to `v`.
pub fn push_decimal_bytes(v: &mut Vec<u8>, n: u64)
    ensures
        final(v)@ == old(v)@ + ascii_bytes(decimal(n as nat)),
    decreases n,
{
    if n >= 10 {
        push_decimal_bytes(v, n / 10);
        proof {
            let d = decimal((n / 10) as nat);
            assert(ascii_bytes(d.push(digit((n % 10) as nat))) =~= ascii_bytes(d).push(
                digit((n % 10) as nat) as u8,
            ));
        }
    }
    let c = digit_char(n % 10);
    v.push(c as u8);
}

/// Appends the ASCII bytes of the decimal representation of `i` (with a
/// leading `-` when negative) to `v`.
pub fn push_signed_decimal_bytes(v: &mut Vec<u8>, i: i64)
    ensures
        final(v)@ == old(v)@ + ascii_bytes(signed_decimal(i as int)),
{
    if i < 0 {
        v.push(45u8);
        let magnitude: u64 = (0i128 - (i as i128)) as u64;
        push_decimal_bytes(v, magnitude);
        proof {
            assert(ascii_bytes(seq!['-'] + decimal(magnitude as nat)) =~= seq![45u8]
                + ascii_bytes(decimal(magnitude as nat)));
        }
    } else {
        push_decimal_bytes(v, i as u64);
    }
}

/// Appends the characters of the ASCII bytes `bytes` to `s`.
pub fn push_ascii(s: &mut String, bytes: &[u8])
    ensures
        final(s)@ == old(s)@ + ascii_chars(bytes@),
{
    let n = bytes.len();
    let mut i: usize = 0;
    while i < n
        invariant
            n == bytes@.len(),
            i <= n,
            s@ == old(s)@ + ascii_chars(bytes@.take(i as int)),
        decreases n - i,
    {
        proof {
            assert(ascii_chars(bytes@.take(i + 1)) =~= ascii_chars(bytes@.take(i as int)).push(
                bytes@[i as int] as char,
            ));
        }
        push_char(s, bytes[i] as char);
        i = i + 1;
    }
    proof {
        assert(bytes@.take(n as int) =~= bytes@);
    }
}

} // verus!
