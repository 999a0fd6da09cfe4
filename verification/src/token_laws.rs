//! Properties of session tokens and of the text encodings they are made of.
use crate::text::{ascii_bytes, ascii_chars, decimal, digit, signed_decimal};
use crate::utilities::jwt::{
    b64_symbol, b64url, claims_json, claims_middle, claims_open, header_json, hex_digit,
    hmac_sha256, hs256_signature, json_escape, json_escape_byte, signing_input_of, token_of,
};
use vstd::prelude::*;
use vstd::utf8::{decode_utf8, encode_utf8, encode_utf8_decode_utf8};

verus! {

proof fn symbol_is_not_a_dot(v: int)
    requires
        0 <= v,
    ensures
        b64_symbol(v) != 46u8,
{
}

/// No base64url text holds a dot.
pub proof fn b64url_has_no_dot(s: Seq<u8>)
    ensures
        forall|k: int| 0 <= k < b64url(s).len() ==> #[trigger] b64url(s)[k] != 46u8,
    decreases s.len(),
{
    if s.len() == 0 {
    } else if s.len() == 1 {
        let a = s[0] as int;
        symbol_is_not_a_dot(a / 4);
        symbol_is_not_a_dot((a % 4) * 16);
    } else if s.len() == 2 {
        let (a, b) = (s[0] as int, s[1] as int);
        symbol_is_not_a_dot(a / 4);
        symbol_is_not_a_dot((a % 4) * 16 + b / 16);
        symbol_is_not_a_dot((b % 16) * 4);
    } else {
        let (a, b, c) = (s[0] as int, s[1] as int, s[2] as int);
        symbol_is_not_a_dot(a / 4);
        symbol_is_not_a_dot((a % 4) * 16 + b / 16);
        symbol_is_not_a_dot((b % 16) * 4 + c / 64);
        symbol_is_not_a_dot(c % 64);
        b64url_has_no_dot(s.skip(3));
        let head = seq![
            b64_symbol(a / 4),
            b64_symbol((a % 4) * 16 + b / 16),
            b64_symbol((b % 16) * 4 + c / 64),
            b64_symbol(c % 64),
        ];
        assert(b64url(s) == head + b64url(s.skip(3)));
        assert forall|k: int| 0 <= k < b64url(s).len() implies #[trigger] b64url(s)[k] != 46u8 by {
            if k >= 4 {
                assert(b64url(s)[k] == b64url(s.skip(3))[k - 4]);
            }
        }
    }
}

/// A token is three segments joined by dots, none of which holds a dot: the
/// encoded header, the same for every token; the encoded claims; and the
/// encoded HMAC of the first two segments.
pub proof fn token_has_three_segments(secret: Seq<char>, username: Seq<char>, iat: int)
    ensures
        ({
            let claims = ascii_chars(b64url(claims_json(encode_utf8(username), iat)));
            let header = ascii_chars(b64url(header_json()));
            let input = signing_input_of(encode_utf8(username), iat);
            let signature = ascii_chars(b64url(hmac_sha256(encode_utf8(secret), input)));
            &&& token_of(secret, username, iat) == header + seq!['.'] + claims + seq!['.']
                + signature
            &&& forall|k: int| 0 <= k < header.len() ==> header[k] != '.'
            &&& forall|k: int| 0 <= k < claims.len() ==> claims[k] != '.'
            &&& forall|k: int| 0 <= k < signature.len() ==> signature[k] != '.'
        }),
{
    let h = b64url(header_json());
    let c = b64url(claims_json(encode_utf8(username), iat));
    let input = signing_input_of(encode_utf8(username), iat);
    let g = b64url(hmac_sha256(encode_utf8(secret), input));
    b64url_has_no_dot(header_json());
    b64url_has_no_dot(claims_json(encode_utf8(username), iat));
    b64url_has_no_dot(hmac_sha256(encode_utf8(secret), input));
    assert(ascii_chars(input).push('.') + hs256_signature(encode_utf8(secret), input) =~= ascii_chars(
        h,
    ) + seq!['.'] + ascii_chars(c) + seq!['.'] + ascii_chars(g));
    assert forall|k: int| 0 <= k < ascii_chars(h).len() implies ascii_chars(h)[k] != '.' by {
        assert(h[k] != 46u8);
    }
    assert forall|k: int| 0 <= k < ascii_chars(c).len() implies ascii_chars(c)[k] != '.' by {
        assert(c[k] != 46u8);
    }
    assert forall|k: int| 0 <= k < ascii_chars(g).len() implies ascii_chars(g)[k] != '.' by {
        assert(g[k] != 46u8);
    }
}

/// The number that a text of decimal digits denotes.
pub open spec fn decimal_value(s: Seq<char>) -> int
    decreases s.len(),
{
    if s.len() == 0 {
        0
    } else {
        decimal_value(s.drop_last()) * 10 + (s.last() as int - 48)
    }
}

/// The decimal text of a number denotes that number, and starts with a zero
/// only when the number is zero.
pub proof fn decimal_denotes_its_number(n: nat)
    ensures
        decimal_value(decimal(n)) == n,
        decimal(n).len() >= 1,
        decimal(n)[0] == '0' ==> n == 0,
        forall|k: int| 0 <= k < decimal(n).len() ==> '0' <= #[trigger] decimal(n)[k] <= '9',
    decreases n,
{
    if n >= 10 {
        decimal_denotes_its_number(n / 10);
        let d = digit(n % 10);
        assert(decimal(n) == decimal(n / 10).push(d));
        assert(decimal(n).drop_last() =~= decimal(n / 10));
        assert(d as int == n % 10 + 48);
        assert(decimal(n).last() == d);
        assert(decimal_value(decimal(n)) == decimal_value(decimal(n / 10)) * 10 + (d as int - 48));
        assert((n / 10) * 10 + n % 10 == n);
        assert(decimal(n)[0] == decimal(n / 10)[0]);
        assert forall|k: int| 0 <= k < decimal(n).len() implies '0' <= #[trigger] decimal(n)[k]
            <= '9' by {
            if k < decimal(n / 10).len() {
                assert(decimal(n)[k] == decimal(n / 10)[k]);
            }
        }
    } else {
        assert(decimal(n).drop_last() =~= Seq::<char>::empty());
        assert(digit(n) as int == n + 48);
        assert(decimal(n).last() == digit(n));
        assert(decimal_value(decimal(n).drop_last()) == 0);
        assert(decimal_value(decimal(n)) == decimal_value(decimal(n).drop_last()) * 10 + (digit(
            n,
        ) as int - 48));
    }
}


/// The number that ASCII decimal digits denote.
pub open spec fn digits_value(s: Seq<u8>) -> int
    decreases s.len(),
{
    if s.len() == 0 {
        0
    } else {
        digits_value(s.drop_last()) * 10 + (s.last() as int - 48)
    }
}

/// The number that ASCII decimal digits with an optional leading `-` denote.
pub open spec fn signed_digits_value(s: Seq<u8>) -> int {
    if s.len() > 0 && s[0] == 45u8 {
        -digits_value(s.drop_first())
    } else {
        digits_value(s)
    }
}

/// The ASCII decimal digits of a number denote it, and are all digits.
pub proof fn decimal_bytes_read_back(n: nat)
    ensures
        digits_value(ascii_bytes(decimal(n))) == n,
        ascii_bytes(decimal(n)).len() >= 1,
        forall|k: int|
            0 <= k < ascii_bytes(decimal(n)).len() ==> 48 <= #[trigger] ascii_bytes(decimal(n))[k]
                <= 57,
    decreases n,
{
    let d = digit(n % 10);
    assert(d as u8 == n % 10 + 48);
    if n >= 10 {
        decimal_bytes_read_back(n / 10);
        let front = ascii_bytes(decimal(n / 10));
        assert(ascii_bytes(decimal(n)) =~= front.push(d as u8));
        assert(ascii_bytes(decimal(n)).drop_last() =~= front);
        assert((n / 10) * 10 + n % 10 == n);
        assert forall|k: int| 0 <= k < ascii_bytes(decimal(n)).len() implies 48
            <= #[trigger] ascii_bytes(decimal(n))[k] <= 57 by {
            if k < front.len() {
                assert(ascii_bytes(decimal(n))[k] == front[k]);
            }
        }
    } else {
        assert(ascii_bytes(decimal(n)) =~= seq![d as u8]);
        assert(ascii_bytes(decimal(n)).drop_last() =~= Seq::<u8>::empty());
        assert(digits_value(Seq::<u8>::empty()) == 0);
    }
}

/// The ASCII text of a signed decimal number denotes that number.
pub proof fn signed_decimal_reads_back(i: int)
    ensures
        signed_digits_value(ascii_bytes(signed_decimal(i))) == i,
{
    if i < 0 {
        let m = (-i) as nat;
        decimal_bytes_read_back(m);
        let text = ascii_bytes(signed_decimal(i));
        assert(text =~= seq![45u8] + ascii_bytes(decimal(m)));
        assert(text.drop_first() =~= ascii_bytes(decimal(m)));
    } else {
        decimal_bytes_read_back(i as nat);
        assert(ascii_bytes(decimal(i as nat))[0] != 45u8);
    }
}

/// The claims of a user name determine the issue time they carry.
pub proof fn claims_tell_the_issue_time(username: Seq<u8>, i1: int, i2: int)
    requires
        claims_json(username, i1) == claims_json(username, i2),
    ensures
        i1 == i2,
{
    let front = claims_open() + json_escape(username) + claims_middle();
    let d1 = ascii_bytes(signed_decimal(i1));
    let d2 = ascii_bytes(signed_decimal(i2));
    let c1 = claims_json(username, i1);
    let c2 = claims_json(username, i2);
    assert(c1 =~= front + d1 + seq![125u8]);
    assert(c2 =~= front + d2 + seq![125u8]);
    assert(c1.subrange(front.len() as int, c1.len() - 1) =~= d1);
    assert(c2.subrange(front.len() as int, c2.len() - 1) =~= d2);
    signed_decimal_reads_back(i1);
    signed_decimal_reads_back(i2);
}

/// The six-bit value of a URL-safe base64 symbol.
pub open spec fn b64_value(c: u8) -> int {
    if 65 <= c <= 90 {
        c - 65
    } else if 97 <= c <= 122 {
        c - 71
    } else if 48 <= c <= 57 {
        c + 4
    } else if c == 45 {
        62
    } else {
        63
    }
}

/// The bytes that unpadded URL-safe base64 text encodes: each group of four
/// symbols gives three bytes, a final group of two or three symbols one or two.
pub open spec fn b64url_decode(t: Seq<u8>) -> Seq<u8>
    decreases t.len(),
{
    if t.len() < 2 {
        seq![]
    } else {
        let v1 = b64_value(t[0]);
        let v2 = b64_value(t[1]);
        if t.len() == 2 {
            seq![(v1 * 4 + v2 / 16) as u8]
        } else {
            let v3 = b64_value(t[2]);
            if t.len() == 3 {
                seq![(v1 * 4 + v2 / 16) as u8, ((v2 % 16) * 16 + v3 / 4) as u8]
            } else {
                let v4 = b64_value(t[3]);
                seq![
                    (v1 * 4 + v2 / 16) as u8,
                    ((v2 % 16) * 16 + v3 / 4) as u8,
                    ((v3 % 4) * 64 + v4) as u8,
                ] + b64url_decode(t.skip(4))
            }
        }
    }
}

proof fn symbol_value(v: int)
    requires
        0 <= v < 64,
    ensures
        b64_value(b64_symbol(v)) == v,
{
}

proof fn group_reads_back(a: int, b: int, c: int)
    requires
        0 <= a < 256,
        0 <= b < 256,
        0 <= c < 256,
    ensures
        0 <= (a % 4) * 16 + b / 16 < 64,
        0 <= (b % 16) * 4 + c / 64 < 64,
        (a / 4) * 4 + ((a % 4) * 16 + b / 16) / 16 == a,
        (((a % 4) * 16 + b / 16) % 16) * 16 + ((b % 16) * 4 + c / 64) / 4 == b,
        (((b % 16) * 4 + c / 64) % 4) * 64 + c % 64 == c,
        (a / 4) * 4 + ((a % 4) * 16) / 16 == a,
        (((a % 4) * 16 + b / 16) % 16) * 16 + ((b % 16) * 4) / 4 == b,
{
    let (a1, a0) = (a / 4, a % 4);
    let (b1, b0) = (b / 16, b % 16);
    let (c1, c0) = (c / 64, c % 64);
    assert(a == a1 * 4 + a0 && 0 <= a0 < 4);
    assert(b == b1 * 16 + b0 && 0 <= b1 < 16 && 0 <= b0 < 16);
    assert(c == c1 * 64 + c0 && 0 <= c1 < 4);
    assert((a0 * 16 + b1) / 16 == a0 && (a0 * 16 + b1) % 16 == b1);
    assert((b0 * 4 + c1) / 4 == b0 && (b0 * 4 + c1) % 4 == c1);
    assert((a0 * 16) / 16 == a0 && (b0 * 4) / 4 == b0);
}

/// Decoding base64url text gives back the bytes it encodes; so two byte
/// strings with the same encoding are equal.
pub proof fn b64url_reads_back(s: Seq<u8>)
    ensures
        b64url_decode(b64url(s)) == s,
    decreases s.len(),
{
    if s.len() == 0 {
    } else if s.len() == 1 {
        let a = s[0] as int;
        group_reads_back(a, 0, 0);
        symbol_value(a / 4);
        symbol_value((a % 4) * 16);
        assert(b64url_decode(b64url(s)) =~= s);
    } else if s.len() == 2 {
        let (a, b) = (s[0] as int, s[1] as int);
        group_reads_back(a, b, 0);
        symbol_value(a / 4);
        symbol_value((a % 4) * 16 + b / 16);
        symbol_value((b % 16) * 4);
        assert(b64url_decode(b64url(s)) =~= s);
    } else {
        let (a, b, c) = (s[0] as int, s[1] as int, s[2] as int);
        group_reads_back(a, b, c);
        symbol_value(a / 4);
        symbol_value((a % 4) * 16 + b / 16);
        symbol_value((b % 16) * 4 + c / 64);
        symbol_value(c % 64);
        b64url_reads_back(s.skip(3));
        let e = b64url(s);
        assert(e.skip(4) =~= b64url(s.skip(3)));
        assert(s =~= seq![s[0], s[1], s[2]] + s.skip(3));
        assert(b64url_decode(e) =~= seq![s[0], s[1], s[2]] + s.skip(3));
    }
}

proof fn ascii_chars_injective(a: Seq<u8>, b: Seq<u8>)
    requires
        ascii_chars(a) == ascii_chars(b),
    ensures
        a == b,
{
    assert(a.len() == ascii_chars(a).len());
    assert(b.len() == ascii_chars(b).len());
    assert forall|k: int| 0 <= k < a.len() implies a[k] == b[k] by {
        assert(ascii_chars(a)[k] == ascii_chars(b)[k]);
        assert(ascii_chars(a)[k] == a[k] as char);
        assert(ascii_chars(b)[k] == b[k] as char);
        assert((a[k] as char) as int == a[k] as int);
        assert((b[k] as char) as int == b[k] as int);
    }
    assert(a =~= b);
}

/// A token reads back: its first segment decodes to the header
/// `{"typ":"JWT","alg":"HS256"}`, its second to the claims
/// `{"username":...,"iat":...}` of the user name and issue time it was made
/// with, and its third to the HMAC-SHA256, under the secret, of the first two.
pub proof fn token_reads_back(secret: Seq<char>, username: Seq<char>, iat: int)
    ensures
        ({
            let h = b64url(header_json());
            let c = b64url(claims_json(encode_utf8(username), iat));
            let input = signing_input_of(encode_utf8(username), iat);
            let g = b64url(hmac_sha256(encode_utf8(secret), input));
            &&& token_of(secret, username, iat) == ascii_chars(h) + seq!['.'] + ascii_chars(c)
                + seq!['.'] + ascii_chars(g)
            &&& b64url_decode(h) == header_json()
            &&& b64url_decode(c) == claims_json(encode_utf8(username), iat)
            &&& b64url_decode(g) == hmac_sha256(encode_utf8(secret), input)
        }),
{
    token_has_three_segments(secret, username, iat);
    b64url_reads_back(header_json());
    b64url_reads_back(claims_json(encode_utf8(username), iat));
    let input = signing_input_of(encode_utf8(username), iat);
    b64url_reads_back(hmac_sha256(encode_utf8(secret), input));
}

/// The signed part of a token does not depend on the secret: two secrets give
/// tokens that agree up to the signature, which each computes under its own key.
pub proof fn signed_part_is_independent_of_the_secret(
    s1: Seq<char>,
    s2: Seq<char>,
    username: Seq<char>,
    iat: int,
)
    ensures
        ({
            let input = signing_input_of(encode_utf8(username), iat);
            &&& token_of(s1, username, iat) == ascii_chars(input).push('.') + hs256_signature(
                encode_utf8(s1),
                input,
            )
            &&& token_of(s2, username, iat) == ascii_chars(input).push('.') + hs256_signature(
                encode_utf8(s2),
                input,
            )
        }),
{
}

/// Tokens issued at different seconds differ, whatever the secret and the
/// user: the issue time is read back from the second segment.
pub proof fn issue_times_are_told_apart(secret: Seq<char>, username: Seq<char>, i1: int, i2: int)
    requires
        i1 != i2,
    ensures
        token_of(secret, username, i1) != token_of(secret, username, i2),
{
    let u = encode_utf8(username);
    let h = ascii_chars(b64url(header_json()));
    let c1 = b64url(claims_json(u, i1));
    let c2 = b64url(claims_json(u, i2));
    let input1 = signing_input_of(u, i1);
    let input2 = signing_input_of(u, i2);
    let g1 = ascii_chars(b64url(hmac_sha256(encode_utf8(secret), input1)));
    let g2 = ascii_chars(b64url(hmac_sha256(encode_utf8(secret), input2)));
    token_has_three_segments(secret, username, i1);
    token_has_three_segments(secret, username, i2);
    b64url_has_no_dot(claims_json(u, i1));
    b64url_has_no_dot(claims_json(u, i2));
    let t1 = token_of(secret, username, i1);
    let t2 = token_of(secret, username, i2);
    let p = h + seq!['.'];
    let x1 = ascii_chars(c1) + seq!['.'] + g1;
    let x2 = ascii_chars(c2) + seq!['.'] + g2;
    assert(t1 =~= p + x1);
    assert(t2 =~= p + x2);
    if t1 == t2 {
        assert(t1.skip(p.len() as int) =~= x1);
        assert(t2.skip(p.len() as int) =~= x2);
        assert(x1 == x2);
        let l1 = c1.len() as int;
        let l2 = c2.len() as int;
        if l1 < l2 {
            assert(x1[l1] == '.');
            assert(x2[l1] == ascii_chars(c2)[l1]);
            assert(c2[l1] != 46u8);
            assert(false);
        } else if l2 < l1 {
            assert(x2[l2] == '.');
            assert(x1[l2] == ascii_chars(c1)[l2]);
            assert(c1[l2] != 46u8);
            assert(false);
        } else {
            assert(ascii_chars(c1) =~= x1.take(l1));
            assert(ascii_chars(c2) =~= x2.take(l1));
            ascii_chars_injective(c1, c2);
            b64url_reads_back(claims_json(u, i1));
            b64url_reads_back(claims_json(u, i2));
            claims_tell_the_issue_time(u, i1, i2);
        }
    }
}

// ---------------------------------------------------------------------------
// Reading the user name back from the claims
// ---------------------------------------------------------------------------

/// The value of a hexadecimal digit.
pub open spec fn hex_value(h: u8) -> int {
    if 48 <= h <= 57 {
        h - 48
    } else if 65 <= h <= 70 {
        h - 55
    } else {
        h - 87
    }
}

/// The byte that the two-character escape `\e` stands for in a JSON string.
pub open spec fn unescaped(e: u8) -> u8 {
    if e == 98 {
        8
    } else if e == 102 {
        12
    } else if e == 110 {
        10
    } else if e == 114 {
        13
    } else if e == 116 {
        9
    } else {
        e
    }
}

/// Reads a JSON string whose opening quote came just before `t`: the bytes
/// that its contents stand for, up to the first quote that no backslash
/// escapes, and what follows that closing quote. A `\uXXXX` escape is read as
/// the byte of its code point (the form in which JSON writes the control
/// characters); `\"`, `\\`, `\/`, `\b`, `\f`, `\n`, `\r` and `\t` stand for
/// their characters, and every other byte for itself.
pub open spec fn json_string_read(t: Seq<u8>) -> (Seq<u8>, Seq<u8>)
    decreases t.len(),
{
    if t.len() == 0 {
        (seq![], seq![])
    } else if t[0] == 34 {
        (seq![], t.drop_first())
    } else if t[0] == 92 && t.len() >= 6 && t[1] == 117 {
        let v = hex_value(t[2]) * 4096 + hex_value(t[3]) * 256 + hex_value(t[4]) * 16
            + hex_value(t[5]);
        let r = json_string_read(t.skip(6));
        (seq![v as u8] + r.0, r.1)
    } else if t[0] == 92 && t.len() >= 2 {
        let r = json_string_read(t.skip(2));
        (seq![unescaped(t[1])] + r.0, r.1)
    } else {
        let r = json_string_read(t.drop_first());
        (seq![t[0]] + r.0, r.1)
    }
}

proof fn json_escape_concat(a: Seq<u8>, b: Seq<u8>)
    ensures
        json_escape(a + b) == json_escape(a) + json_escape(b),
    decreases b.len(),
{
    if b.len() == 0 {
        assert(a + b =~= a);
        assert(json_escape(a) + json_escape(b) =~= json_escape(a));
    } else {
        assert((a + b).drop_last() =~= a + b.drop_last());
        assert((a + b).last() == b.last());
        json_escape_concat(a, b.drop_last());
        assert(json_escape(a + b) =~= json_escape(a) + json_escape(b));
    }
}

proof fn json_escape_front(u: Seq<u8>)
    requires
        u.len() > 0,
    ensures
        json_escape(u) == json_escape_byte(u[0]) + json_escape(u.drop_first()),
{
    let one = seq![u[0]];
    assert(u =~= one + u.drop_first());
    json_escape_concat(one, u.drop_first());
    assert(one.drop_last() =~= Seq::<u8>::empty());
    assert(one.last() == u[0]);
    assert(json_escape(one.drop_last()) =~= Seq::<u8>::empty());
    assert(json_escape(one) == json_escape(one.drop_last()) + json_escape_byte(one.last()));
    assert(json_escape(one) =~= json_escape_byte(u[0]));
}

proof fn hex_reads_back(v: int)
    requires
        0 <= v < 16,
    ensures
        hex_value(hex_digit(v)) == v,
{
}

/// A printable ASCII byte other than the quote and the backslash is written
/// into a JSON string as itself.
pub proof fn printable_bytes_are_written_as_themselves(b: u8)
    requires
        32 <= b < 127,
        b != 34,
        b != 92,
    ensures
        json_escape_byte(b) == seq![b],
{
}

/// An escaped string reads back: a JSON string made of the escape of `u` and
/// a closing quote stands for `u`, and reading it leaves what follows.
pub proof fn json_escape_reads_back(u: Seq<u8>, rest: Seq<u8>)
    ensures
        json_string_read(json_escape(u) + seq![34u8] + rest) == (u, rest),
    decreases u.len(),
{
    let t = json_escape(u) + seq![34u8] + rest;
    if u.len() == 0 {
        assert(json_escape(u) =~= Seq::<u8>::empty());
        assert(t =~= seq![34u8] + rest);
        assert(t.drop_first() =~= rest);
    } else {
        let c = u[0];
        let tail = u.drop_first();
        json_escape_front(u);
        json_escape_reads_back(tail, rest);
        let t2 = json_escape(tail) + seq![34u8] + rest;
        let e = json_escape_byte(c);
        assert(t =~= e + t2);
        assert(u =~= seq![c] + tail);
        if c == 34 || c == 92 || c == 8 || c == 12 || c == 10 || c == 13 || c == 9 {
            assert(t.skip(2) =~= t2);
        } else if c < 32 {
            hex_reads_back(c as int / 16);
            hex_reads_back(c as int % 16);
            assert(t.skip(6) =~= t2);
            assert(t[2] == 48u8 && t[3] == 48u8);
            assert(t[4] == hex_digit(c as int / 16) && t[5] == hex_digit(c as int % 16));
            assert((c as int / 16) * 16 + c as int % 16 == c);
        } else {
            assert(t.drop_first() =~= t2);
        }
    }
}

/// The claims name the user they were made for: they open with
/// `{"username":"`, and the JSON string that follows reads back to the user
/// name, whatever bytes it holds.
pub proof fn claims_name_the_user(username: Seq<u8>, iat: int)
    ensures
        claims_json(username, iat).take(13) == seq![
            123u8, 34u8, 117u8, 115u8, 101u8, 114u8, 110u8, 97u8, 109u8, 101u8, 34u8, 58u8, 34u8,
        ],
        json_string_read(claims_json(username, iat).skip(13)).0 == username,
{
    let c = claims_json(username, iat);
    let after = seq![44u8, 34u8, 105u8, 97u8, 116u8, 34u8, 58u8] + ascii_bytes(signed_decimal(iat))
        + seq![125u8];
    assert(c.take(13) =~= claims_open());
    assert(c.skip(13) =~= json_escape(username) + seq![34u8] + after);
    json_escape_reads_back(username, after);
}

/// Claims that are equal name the same user.
pub proof fn claims_tell_the_user(u1: Seq<u8>, i1: int, u2: Seq<u8>, i2: int)
    requires
        claims_json(u1, i1) == claims_json(u2, i2),
    ensures
        u1 == u2,
{
    claims_name_the_user(u1, i1);
    claims_name_the_user(u2, i2);
}

proof fn equal_tokens_have_equal_claims(
    secret: Seq<char>,
    n1: Seq<char>,
    i1: int,
    n2: Seq<char>,
    i2: int,
)
    requires
        token_of(secret, n1, i1) == token_of(secret, n2, i2),
    ensures
        claims_json(encode_utf8(n1), i1) == claims_json(encode_utf8(n2), i2),
{
    let u1 = encode_utf8(n1);
    let u2 = encode_utf8(n2);
    let h = ascii_chars(b64url(header_json()));
    let c1 = b64url(claims_json(u1, i1));
    let c2 = b64url(claims_json(u2, i2));
    let g1 = ascii_chars(b64url(hmac_sha256(encode_utf8(secret), signing_input_of(u1, i1))));
    let g2 = ascii_chars(b64url(hmac_sha256(encode_utf8(secret), signing_input_of(u2, i2))));
    token_has_three_segments(secret, n1, i1);
    token_has_three_segments(secret, n2, i2);
    b64url_has_no_dot(claims_json(u1, i1));
    b64url_has_no_dot(claims_json(u2, i2));
    let t1 = token_of(secret, n1, i1);
    let t2 = token_of(secret, n2, i2);
    let p = h + seq!['.'];
    let x1 = ascii_chars(c1) + seq!['.'] + g1;
    let x2 = ascii_chars(c2) + seq!['.'] + g2;
    assert(t1 =~= p + x1);
    assert(t2 =~= p + x2);
    assert(t1.skip(p.len() as int) =~= x1);
    assert(t2.skip(p.len() as int) =~= x2);
    assert(x1 == x2);
    let l1 = c1.len() as int;
    let l2 = c2.len() as int;
    if l1 < l2 {
        assert(x1[l1] == '.');
        assert(x2[l1] == ascii_chars(c2)[l1]);
        assert(c2[l1] != 46u8);
        assert(false);
    } else if l2 < l1 {
        assert(x2[l2] == '.');
        assert(x1[l2] == ascii_chars(c1)[l2]);
        assert(c1[l2] != 46u8);
        assert(false);
    } else {
        assert(ascii_chars(c1) =~= x1.take(l1));
        assert(ascii_chars(c2) =~= x2.take(l1));
        ascii_chars_injective(c1, c2);
        b64url_reads_back(claims_json(u1, i1));
        b64url_reads_back(claims_json(u2, i2));
    }
}

/// A token names its user: its claims segment decodes to claims whose user
/// name, read as a JSON string and decoded from UTF-8, is the name the token
/// was made for.
pub proof fn token_names_its_user(secret: Seq<char>, username: Seq<char>, iat: int)
    ensures
        ({
            let claims = b64url_decode(b64url(claims_json(encode_utf8(username), iat)));
            decode_utf8(json_string_read(claims.skip(13)).0) == username
        }),
{
    b64url_reads_back(claims_json(encode_utf8(username), iat));
    claims_name_the_user(encode_utf8(username), iat);
    encode_utf8_decode_utf8(username);
}

/// Tokens made for different users differ, whatever the secret and the issue
/// times.
pub proof fn users_are_told_apart(
    secret: Seq<char>,
    n1: Seq<char>,
    i1: int,
    n2: Seq<char>,
    i2: int,
)
    requires
        n1 != n2,
    ensures
        token_of(secret, n1, i1) != token_of(secret, n2, i2),
{
    if token_of(secret, n1, i1) == token_of(secret, n2, i2) {
        equal_tokens_have_equal_claims(secret, n1, i1, n2, i2);
        claims_tell_the_user(encode_utf8(n1), i1, encode_utf8(n2), i2);
        encode_utf8_decode_utf8(n1);
        encode_utf8_decode_utf8(n2);
    }
}

} // verus!
