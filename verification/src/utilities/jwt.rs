//! Session tokens: HS256 JSON web tokens whose claims name the user and the
//! second at which the token was issued.
//!
//! A token is `B64(header) "." B64(claims) "." signature`, where `B64` is the
//! URL-safe base64 alphabet without padding, the header is the JSON object
//! `{"typ":"JWT","alg":"HS256"}`, the claims are the JSON object
//! `{"username":<string>,"iat":<integer>}`, and the signature is the
//! base64url HMAC-SHA256 of the first two segments, keyed by the secret.
//! The framing and the encodings are this library's; the HMAC is computed by
//! `jsonwebtoken`. The issue time is the server's clock reading, which the
//! server hands in.
use crate::text::{
    ascii_bytes, ascii_chars, push_ascii, push_char, push_signed_decimal_bytes, signed_decimal,
};
use vstd::prelude::*;
use vstd::string::StringExecFns;
use vstd::utf8::encode_utf8;

verus! {

/// The claims carried by a session token.
#[derive(Debug, PartialEq, Eq)]
pub struct UserClaim {
    pub username: String,
    pub iat: i64,
}

// ---------------------------------------------------------------------------
// Base64, URL-safe alphabet, no padding
// ---------------------------------------------------------------------------

/// The symbol of the six-bit value `v` in the URL-safe base64 alphabet.
pub open spec fn b64_symbol(v: int) -> u8 {
    if v < 26 {
        (65 + v) as u8
    } else if v < 52 {
        (97 + v - 26) as u8
    } else if v < 62 {
        (48 + v - 52) as u8
    } else if v == 62 {
        45u8
    } else {
        95u8
    }
}

/// URL-safe base64 of `s`, without padding: each group of three bytes becomes
/// four symbols; a final group of one or two bytes becomes two or three.
pub open spec fn b64url(s: Seq<u8>) -> Seq<u8>
    decreases s.len(),
{
    if s.len() == 0 {
        seq![]
    } else if s.len() == 1 {
        let a = s[0] as int;
        seq![b64_symbol(a / 4), b64_symbol((a % 4) * 16)]
    } else if s.len() == 2 {
        let (a, b) = (s[0] as int, s[1] as int);
        seq![b64_symbol(a / 4), b64_symbol((a % 4) * 16 + b / 16), b64_symbol((b % 16) * 4)]
    } else {
        let (a, b, c) = (s[0] as int, s[1] as int, s[2] as int);
        seq![
            b64_symbol(a / 4),
            b64_symbol((a % 4) * 16 + b / 16),
            b64_symbol((b % 16) * 4 + c / 64),
            b64_symbol(c % 64),
        ] + b64url(s.skip(3))
    }
}

fn b64_symbol_of(v: u8) -> (b: u8)
    requires
        v < 64,
    ensures
        b == b64_symbol(v as int),
{
    if v < 26 {
        65 + v
    } else if v < 52 {
        97 + (v - 26)
    } else if v < 62 {
        48 + (v - 52)
    } else if v == 62 {
        45
    } else {
        95
    }
}

/// Appends the URL-safe unpadded base64 of `data` to `out`.
pub fn push_b64url(out: &mut Vec<u8>, data: &[u8])
    ensures
        final(out)@ == old(out)@ + b64url(data@),
{
    let n = data.len();
    let mut i: usize = 0;
    proof {
        assert(data@.skip(0) =~= data@);
    }
    while 3 <= n - i
        invariant
            n == data@.len(),
            i <= n,
            out@ + b64url(data@.skip(i as int)) == old(out)@ + b64url(data@),
        decreases n - i,
    {
        let a = data[i];
        let b = data[i + 1];
        let c = data[i + 2];
        let ghost rest = data@.skip(i as int);
        let ghost before = out@;
        out.push(b64_symbol_of(a / 4));
        out.push(b64_symbol_of((a % 4) * 16 + b / 16));
        out.push(b64_symbol_of((b % 16) * 4 + c / 64));
        out.push(b64_symbol_of(c % 64));
        proof {
            assert(rest[0] == a && rest[1] == b && rest[2] == c);
            assert(rest.skip(3) =~= data@.skip(i + 3));
            assert(out@ =~= before + b64url(rest).take(4));
            assert(b64url(rest) =~= b64url(rest).take(4) + b64url(data@.skip(i + 3)));
        }
        i = i + 3;
    }
    let ghost rest = data@.skip(i as int);
    let ghost before = out@;
    if n - i == 1 {
        let a = data[i];
        out.push(b64_symbol_of(a / 4));
        out.push(b64_symbol_of((a % 4) * 16));
        proof {
            assert(rest[0] == a);
            assert(out@ =~= before + b64url(rest));
        }
    } else if n - i == 2 {
        let a = data[i];
        let b = data[i + 1];
        out.push(b64_symbol_of(a / 4));
        out.push(b64_symbol_of((a % 4) * 16 + b / 16));
        out.push(b64_symbol_of((b % 16) * 4));
        proof {
            assert(rest[0] == a && rest[1] == b);
            assert(out@ =~= before + b64url(rest));
        }
    } else {
        proof {
            assert(rest.len() == 0);
            assert(out@ =~= before + b64url(rest));
        }
    }
}

// ---------------------------------------------------------------------------
// JSON framing
// ---------------------------------------------------------------------------

/// The lower-case hexadecimal digit of `v` (`v < 16`).
pub open spec fn hex_digit(v: int) -> u8 {
    if v < 10 {
        (48 + v) as u8
    } else {
        (87 + v) as u8
    }
}

/// How one byte of a string's UTF-8 encoding is written inside a JSON string:
/// the quote and the backslash are escaped with a backslash, the control
/// characters that JSON names are written by their names, the other bytes
/// below 0x20 as `\u00XX`, and every other byte as itself.
pub open spec fn json_escape_byte(b: u8) -> Seq<u8> {
    if b == 34 {
        seq![92u8, 34u8]
    } else if b == 92 {
        seq![92u8, 92u8]
    } else if b == 8 {
        seq![92u8, 98u8]
    } else if b == 12 {
        seq![92u8, 102u8]
    } else if b == 10 {
        seq![92u8, 110u8]
    } else if b == 13 {
        seq![92u8, 114u8]
    } else if b == 9 {
        seq![92u8, 116u8]
    } else if b < 32 {
        seq![92u8, 117u8, 48u8, 48u8, hex_digit(b as int / 16), hex_digit(b as int % 16)]
    } else {
        seq![b]
    }
}

/// The escaped contents of a JSON string whose UTF-8 encoding is `s`.
pub open spec fn json_escape(s: Seq<u8>) -> Seq<u8>
    decreases s.len(),
{
    if s.len() == 0 {
        seq![]
    } else {
        json_escape(s.drop_last()) + json_escape_byte(s.last())
    }
}

/// `{"typ":"JWT","alg":"HS256"}`
pub open spec fn header_json() -> Seq<u8> {
    seq![
        123u8, 34u8, 116u8, 121u8, 112u8, 34u8, 58u8, 34u8, 74u8, 87u8, 84u8, 34u8, 44u8, 34u8,
        97u8, 108u8, 103u8, 34u8, 58u8, 34u8, 72u8, 83u8, 50u8, 53u8, 54u8, 34u8, 125u8,
    ]
}

/// `{"username":"`
pub open spec fn claims_open() -> Seq<u8> {
    seq![123u8, 34u8, 117u8, 115u8, 101u8, 114u8, 110u8, 97u8, 109u8, 101u8, 34u8, 58u8, 34u8]
}

/// `","iat":`
pub open spec fn claims_middle() -> Seq<u8> {
    seq![34u8, 44u8, 34u8, 105u8, 97u8, 116u8, 34u8, 58u8]
}

/// The compact JSON object `{"username":<username>,"iat":<iat>}`, with the
/// user name given by its UTF-8 encoding.
pub open spec fn claims_json(username: Seq<u8>, iat: int) -> Seq<u8> {
    claims_open() + json_escape(username) + claims_middle() + ascii_bytes(signed_decimal(iat))
        + seq![125u8]
}

/// The signed part of a token: `B64(header) "." B64(claims)`.
pub open spec fn signing_input_of(username: Seq<u8>, iat: int) -> Seq<u8> {
    b64url(header_json()) + seq![46u8] + b64url(claims_json(username, iat))
}

/// A token made of its signed part and its signature.
pub open spec fn joined_token(input: Seq<u8>, signature: Seq<char>) -> Seq<char> {
    ascii_chars(input).push('.') + signature
}

/// HMAC-SHA256 of `message` keyed by `key`, as `jsonwebtoken` computes it.
pub uninterp spec fn hmac_sha256(key: Seq<u8>, message: Seq<u8>) -> Seq<u8>;

/// The signature segment of a token: the base64url of the HMAC of its signed part.
pub open spec fn hs256_signature(secret: Seq<u8>, message: Seq<u8>) -> Seq<char> {
    ascii_chars(b64url(hmac_sha256(secret, message)))
}

/// The token that names `username`, issued at second `iat`, signed with `secret`.
pub open spec fn token_of(secret: Seq<char>, username: Seq<char>, iat: int) -> Seq<char> {
    let input = signing_input_of(encode_utf8(username), iat);
    joined_token(input, hs256_signature(encode_utf8(secret), input))
}

fn push_escaped_byte(out: &mut Vec<u8>, b: u8)
    ensures
        final(out)@ == old(out)@ + json_escape_byte(b),
{
    let ghost before = out@;
    if b == 34 {
        out.push(92);
        out.push(34);
    } else if b == 92 {
        out.push(92);
        out.push(92);
    } else if b == 8 {
        out.push(92);
        out.push(98);
    } else if b == 12 {
        out.push(92);
        out.push(102);
    } else if b == 10 {
        out.push(92);
        out.push(110);
    } else if b == 13 {
        out.push(92);
        out.push(114);
    } else if b == 9 {
        out.push(92);
        out.push(116);
    } else if b < 32 {
        let hi = b / 16;
        let lo = b % 16;
        out.push(92);
        out.push(117);
        out.push(48);
        out.push(48);
        out.push(if hi < 10 { 48 + hi } else { 87 + hi });
        out.push(if lo < 10 { 48 + lo } else { 87 + lo });
    } else {
        out.push(b);
    }
    assert(out@ =~= before + json_escape_byte(b));
}

/// Appends the JSON string literal of the text whose UTF-8 encoding is
/// `bytes`: a quote, the escaped bytes, a quote.
pub fn push_json_string(out: &mut Vec<u8>, bytes: &[u8])
    ensures
        final(out)@ == old(out)@ + seq![34u8] + json_escape(bytes@) + seq![34u8],
{
    out.push(34);
    let ghost start = out@;
    let n = bytes.len();
    let mut i: usize = 0;
    while i < n
        invariant
            n == bytes@.len(),
            i <= n,
            out@ == start + json_escape(bytes@.take(i as int)),
        decreases n - i,
    {
        proof {
            assert(bytes@.take(i + 1).drop_last() =~= bytes@.take(i as int));
        }
        push_escaped_byte(out, bytes[i]);
        i = i + 1;
    }
    proof {
        assert(bytes@.take(n as int) =~= bytes@);
    }
    out.push(34);
}

fn push_all(out: &mut Vec<u8>, bytes: &[u8])
    ensures
        final(out)@ == old(out)@ + bytes@,
{
    let n = bytes.len();
    let mut i: usize = 0;
    while i < n
        invariant
            n == bytes@.len(),
            i <= n,
            out@ == old(out)@ + bytes@.take(i as int),
        decreases n - i,
    {
        proof {
            assert(bytes@.take(i + 1) =~= bytes@.take(i as int).push(bytes@[i as int]));
        }
        out.push(bytes[i]);
        i = i + 1;
    }
    proof {
        assert(bytes@.take(n as int) =~= bytes@);
    }
}

/// The JSON text of the token header, `{"typ":"JWT","alg":"HS256"}`.
pub fn encode_header() -> (json: Vec<u8>)
    ensures
        json@ == header_json(),
{
    let json: Vec<u8> = vec![
        123u8, 34u8, 116u8, 121u8, 112u8, 34u8, 58u8, 34u8, 74u8, 87u8, 84u8, 34u8, 44u8, 34u8,
        97u8, 108u8, 103u8, 34u8, 58u8, 34u8, 72u8, 83u8, 50u8, 53u8, 54u8, 34u8, 125u8,
    ];
    assert(json@ =~= header_json());
    json
}

/// The JSON text of the claims, `{"username":...,"iat":...}`, as a JSON
/// serializer writes a struct with these two fields in this order.
pub fn encode_claims(claim: &UserClaim) -> (json: Vec<u8>)
    ensures
        json@ == claims_json(encode_utf8(claim.username@), claim.iat as int),
{
    let mut json: Vec<u8> = vec![123u8, 34u8, 117u8, 115u8, 101u8, 114u8, 110u8, 97u8, 109u8, 101u8, 34u8, 58u8];
    assert(json@.push(34u8) =~= claims_open());
    push_json_string(&mut json, claim.username.as_str().as_bytes());
    let middle: Vec<u8> = vec![44u8, 34u8, 105u8, 97u8, 116u8, 34u8, 58u8];
    push_all(&mut json, middle.as_slice());
    push_signed_decimal_bytes(&mut json, claim.iat);
    json.push(125u8);
    assert(json@ =~= claims_json(encode_utf8(claim.username@), claim.iat as int));
    json
}

/// The signed part of the token for `claim`: `B64(header) "." B64(claims)`.
pub fn signing_input(claim: &UserClaim) -> (input: Vec<u8>)
    ensures
        input@ == signing_input_of(encode_utf8(claim.username@), claim.iat as int),
{
    let header = encode_header();
    let claims = encode_claims(claim);
    let mut input: Vec<u8> = Vec::new();
    push_b64url(&mut input, header.as_slice());
    input.push(46u8);
    push_b64url(&mut input, claims.as_slice());
    assert(input@ =~= signing_input_of(encode_utf8(claim.username@), claim.iat as int));
    input
}

/// Joins the signed part of a token and its signature with a dot.
pub fn join_token(input: &[u8], signature: &str) -> (token: String)
    ensures
        token@ == joined_token(input@, signature@),
{
    let mut token = String::new();
    push_ascii(&mut token, input);
    push_char(&mut token, '.');
    token.append(signature);
    token
}

#[verifier::external_type_specification]
#[verifier::external_body]
pub struct ExJwtError(jsonwebtoken::errors::Error);

/// Calls `jsonwebtoken::crypto::sign(message, &EncodingKey::from_secret(secret),
/// Algorithm::HS256)`. Its source always returns `Ok` for HS256, holding the
/// URL-safe unpadded base64 of the HMAC-SHA256 digest of `message` under the
/// key `secret`; the digest itself is named (`hmac_sha256`), not stated.
#[verifier::external_body]
fn sign_hs256(secret: &[u8], message: &[u8]) -> (signature: Result<
    String,
    jsonwebtoken::errors::Error,
>)
    ensures
        signature is Ok,
        signature matches Ok(s) ==> s@ == ascii_chars(b64url(hmac_sha256(secret@, message@))),
{
    let key = jsonwebtoken::EncodingKey::from_secret(secret);
    jsonwebtoken::crypto::sign(message, &key, jsonwebtoken::Algorithm::HS256)
}

/// The token for `claim`, signed with `secret`.
pub fn create_token_at(secret: &str, claim: &UserClaim) -> (token: String)
    ensures
        token@ == token_of(secret@, claim.username@, claim.iat as int),
{
    let input = signing_input(claim);
    match sign_hs256(secret.as_bytes(), input.as_slice()) {
        Ok(signature) => join_token(input.as_slice(), signature.as_str()),
        Err(_) => {
            assert(false);
            String::new()
        },
    }
}

/// A token for `username`, issued at second `now` (seconds since the Unix
/// epoch, as the server's clock reads them) and signed with `secret`. It never
/// fails: HS256 signing cannot.
pub fn create_token(secret: &str, username: &str, now: i64) -> (token: Result<String, String>)
    ensures
        token is Ok,
        token->Ok_0@ == token_of(secret@, username@, now as int),
{
    let user_claim = UserClaim { username: username.to_owned(), iat: now };
    Ok(create_token_at(secret, &user_claim))
}

} // verus!
