//! Canonical JSON serialisation of the token header and payload.
//!
//! The header and payload are fixed-shape JSON objects with their keys in
//! byte order, string values escaped the way serde-style serialisers escape
//! them, and integers in plain decimal.  The serialisation is specified to
//! the byte, so the contracts of the token builder can say exactly what the
//! signed segments contain.
use vstd::prelude::*;

verus! {

use vstd::utf8::encode_utf8;

/// The lowercase hexadecimal digit for a value below 16.
pub open spec fn hex_digit(n: u8) -> u8 {
    if n < 10 {
        (0x30 + n) as u8
    } else {
        (0x61 + (n - 10)) as u8
    }
}

/// How one byte of a string value is escaped: quote and backslash get a
/// two-byte escape, the five control characters with short forms get theirs,
/// every other control character becomes a six-byte `\u00..` escape with
/// lowercase hex digits, and all remaining bytes stand unchanged.
pub open spec fn escaped_byte(b: u8) -> Seq<u8> {
    if b == 0x22 {
        seq![0x5cu8, 0x22u8]
    } else if b == 0x5c {
        seq![0x5cu8, 0x5cu8]
    } else if b == 0x08 {
        seq![0x5cu8, 0x62u8]
    } else if b == 0x09 {
        seq![0x5cu8, 0x74u8]
    } else if b == 0x0a {
        seq![0x5cu8, 0x6eu8]
    } else if b == 0x0c {
        seq![0x5cu8, 0x66u8]
    } else if b == 0x0d {
        seq![0x5cu8, 0x72u8]
    } else if b < 0x20 {
        seq![0x5cu8, 0x75u8, 0x30u8, 0x30u8, hex_digit(b / 16), hex_digit(b % 16)]
    } else {
        seq![b]
    }
}

/// The escaped form of a whole string value, byte for byte.
pub open spec fn json_escaped(s: Seq<u8>) -> Seq<u8>
    decreases s.len(),
{
    if s.len() == 0 {
        Seq::empty()
    } else {
        escaped_byte(s[0]) + json_escaped(s.skip(1))
    }
}

/// Escaping a string one byte longer appends that byte's escape.
proof fn lemma_json_escaped_push(s: Seq<u8>, x: u8)
    ensures
        json_escaped(s.push(x)) == json_escaped(s) + escaped_byte(x),
    decreases s.len(),
{
    if s.len() == 0 {
        assert(s.push(x)[0] == x);
        assert(s.push(x).skip(1) =~= Seq::<u8>::empty());
        assert(json_escaped(s.push(x)) == escaped_byte(x) + json_escaped(Seq::<u8>::empty()));
        assert(json_escaped(s.push(x)) =~= json_escaped(s) + escaped_byte(x));
    } else {
        assert(s.push(x).skip(1) =~= s.skip(1).push(x));
        lemma_json_escaped_push(s.skip(1), x);
        assert(json_escaped(s.push(x)) =~= json_escaped(s) + escaped_byte(x));
    }
}

/// Append the escaped form of `s` to `out`.
pub fn append_json_escaped(out: &mut Vec<u8>, s: &[u8])
    ensures
        final(out)@ == old(out)@ + json_escaped(s@),
{
    let ghost start = out@;
    let mut i: usize = 0;
    while i < s.len()
        invariant
            i <= s@.len(),
            out@ == start + json_escaped(s@.take(i as int)),
        decreases s@.len() - i,
    {
        let b = s[i];
        if b == 0x22 {
            out.push(0x5c);
            out.push(0x22);
        } else if b == 0x5c {
            out.push(0x5c);
            out.push(0x5c);
        } else if b == 0x08 {
            out.push(0x5c);
            out.push(0x62);
        } else if b == 0x09 {
            out.push(0x5c);
            out.push(0x74);
        } else if b == 0x0a {
            out.push(0x5c);
            out.push(0x6e);
        } else if b == 0x0c {
            out.push(0x5c);
            out.push(0x66);
        } else if b == 0x0d {
            out.push(0x5c);
            out.push(0x72);
        } else if b < 0x20 {
            out.push(0x5c);
            out.push(0x75);
            out.push(0x30);
            out.push(0x30);
            out.push(if b / 16 < 10 { 0x30 + b / 16 } else { 0x61 + (b / 16 - 10) });
            out.push(if b % 16 < 10 { 0x30 + b % 16 } else { 0x61 + (b % 16 - 10) });
        } else {
            out.push(b);
        }
        proof {
            lemma_json_escaped_push(s@.take(i as int), s@[i as int]);
            assert(s@.take(i + 1 as int) =~= s@.take(i as int).push(s@[i as int]));
        }
        i = i + 1;
    }
    proof {
        assert(s@.take(s@.len() as int) =~= s@);
    }
}

/// The decimal digits of a non-negative number, most significant first.
pub open spec fn dec_digits(n: nat) -> Seq<u8>
    decreases n,
{
    if n < 10 {
        seq![(0x30 + n) as u8]
    } else {
        dec_digits(n / 10).push((0x30 + n % 10) as u8)
    }
}

/// The decimal form of an integer: a minus sign for negative values,
/// then the digits.
pub open spec fn dec_of(n: int) -> Seq<u8> {
    if n < 0 {
        seq![0x2du8] + dec_digits((-n) as nat)
    } else {
        dec_digits(n as nat)
    }
}

/// Append the decimal digits of `m` to `out`.
fn append_dec_u64(out: &mut Vec<u8>, m: u64)
    ensures
        final(out)@ == old(out)@ + dec_digits(m as nat),
    decreases m,
{
    if m < 10 {
        out.push(0x30 + m as u8);
    } else {
        append_dec_u64(out, m / 10);
        out.push(0x30 + (m % 10) as u8);
    }
}

/// Append the decimal form of `v` to `out`.
pub fn append_dec_i64(out: &mut Vec<u8>, v: i64)
    ensures
        final(out)@ == old(out)@ + dec_of(v as int),
{
    if v < 0 {
        out.push(0x2d);
        let wide: i128 = -(v as i128);
        assert(0 < wide <= u64::MAX);
        append_dec_u64(out, wide as u64);
    } else {
        append_dec_u64(out, v as u64);
    }
}

/// The header serialisation: exactly the algorithm tag and the key id,
/// in that order, with the key id escaped.
pub open spec fn header_json_bytes(kid_utf8: Seq<u8>) -> Seq<u8> {
    encode_utf8("{\"alg\":\"ES256\",\"kid\":\""@) + json_escaped(kid_utf8) + encode_utf8("\"}"@)
}

/// The payload serialisation: the expiry, issued-at and issuer claims,
/// with the keys in byte order and the issuer escaped.
pub open spec fn payload_json_bytes(iss_utf8: Seq<u8>, iat: int, exp: int) -> Seq<u8> {
    encode_utf8("{\"exp\":"@) + dec_of(exp) + encode_utf8(",\"iat\":"@) + dec_of(iat) + encode_utf8(
        ",\"iss\":\""@,
    ) + json_escaped(iss_utf8) + encode_utf8("\"}"@)
}

/// Serialise the token header for the given key id.
pub fn header_json(kid: &str) -> (r: Vec<u8>)
    ensures
        r@ == header_json_bytes(encode_utf8(kid@)),
{
    let mut out: Vec<u8> = Vec::new();
    out.extend_from_slice("{\"alg\":\"ES256\",\"kid\":\"".as_bytes());
    append_json_escaped(&mut out, kid.as_bytes());
    out.extend_from_slice("\"}".as_bytes());
    out
}

/// Serialise the token payload for the given issuer and timestamps.
pub fn payload_json(iss: &str, iat: i64, exp: i64) -> (r: Vec<u8>)
    ensures
        r@ == payload_json_bytes(encode_utf8(iss@), iat as int, exp as int),
{
    let mut out: Vec<u8> = Vec::new();
    out.extend_from_slice("{\"exp\":".as_bytes());
    append_dec_i64(&mut out, exp);
    out.extend_from_slice(",\"iat\":".as_bytes());
    append_dec_i64(&mut out, iat);
    out.extend_from_slice(",\"iss\":\"".as_bytes());
    append_json_escaped(&mut out, iss.as_bytes());
    out.extend_from_slice("\"}".as_bytes());
    out
}

} // verus!
