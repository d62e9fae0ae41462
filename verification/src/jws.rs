//! The signed part of the token: base64url segments and the ES256
//! signature.
//!
//! The segment encoding and the signing itself are outside calls; their
//! results are named or bounded here.  What is the library's own — the
//! assembly of the raw 64-byte signature from the two ECDSA integers —
//! is verified.
use vstd::prelude::*;

use base64::Engine;

verus! {

use vstd::string::StringExecFns;

/// What the URL-safe, unpadded base64 encoding of a byte sequence is.
pub uninterp spec fn b64url_of(bytes: Seq<u8>) -> Seq<char>;

/// What the SHA-256 digest of a byte sequence is.
pub uninterp spec fn sha256_of(data: Seq<u8>) -> Seq<u8>;

/// Whether a character belongs to the URL-safe base64 alphabet.
pub open spec fn b64url_char(c: char) -> bool {
    ('A' <= c && c <= 'Z') || ('a' <= c && c <= 'z') || ('0' <= c && c <= '9') || c == '-' || c
        == '_'
}

/// Whether every character of a sequence belongs to the URL-safe base64
/// alphabet.
pub open spec fn all_b64url_chars(s: Seq<char>) -> bool {
    forall|i: int| 0 <= i < s.len() ==> b64url_char(#[trigger] s[i])
}

/// Relies on the base64 crate's `URL_SAFE_NO_PAD` engine: the encoding is a
/// pure function of the input bytes, four characters for every three bytes
/// rounded up, all of them from the URL-safe alphabet (A-Z, a-z, 0-9, '-',
/// '_'), with no padding.
#[verifier::external_body]
pub(crate) fn b64url_encode(bytes: &Vec<u8>) -> (r: String)
    ensures
        r@ == b64url_of(bytes@),
        r@.len() == (bytes@.len() * 4 + 2) / 3,
        all_b64url_chars(r@),
{
    base64::engine::general_purpose::URL_SAFE_NO_PAD.encode(bytes)
}

/// Relies on `chrono::Utc::now`: the Unix timestamp, in seconds, of the
/// current instant.  chrono documents its date types as limited to about
/// +/- 262,000 years from the common epoch, which keeps the timestamp
/// strictly below 10^13 seconds in magnitude.
#[verifier::external_body]
pub(crate) fn now_unix_timestamp() -> (r: i64)
    ensures
        -10_000_000_000_000 < r < 10_000_000_000_000,
{
    chrono::Utc::now().timestamp()
}

/// Relies on `openssl::hash::hash` with `MessageDigest::sha256`: the digest
/// is a pure function of the input and is 32 bytes long; the error case is
/// an internal failure of the crypto library.
#[verifier::external_body]
pub(crate) fn sha256(data: &Vec<u8>) -> (r: Result<Vec<u8>, String>)
    ensures
        r matches Ok(d) ==> d@ == sha256_of(data@) && d@.len() == 32,
{
    match openssl::hash::hash(openssl::hash::MessageDigest::sha256(), data) {
        Ok(d) => Ok(d.to_vec()),
        Err(e) => Err(e.to_string()),
    }
}

#[verifier::external_type_specification]
#[verifier::external_body]
pub struct ExPrivate(openssl::pkey::Private);

#[verifier::external_type_specification]
#[verifier::external_body]
#[verifier::reject_recursive_types(T)]
pub struct ExEcKey<T>(openssl::ec::EcKey<T>);

/// Relies on `openssl::ec::EcKey::private_key_from_pem`: parses a
/// PEM-encoded EC private key; anything the parser rejects comes back as
/// the error description.
#[verifier::external_body]
pub(crate) fn ec_private_key_from_pem(pem: &[u8]) -> Result<
    openssl::ec::EcKey<openssl::pkey::Private>,
    String,
> {
    openssl::ec::EcKey::private_key_from_pem(pem).map_err(|e| e.to_string())
}

/// Relies on `openssl::ecdsa::EcdsaSig::sign`: signs the digest with the
/// key, returning the two ECDSA integers r and s in minimal big-endian
/// form.  ECDSA draws a fresh random nonce for every signature, so nothing
/// is promised of the returned bytes.
#[verifier::external_body]
pub(crate) fn ecdsa_sign(
    digest: &Vec<u8>,
    key: &openssl::ec::EcKey<openssl::pkey::Private>,
) -> Result<(Vec<u8>, Vec<u8>), String> {
    let sig = match openssl::ecdsa::EcdsaSig::sign(digest, key) {
        Ok(s) => s,
        Err(e) => return Err(e.to_string()),
    };
    Ok((sig.r().to_vec(), sig.s().to_vec()))
}

/// A byte sequence left-padded with zeros to 32 bytes.
pub open spec fn zero_padded_32(b: Seq<u8>) -> Seq<u8> {
    Seq::new((32 - b.len()) as nat, |i: int| 0u8) + b
}

/// Append `b`, left-padded with zeros to 32 bytes, to `out`.
fn push_padded_32(out: &mut Vec<u8>, b: &Vec<u8>)
    requires
        b@.len() <= 32,
    ensures
        final(out)@ == old(out)@ + zero_padded_32(b@),
        final(out)@.len() == old(out)@.len() + 32,
{
    let ghost start = out@;
    let pad: usize = 32 - b.len();
    let mut i: usize = 0;
    while i < pad
        invariant
            i <= pad,
            pad == 32 - b@.len(),
            out@ =~= start + Seq::new(i as nat, |j: int| 0u8),
        decreases pad - i,
    {
        out.push(0);
        proof {
            assert(Seq::new((i + 1) as nat, |j: int| 0u8) =~= Seq::new(i as nat, |j: int| 0u8)
                + seq![0u8]);
        }
        i = i + 1;
    }
    out.extend_from_slice(b.as_slice());
    proof {
        assert(out@ =~= start + zero_padded_32(b@));
    }
}

/// Sign a prepared signing input with an ES256 key and return the base64url
/// segment of the signature: the raw 64-byte form, r then s, each
/// left-padded to 32 bytes.  The signature is random, so only its shape is
/// stated: 86 characters of the URL-safe base64 alphabet.
pub fn sign_es256(signing_input: &Vec<u8>, pem: &[u8]) -> (res: Result<String, String>)
    ensures
        res matches Ok(sig) ==> sig@.len() == 86 && all_b64url_chars(sig@),
        res matches Ok(sig) ==> exists|raw: Seq<u8>| raw.len() == 64 && sig@ == #[trigger] b64url_of(
            raw,
        ),
{
    let digest = match sha256(signing_input) {
        Ok(d) => d,
        Err(e) => { return Err(e); },
    };
    let key = match ec_private_key_from_pem(pem) {
        Ok(k) => k,
        Err(e) => { return Err(e); },
    };
    let (r, s) = match ecdsa_sign(&digest, &key) {
        Ok(p) => p,
        Err(e) => { return Err(e); },
    };
    if r.len() > 32 || s.len() > 32 {
        return Err(String::from_str("signature does not fit the P-256 raw form"));
    }
    let mut raw: Vec<u8> = Vec::new();
    push_padded_32(&mut raw, &r);
    push_padded_32(&mut raw, &s);
    assert(raw@.len() == 64);
    Ok(b64url_encode(&raw))
}

} // verus!
