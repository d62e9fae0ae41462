//! Generation of signed developer tokens (JWT, ES256) for the Apple Music
//! API: claim construction, expiry arithmetic, canonical JSON serialisation
//! of header and payload, and the call into the signing primitive.
use vstd::prelude::*;

pub mod json;
pub mod jws;
pub mod laws;

verus! {

use vstd::string::StringExecFns;
use vstd::utf8::encode_utf8;

/// The default validity window when none is requested, in seconds.
pub const DEFAULT_VALIDITY_SECS: u64 = 13905000;

/// The number of seconds a token stays valid: the requested duration,
/// or the compiled-in default when none was requested.
pub open spec fn validity_secs_spec(expires_in: Option<u64>) -> int {
    match expires_in {
        Some(s) => s as int,
        None => DEFAULT_VALIDITY_SECS as int,
    }
}

/// Resolve the optional requested duration to the validity window in seconds.
pub fn validity_seconds(expires_in: &Option<u64>) -> (r: u64)
    ensures
        r as int == validity_secs_spec(*expires_in),
{
    match expires_in {
        Some(s) => *s,
        None => DEFAULT_VALIDITY_SECS,
    }
}

/// A bound that every timestamp read from the clock stays strictly under,
/// in seconds of magnitude.
pub const CLOCK_BOUND: i64 = 10_000_000_000_000;

/// What a token is generated from: the issuer (team id), the key id, the
/// optional validity duration in seconds, and the path of the private key
/// file.
#[derive(Debug, Clone, PartialEq)]
pub struct Config {
    /// The Team ID to use (iss).
    pub team_id: String,
    /// The Key ID to use (kid).
    pub key_id: String,
    /// The duration for which the token must be valid (exp), in seconds.
    pub expires_in: Option<u64>,
    /// The path of the private key to use.
    pub secret_file: String,
}

/// The two ways a generation can fail: reading the key file, or signing.
#[derive(Debug)]
pub enum Error {
    /// The secret file could not be read; carries the underlying
    /// description.
    IOError(String),
    /// The key was rejected or the signing step failed; carries the
    /// underlying description.
    JWTError(String),
}

impl Error {
    /// The description of the underlying failure.
    pub open spec fn message_spec(&self) -> Seq<char> {
        match self {
            Error::IOError(m) => m@,
            Error::JWTError(m) => m@,
        }
    }

    /// Return the description of the underlying failure.
    pub fn message(&self) -> (r: String)
        ensures
            r@ == self.message_spec(),
    {
        match self {
            Error::IOError(m) => m.clone(),
            Error::JWTError(m) => m.clone(),
        }
    }
}

/// What a well-formed token for the given key id, issuer and timestamps
/// looks like: the base64url segment of the canonical header, a dot, the
/// base64url segment of the canonical payload, a dot, and an 86-character
/// base64url signature segment.
pub open spec fn token_matches(
    t: Seq<char>,
    kid: Seq<char>,
    iss: Seq<char>,
    iat: int,
    exp: int,
) -> bool {
    let h = jws::b64url_of(json::header_json_bytes(encode_utf8(kid)));
    let p = jws::b64url_of(json::payload_json_bytes(encode_utf8(iss), iat, exp));
    exists|sig: Seq<char>|
        {
            &&& t == h + seq!['.'] + p + seq!['.'] + sig
            &&& sig.len() == 86
            &&& #[trigger] jws::all_b64url_chars(sig)
            &&& jws::all_b64url_chars(h)
            &&& jws::all_b64url_chars(p)
        }
}

/// Generate the signed token for `config` with the given secret key bytes,
/// as of the instant `now`: the issued-at claim is exactly `now` and the
/// expiry claim exactly `now` plus the validity window.  Every failure is
/// a signing failure; reading the key file is the caller's business.
pub fn generate_token_at(config: &Config, secret: &[u8], now: i64) -> (res: Result<String, Error>)
    requires
        now + validity_secs_spec(config.expires_in) <= i64::MAX,
    ensures
        match res {
            Ok(t) => token_matches(
                t@,
                config.key_id@,
                config.team_id@,
                now as int,
                now + validity_secs_spec(config.expires_in),
            ),
            Err(e) => e is JWTError,
        },
{
    let validity: u64 = validity_seconds(&config.expires_in);
    let exp_wide: i128 = (now as i128) + (validity as i128);
    assert(i64::MIN <= exp_wide <= i64::MAX);
    let exp: i64 = exp_wide as i64;

    let header = json::header_json(config.key_id.as_str());
    let payload = json::payload_json(config.team_id.as_str(), now, exp);
    let header_seg = jws::b64url_encode(&header);
    let payload_seg = jws::b64url_encode(&payload);

    let mut signing_input: Vec<u8> = Vec::new();
    signing_input.extend_from_slice(header_seg.as_str().as_bytes());
    signing_input.push(0x2e);
    signing_input.extend_from_slice(payload_seg.as_str().as_bytes());

    let signature_seg = match jws::sign_es256(&signing_input, secret) {
        Ok(s) => s,
        Err(m) => { return Err(Error::JWTError(m)); },
    };

    let mut token = header_seg;
    token.append(".");
    token.append(payload_seg.as_str());
    token.append(".");
    token.append(signature_seg.as_str());

    proof {
        reveal_strlit(".");
        assert(token@ =~= jws::b64url_of(header@) + seq!['.'] + jws::b64url_of(payload@)
            + seq!['.'] + signature_seg@);
        assert(token_matches(
            token@,
            config.key_id@,
            config.team_id@,
            now as int,
            now + validity_secs_spec(config.expires_in),
        )) by {
            assert(exp as int == now + validity_secs_spec(config.expires_in));
        }
    }
    Ok(token)
}

/// Generate the signed token for `config` with the given secret key bytes,
/// stamping it with the current instant: there is one clock read, and both
/// the issued-at and the expiry claim are computed from it.
pub fn generate_token(config: &Config, secret: &[u8]) -> (res: Result<String, Error>)
    requires
        validity_secs_spec(config.expires_in) + CLOCK_BOUND <= i64::MAX,
    ensures
        match res {
            Ok(t) => exists|iat: int|
                -CLOCK_BOUND < iat < CLOCK_BOUND && #[trigger] token_matches(
                    t@,
                    config.key_id@,
                    config.team_id@,
                    iat,
                    iat + validity_secs_spec(config.expires_in),
                ),
            Err(e) => e is JWTError,
        },
{
    let now = jws::now_unix_timestamp();
    let res = generate_token_at(config, secret, now);
    proof {
        if res is Ok {
            assert(-CLOCK_BOUND < now as int);
            assert((now as int) < CLOCK_BOUND);
            assert(token_matches(
                res->Ok_0@,
                config.key_id@,
                config.team_id@,
                now as int,
                now as int + validity_secs_spec(config.expires_in),
            ));
        }
    }
    res
}

} // verus!
