//! Issuing and checking signed, time-bounded bearer tokens.
//!
//! Signing and signature checking are done by `jsonwebtoken` (HS256 with a
//! shared secret). Whether a token is still valid is decided here, against a
//! time that the caller passes in, so that a token is accepted exactly while
//! `now < exp`.
use vstd::prelude::*;

verus! {

/// How long an issued token stays valid, in seconds.
pub const TOKEN_TTL_SECONDS: i64 = 3600;

/// What `jsonwebtoken::decode` (HS256, with time checks switched off) reads
/// from `token` under `secret`: subject, expiry and issue time, or `None`
/// when the token is malformed, carries a bad signature or lacks a claim.
pub uninterp spec fn decoded_claims(token: Seq<char>, secret: Seq<u8>) -> Option<(Seq<char>, i64, i64)>;

/// Relies on `jsonwebtoken::encode` with the default HS256 header and an
/// HMAC key made from `secret`. The key family matches the header's
/// algorithm, a string-keyed JSON map always serializes and HMAC signing does
/// not fail, so a token always comes back; it decodes under the same secret
/// to exactly the claims it was given.
#[verifier::external_body]
fn encode_token(sub: &str, exp: i64, iat: i64, secret: &[u8]) -> (r: Option<String>)
    ensures
        r is Some,
        match r {
            Some(t) => decoded_claims(t@, secret@) == Some((sub@, exp, iat)),
            None => true,
        },
{
    let mut claims = serde_json::Map::new();
    claims.insert("sub".to_string(), serde_json::Value::from(sub));
    claims.insert("exp".to_string(), serde_json::Value::from(exp));
    claims.insert("iat".to_string(), serde_json::Value::from(iat));
    let key = jsonwebtoken::EncodingKey::from_secret(secret);
    jsonwebtoken::encode(&jsonwebtoken::Header::default(), &claims, &key).ok()
}

/// Relies on `jsonwebtoken::decode`: it checks the HS256 signature under
/// `secret` and parses the payload; the three claims are then read from it.
#[verifier::external_body]
fn decode_token(token: &str, secret: &[u8]) -> (r: Option<(String, i64, i64)>)
    ensures
        match r {
            Some(c) => decoded_claims(token@, secret@) == Some((c.0@, c.1, c.2)),
            None => decoded_claims(token@, secret@) is None,
        },
{
    let mut validation = jsonwebtoken::Validation::new(jsonwebtoken::Algorithm::HS256);
    validation.required_spec_claims.clear();
    validation.validate_exp = false;
    let key = jsonwebtoken::DecodingKey::from_secret(secret);
    let data = jsonwebtoken::decode::<serde_json::Map<String, serde_json::Value>>(token, &key, &validation).ok()?;
    let sub = data.claims.get("sub")?.as_str()?.to_string();
    let exp = data.claims.get("exp")?.as_i64()?;
    let iat = data.claims.get("iat")?.as_i64()?;
    Some((sub, exp, iat))
}

/// The decoded payload of a bearer token.
#[derive(Clone, Debug)]
pub struct Claims {
    /// The email of the user the token was issued to.
    pub sub: String,
    /// Expiry, in seconds since the Unix epoch; the token is valid while `now < exp`.
    pub exp: i64,
    /// Issue time, in seconds since the Unix epoch.
    pub iat: i64,
}

impl Claims {
    pub open spec fn view(&self) -> (Seq<char>, i64, i64) {
        (self.sub@, self.exp, self.iat)
    }
}

/// Why a token was not issued or not accepted.
#[derive(Clone, Copy, Debug, PartialEq, Eq, Structural)]
pub enum TokenError {
    /// Bad signature, malformed token, or expired.
    InvalidToken,
    /// The token's expiry does not fit in an `i64`.
    IssueFailed,
}

/// Accepts decoded claims exactly while they have not expired at `now`.
pub fn accept_claims(decoded: Option<Claims>, now: i64) -> (r: Result<Claims, TokenError>)
    ensures
        match decoded {
            Some(c) => if now < c.exp {
                r matches Ok(k) && k@ == c@
            } else {
                r == Err::<Claims, TokenError>(TokenError::InvalidToken)
            },
            None => r == Err::<Claims, TokenError>(TokenError::InvalidToken),
        },
{
    match decoded {
        Some(c) => {
            if now < c.exp {
                Ok(c)
            } else {
                Err(TokenError::InvalidToken)
            }
        },
        None => Err(TokenError::InvalidToken),
    }
}

/// The claims that `token` is accepted with at time `now` under `secret`:
/// those it carries, if its signature is good and it has not expired.
pub open spec fn verify_outcome(token: Seq<char>, secret: Seq<u8>, now: i64) -> Option<(Seq<char>, i64, i64)> {
    match decoded_claims(token, secret) {
        Some(c) => if now < c.1 {
            Some(c)
        } else {
            None
        },
        None => None,
    }
}

/// Issues and verifies tokens under one signing secret.
pub struct TokenCodec {
    secret: Vec<u8>,
}

impl TokenCodec {
    pub closed spec fn secret(&self) -> Seq<u8> {
        self.secret@
    }

    /// A codec that signs with `secret`.
    pub fn new(secret: Vec<u8>) -> (r: TokenCodec)
        ensures
            r.secret() == secret@,
    {
        TokenCodec { secret }
    }

    /// Signs `{sub: subject, iat: now, exp: now + TOKEN_TTL_SECONDS}`.
    /// Fails exactly when the expiry does not fit in an `i64`.
    pub fn issue(&self, subject: &str, now: i64) -> (r: Result<String, TokenError>)
        ensures
            now + TOKEN_TTL_SECONDS <= i64::MAX <==> r is Ok,
            match r {
                Ok(t) => now + TOKEN_TTL_SECONDS <= i64::MAX
                    && decoded_claims(t@, self.secret()) == Some(
                    (subject@, (now + TOKEN_TTL_SECONDS) as i64, now),
                ),
                Err(e) => e == TokenError::IssueFailed,
            },
    {
        if now > i64::MAX - TOKEN_TTL_SECONDS {
            return Err(TokenError::IssueFailed);
        }
        let exp: i64 = now + TOKEN_TTL_SECONDS;
        match encode_token(subject, exp, now, self.secret.as_slice()) {
            Some(t) => Ok(t),
            None => Err(TokenError::IssueFailed),
        }
    }

    /// Checks the signature of `token` and that it has not expired at `now`.
    pub fn verify(&self, token: &str, now: i64) -> (r: Result<Claims, TokenError>)
        ensures
            match verify_outcome(token@, self.secret(), now) {
                Some(c) => r matches Ok(k) && k@ == c,
                None => r == Err::<Claims, TokenError>(TokenError::InvalidToken),
            },
    {
        let decoded = match decode_token(token, self.secret.as_slice()) {
            Some((sub, exp, iat)) => Some(Claims { sub, exp, iat }),
            None => None,
        };
        accept_claims(decoded, now)
    }
}

} // verus!
