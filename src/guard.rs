//! The request boundary: reads a bearer token from the authorization header
//! and verifies it. Missing, malformed and invalid credentials all give the
//! same rejection.
use vstd::prelude::*;
use crate::token::{verify_outcome, Claims, TokenCodec};

verus! {

/// The scheme that an authorization header must start with.
pub open spec fn bearer_prefix() -> Seq<char> {
    seq!['B', 'e', 'a', 'r', 'e', 'r', ' ']
}

/// The token carried by an authorization header value, if it has the bearer form.
pub open spec fn bearer_token(header: Seq<char>) -> Option<Seq<char>> {
    if bearer_prefix().is_prefix_of(header) {
        Some(header.subrange(bearer_prefix().len() as int, header.len() as int))
    } else {
        None
    }
}

/// The token presented by a request whose authorization header is `header`.
pub open spec fn presented_token(header: Option<&str>) -> Option<Seq<char>> {
    match header {
        Some(h) => bearer_token(h@),
        None => None,
    }
}

/// Relies on `str::strip_prefix`: the rest of `s` after `prefix`, exactly
/// when `s` starts with `prefix`.
#[verifier::external_body]
fn strip_prefix<'a>(s: &'a str, prefix: &str) -> (r: Option<&'a str>)
    ensures
        match r {
            Some(rest) => prefix@.is_prefix_of(s@) && rest@ == s@.subrange(
                prefix@.len() as int,
                s@.len() as int,
            ),
            None => !prefix@.is_prefix_of(s@),
        },
{
    s.strip_prefix(prefix)
}

/// The token of an authorization header of the form `Bearer <token>`.
pub fn get_token(header: Option<&str>) -> (r: Option<&str>)
    ensures
        match presented_token(header) {
            Some(t) => r matches Some(x) && x@ == t,
            None => r is None,
        },
{
    match header {
        Some(h) => {
            let prefix = "Bearer ";
            proof {
                reveal_strlit("Bearer ");
                assert(prefix@ =~= bearer_prefix());
            }
            strip_prefix(h, prefix)
        },
        None => None,
    }
}

/// The single rejection of the access guard.
#[derive(Clone, Copy, Debug, PartialEq, Eq, Structural)]
pub struct Unauthorized;

/// The verified claims of an authenticated request.
#[derive(Clone, Debug)]
pub struct RequireAuth(pub Claims);

impl RequireAuth {
    /// Accepts a request exactly when its authorization header holds a bearer
    /// token that carries a valid signature and has not expired at `now`.
    pub fn from_header(codec: &TokenCodec, header: Option<&str>, now: i64) -> (r: Result<
        RequireAuth,
        Unauthorized,
    >)
        ensures
            match presented_token(header) {
                Some(t) => match verify_outcome(t, codec.secret(), now) {
                    Some(c) => r matches Ok(a) && a.0@ == c,
                    None => r is Err,
                },
                None => r is Err,
            },
    {
        match get_token(header) {
            Some(token) => match codec.verify(token, now) {
                Ok(claims) => Ok(RequireAuth(claims)),
                Err(_) => Err(Unauthorized),
            },
            None => Err(Unauthorized),
        }
    }
}

} // verus!
