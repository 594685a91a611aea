//! Registration and login.
//!
//! Both hand back a bearer token for the user's email. A login with an
//! unknown email and one with a wrong password fail the same way, so that a
//! caller cannot learn which accounts exist.
use vstd::prelude::*;
use crate::entities::UserDb;
use crate::password::{argon2_accepts, hash_password, verify_password};
use crate::store::{email_taken, user_added, Store, StoreError};
use crate::token::{decoded_claims, verify_outcome, TokenCodec, TokenError, TOKEN_TTL_SECONDS};

verus! {

/// Why a registration or a login was refused.
#[derive(Clone, Copy, Debug, PartialEq, Eq, Structural)]
pub enum AuthError {
    /// The email is registered already.
    UserAlreadyExists,
    /// Unknown email, or a password that does not match.
    InvalidCredentials,
    /// The store, the hashing or the signing failed.
    InternalError,
}

impl AuthError {
    /// A description of the error for the caller.
    pub fn message(&self) -> (r: String)
        ensures
            r@ == (match self {
                AuthError::UserAlreadyExists => "User already exists"@,
                AuthError::InvalidCredentials => "Invalid credentials"@,
                AuthError::InternalError => "Internal error"@,
            }),
    {
        match self {
            AuthError::UserAlreadyExists => "User already exists".to_owned(),
            AuthError::InvalidCredentials => "Invalid credentials".to_owned(),
            AuthError::InternalError => "Internal error".to_owned(),
        }
    }
}

/// The error that a failed insert of a credential row is reported as.
pub fn auth_error_of(e: StoreError) -> (r: AuthError)
    ensures
        r == (match e {
            StoreError::UniqueViolation => AuthError::UserAlreadyExists,
            StoreError::Other => AuthError::InternalError,
        }),
{
    match e {
        StoreError::UniqueViolation => AuthError::UserAlreadyExists,
        StoreError::Other => AuthError::InternalError,
    }
}

/// Some credential row for `email` accepts `password`.
pub open spec fn credentials_accepted(users: Seq<UserDb>, email: Seq<char>, password: Seq<char>) -> bool {
    exists|i: int|
        0 <= i < users.len() && (#[trigger] users[i]).email@ == email && argon2_accepts(
            password,
            users[i].password_hash@,
        )
}

/// Stores the credential row of a registration, once its password hash and
/// its token have been produced (`None` or `Err` where producing them failed).
/// The row is stored only when the whole registration succeeds.
pub fn complete_registration(
    store: &mut Store,
    email: &str,
    password_hash: Option<String>,
    token: Result<String, TokenError>,
) -> (r: Result<String, AuthError>)
    requires
        old(store).wf(),
    ensures
        final(store).wf(),
        final(store).plant_rows() == old(store).plant_rows(),
        final(store).pot_rows() == old(store).pot_rows(),
        final(store).links() == old(store).links(),
        email_taken(old(store).user_rows(), email@) ==> r == Err::<String, AuthError>(
            AuthError::UserAlreadyExists,
        ),
        !email_taken(old(store).user_rows(), email@) && (password_hash is None || token is Err
            || old(store).user_rows().len() >= i32::MAX) ==> r == Err::<String, AuthError>(
            AuthError::InternalError,
        ),
        !email_taken(old(store).user_rows(), email@) && old(store).user_rows().len() < i32::MAX ==> match (
            password_hash,
            token,
        ) {
            (Some(h), Ok(t)) => r == Ok::<String, AuthError>(t) && user_added(
                old(store).user_rows(),
                final(store).user_rows(),
                email@,
                h@,
            ),
            _ => true,
        },
        r is Err ==> final(store).user_rows() == old(store).user_rows(),
{
    if store.get_user_by_email(email).is_some() {
        return Err(AuthError::UserAlreadyExists);
    }
    let hash = match password_hash {
        Some(h) => h,
        None => return Err(AuthError::InternalError),
    };
    let token = match token {
        Ok(t) => t,
        Err(_) => return Err(AuthError::InternalError),
    };
    match store.insert_user(email, hash) {
        Ok(_) => Ok(token),
        Err(e) => Err(auth_error_of(e)),
    }
}

/// Registers `email` with a salted hash of `password` and returns a token
/// issued at `now` for it.
pub fn register(store: &mut Store, codec: &TokenCodec, email: &str, password: &str, now: i64) -> (r: Result<
    String,
    AuthError,
>)
    requires
        old(store).wf(),
    ensures
        final(store).wf(),
        final(store).plant_rows() == old(store).plant_rows(),
        final(store).pot_rows() == old(store).pot_rows(),
        final(store).links() == old(store).links(),
        email_taken(old(store).user_rows(), email@) <==> r == Err::<String, AuthError>(
            AuthError::UserAlreadyExists,
        ),
        r != Err::<String, AuthError>(AuthError::InvalidCredentials),
        r is Err ==> final(store).user_rows() == old(store).user_rows(),
        match r {
            Ok(t) => {
                &&& user_added(
                    old(store).user_rows(),
                    final(store).user_rows(),
                    email@,
                    final(store).user_rows().last().password_hash@,
                )
                &&& argon2_accepts(password@, final(store).user_rows().last().password_hash@)
                &&& now + TOKEN_TTL_SECONDS <= i64::MAX
                &&& decoded_claims(t@, codec.secret()) == Some(
                    (email@, (now + TOKEN_TTL_SECONDS) as i64, now),
                )
            },
            Err(_) => true,
        },
{
    if store.get_user_by_email(email).is_some() {
        return Err(AuthError::UserAlreadyExists);
    }
    let password_hash = match new_password_hash(password) {
        Ok(h) => Some(h),
        Err(_) => None,
    };
    let token = codec.issue(email, now);
    let ghost hashed = password_hash;
    let r = complete_registration(store, email, password_hash, token);
    proof {
        if r is Ok {
            assert(hashed is Some);
        }
    }
    r
}

/// Checks `password` against `stored_hash`, the hash stored for `email`
/// (`None` when no row holds `email`), and returns a token issued at `now`.
pub fn login_with(codec: &TokenCodec, stored_hash: Option<&str>, email: &str, password: &str, now: i64) -> (r:
    Result<String, AuthError>)
    ensures
        match stored_hash {
            Some(h) => if !argon2_accepts(password@, h@) {
                r == Err::<String, AuthError>(AuthError::InvalidCredentials)
            } else if now + TOKEN_TTL_SECONDS > i64::MAX {
                r == Err::<String, AuthError>(AuthError::InternalError)
            } else {
                r matches Ok(t) && decoded_claims(t@, codec.secret()) == Some(
                    (email@, (now + TOKEN_TTL_SECONDS) as i64, now),
                )
            },
            None => r == Err::<String, AuthError>(AuthError::InvalidCredentials),
        },
{
    let stored = match stored_hash {
        Some(h) => h,
        None => return Err(AuthError::InvalidCredentials),
    };
    if !verify_password(password, stored) {
        return Err(AuthError::InvalidCredentials);
    }
    match codec.issue(email, now) {
        Ok(t) => Ok(t),
        Err(_) => Err(AuthError::InternalError),
    }
}

/// Checks `password` against the credential row for `email` and returns a
/// token issued at `now` for it. Succeeds exactly when some row for `email`
/// accepts `password` and the token's expiry fits in an `i64`.
pub fn login(store: &Store, codec: &TokenCodec, email: &str, password: &str, now: i64) -> (r: Result<
    String,
    AuthError,
>)
    requires
        store.wf(),
    ensures
        !credentials_accepted(store.user_rows(), email@, password@) ==> r == Err::<String, AuthError>(
            AuthError::InvalidCredentials,
        ),
        credentials_accepted(store.user_rows(), email@, password@) && now + TOKEN_TTL_SECONDS > i64::MAX
            ==> r == Err::<String, AuthError>(AuthError::InternalError),
        credentials_accepted(store.user_rows(), email@, password@) && now + TOKEN_TTL_SECONDS
            <= i64::MAX ==> (r matches Ok(t) && decoded_claims(t@, codec.secret()) == Some(
            (email@, (now + TOKEN_TTL_SECONDS) as i64, now),
        )),
{
    let stored = match store.password_hash_of(email) {
        Some(h) => Some(h.as_str()),
        None => None,
    };
    login_with(codec, stored, email, password, now)
}

/// A salted hash of `password`, which `argon2` accepts for it.
pub fn new_password_hash(password: &str) -> (r: Result<String, AuthError>)
    ensures
        match r {
            Ok(h) => argon2_accepts(password@, h@),
            Err(e) => e == AuthError::InternalError,
        },
{
    match hash_password(password) {
        Some(h) => Ok(h),
        None => Err(AuthError::InternalError),
    }
}

/// After a registration, a login with the same email and password is
/// accepted, and the token that it was issued verifies, until it expires, to
/// claims whose subject is that email.
pub proof fn lemma_register_then_login(
    before: Seq<UserDb>,
    after: Seq<UserDb>,
    email: Seq<char>,
    password: Seq<char>,
    token: Seq<char>,
    secret: Seq<u8>,
    now: i64,
    later: i64,
)
    requires
        user_added(before, after, email, after.last().password_hash@),
        argon2_accepts(password, after.last().password_hash@),
        now + TOKEN_TTL_SECONDS <= i64::MAX,
        decoded_claims(token, secret) == Some((email, (now + TOKEN_TTL_SECONDS) as i64, now)),
        later < now + TOKEN_TTL_SECONDS,
    ensures
        credentials_accepted(after, email, password),
        verify_outcome(token, secret, later) matches Some(c) && c.0 == email,
{
    let i = before.len() as int;
    assert(after[i] == after.last());
}

} // verus!
