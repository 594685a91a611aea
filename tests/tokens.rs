use plant_api::guard::{get_token, RequireAuth, Unauthorized};
use plant_api::token::{accept_claims, Claims, TokenCodec, TokenError, TOKEN_TTL_SECONDS};

#[test]
fn issued_token_carries_subject_and_times() {
    let codec = TokenCodec::new(b"k1".to_vec());
    let token = codec.issue("ann@example.com", 10_000).unwrap();
    assert_ne!(token, "ann@example.com");
    assert_eq!(token.split('.').count(), 3);
    let claims = codec.verify(&token, 10_000).unwrap();
    assert_eq!(claims.sub, "ann@example.com");
    assert_eq!(claims.iat, 10_000);
    assert_eq!(claims.exp, 10_000 + TOKEN_TTL_SECONDS);
    assert_eq!(TOKEN_TTL_SECONDS, 3600);
}

#[test]
fn expired_token_is_rejected_even_if_signed_correctly() {
    let codec = TokenCodec::new(b"k1".to_vec());
    let token = codec.issue("ann@example.com", 10_000).unwrap();
    assert!(codec.verify(&token, 13_599).is_ok());
    assert_eq!(codec.verify(&token, 13_600).err(), Some(TokenError::InvalidToken));
    assert_eq!(codec.verify(&token, 20_000).err(), Some(TokenError::InvalidToken));
}

#[test]
fn token_signed_with_another_secret_is_rejected() {
    let token = TokenCodec::new(b"k1".to_vec()).issue("ann@example.com", 10_000).unwrap();
    let other = TokenCodec::new(b"k2".to_vec());
    assert_eq!(other.verify(&token, 10_001).err(), Some(TokenError::InvalidToken));
}

#[test]
fn malformed_token_is_rejected() {
    let codec = TokenCodec::new(b"k1".to_vec());
    assert_eq!(codec.verify("not.a.token", 0).err(), Some(TokenError::InvalidToken));
    assert_eq!(codec.verify("", 0).err(), Some(TokenError::InvalidToken));
}

#[test]
fn issue_fails_when_expiry_overflows() {
    let codec = TokenCodec::new(b"k1".to_vec());
    assert_eq!(codec.issue("a", i64::MAX - 3599).err(), Some(TokenError::IssueFailed));
    assert!(codec.issue("a", i64::MAX - 3600).is_ok());
}

#[test]
fn accept_claims_checks_expiry_only() {
    let c = Claims { sub: "a".to_string(), exp: 100, iat: 40 };
    let ok = accept_claims(Some(c.clone()), 99).unwrap();
    assert_eq!((ok.sub.as_str(), ok.exp, ok.iat), ("a", 100, 40));
    assert_eq!(accept_claims(Some(c), 100).err(), Some(TokenError::InvalidToken));
    assert_eq!(accept_claims(None, 0).err(), Some(TokenError::InvalidToken));
}

#[test]
fn bearer_token_is_read_from_header() {
    assert_eq!(get_token(Some("Bearer abc.def")), Some("abc.def"));
    assert_eq!(get_token(Some("Bearer ")), Some(""));
    assert_eq!(get_token(Some("Basic abc")), None);
    assert_eq!(get_token(Some("bearer abc")), None);
    assert_eq!(get_token(Some("Bearer")), None);
    assert_eq!(get_token(None), None);
}

#[test]
fn guard_accepts_only_valid_bearer_tokens() {
    let codec = TokenCodec::new(b"k1".to_vec());
    let token = codec.issue("ann@example.com", 10_000).unwrap();
    let header = format!("Bearer {}", token);
    let RequireAuth(claims) = RequireAuth::from_header(&codec, Some(&header), 10_001).unwrap();
    assert_eq!(claims.sub, "ann@example.com");
    assert_eq!(RequireAuth::from_header(&codec, None, 10_001).err(), Some(Unauthorized));
    assert_eq!(RequireAuth::from_header(&codec, Some(&token), 10_001).err(), Some(Unauthorized));
    assert_eq!(RequireAuth::from_header(&codec, Some("Bearer junk"), 10_001).err(), Some(Unauthorized));
    assert_eq!(RequireAuth::from_header(&codec, Some(&header), 13_600).err(), Some(Unauthorized));
}
