use vstd::prelude::*;
use jsonwebtoken::errors::ErrorKind;
use jsonwebtoken::{Algorithm, DecodingKey, EncodingKey, Header, Validation};
use serde_json::Value;

verus! {

/// Lifetime of an access token, in seconds (one hour).
pub const ACCESS_TTL_SECS: u64 = 3600;

/// Lifetime of a refresh token, in seconds (seven days).
pub const REFRESH_TTL_SECS: u64 = 604800;

/// What a token may be used for.
#[derive(Clone, Copy, Debug, PartialEq, Eq, Structural)]
pub enum TokenKind {
    Access,
    Refresh,
}

/// Why a token was not accepted by the signature layer.
#[derive(Clone, Copy, Debug, PartialEq, Eq, Structural)]
pub enum DecodeFault {
    /// The token could not be parsed into a header, a payload and a signature,
    /// or its payload lacks one of the expected claims.
    Malformed,
    /// The token parses, but its MAC does not match the secret.
    BadSignature,
}

/// Why `verify_token` rejected a token.
#[derive(Clone, Copy, Debug, PartialEq, Eq, Structural)]
pub enum VerifyError {
    Malformed,
    BadSignature,
    Expired,
}

/// The signing layer could not produce a token.
#[derive(Clone, Copy, Debug, PartialEq, Eq, Structural)]
pub enum TokenError {
    Encoding,
}

/// The signed payload of a token.
#[derive(Clone, Debug)]
pub struct Claims {
    /// The username the token authenticates.
    pub sub: String,
    /// Expiry, in whole seconds since the Unix epoch.
    pub exp: u64,
    pub kind: TokenKind,
}

/// Mathematical model of `Claims`.
pub struct ClaimsView {
    pub sub: Seq<char>,
    pub exp: u64,
    pub kind: TokenKind,
}

impl View for Claims {
    type V = ClaimsView;

    open spec fn view(&self) -> ClaimsView {
        ClaimsView { sub: self.sub@, exp: self.exp, kind: self.kind }
    }
}

/// The value of the `token_type` claim for each kind.
pub open spec fn kind_label(k: TokenKind) -> Seq<char> {
    match k {
        TokenKind::Access => "access"@,
        TokenKind::Refresh => "refresh"@,
    }
}

/// The kind that a `token_type` claim names, if any.
pub open spec fn kind_of_label(label: Seq<char>) -> Option<TokenKind> {
    if label == kind_label(TokenKind::Access) {
        Some(TokenKind::Access)
    } else if label == kind_label(TokenKind::Refresh) {
        Some(TokenKind::Refresh)
    } else {
        None
    }
}

/// The compact signed encoding of the claims `{sub, exp, token_type}` under `secret`.
pub uninterp spec fn jwt_encoded(sub: Seq<char>, exp: u64, label: Seq<char>, secret: Seq<u8>) -> Seq<char>;

/// What the signature layer reads back from `token` under `secret`:
/// the claims `(sub, exp, token_type)`, or why it refused the token.
pub uninterp spec fn jwt_decoded(token: Seq<char>, secret: Seq<u8>) -> Result<(Seq<char>, u64, Seq<char>), DecodeFault>;

/// The decision of `verify_token` on what the signature layer read back.
pub open spec fn verdict(
    decoded: Result<(Seq<char>, u64, Seq<char>), DecodeFault>,
    now: u64,
) -> Result<ClaimsView, VerifyError> {
    match decoded {
        Err(DecodeFault::Malformed) => Err(VerifyError::Malformed),
        Err(DecodeFault::BadSignature) => Err(VerifyError::BadSignature),
        Ok((sub, exp, label)) => match kind_of_label(label) {
            None => Err(VerifyError::Malformed),
            Some(kind) => if now < exp {
                Ok(ClaimsView { sub, exp, kind })
            } else {
                Err(VerifyError::Expired)
            },
        },
    }
}

/// The model of a verification result.
pub open spec fn verify_view(r: Result<Claims, VerifyError>) -> Result<ClaimsView, VerifyError> {
    match r {
        Ok(c) => Ok(c@),
        Err(e) => Err(e),
    }
}

/// The expiry of a token issued at `now` with lifetime `ttl`; it saturates at
/// the largest representable timestamp.
pub open spec fn expiry_of(now: u64, ttl: u64) -> u64 {
    if now + ttl > u64::MAX {
        u64::MAX
    } else {
        (now + ttl) as u64
    }
}

/// Relies on jsonwebtoken::encode with the default header (HS256) and an HMAC
/// key made from `secret`: with an HMAC key and a map of strings and numbers it
/// does not fail; the token is `header.payload.signature`, a function of the
/// claims and the key; jsonwebtoken::decode with the same key reads those
/// claims back.
#[verifier::external_body]
fn jwt_encode(sub: &str, exp: u64, label: &str, secret: &[u8]) -> (r: Option<String>)
    ensures
        r is Some,
        r matches Some(t) ==> t@ == jwt_encoded(sub@, exp, label@, secret@),
        r matches Some(t) ==> t@.len() > 0,
        r matches Some(t) ==> (jwt_decoded(t@, secret@) matches Ok(c) && c == (sub@, exp, label@)),
{
    let claims = std::collections::BTreeMap::from([
        ("sub", Value::from(sub)),
        ("exp", Value::from(exp)),
        ("token_type", Value::from(label)),
    ]);
    jsonwebtoken::encode(&Header::default(), &claims, &EncodingKey::from_secret(secret)).ok()
}

/// Relies on jsonwebtoken::decode with HS256, an HMAC key made from `secret` and
/// expiry left to the caller: it checks the signature and reads the claims
/// `sub`, `exp` and `token_type`; a failed MAC comparison is `InvalidSignature`.
#[verifier::external_body]
fn jwt_decode(token: &str, secret: &[u8]) -> (r: Result<(String, u64, String), DecodeFault>)
    ensures
        r matches Ok(c) ==> (jwt_decoded(token@, secret@) matches Ok(d) && d == (c.0@, c.1, c.2@)),
        r matches Err(f) ==> (jwt_decoded(token@, secret@) matches Err(g) && g == f),
{
    let mut validation = Validation::new(Algorithm::HS256);
    validation.validate_exp = false;
    match jsonwebtoken::decode::<Value>(token, &DecodingKey::from_secret(secret), &validation) {
        Ok(d) => match (d.claims["sub"].as_str(), d.claims["exp"].as_u64(), d.claims["token_type"].as_str()) {
            (Some(s), Some(e), Some(t)) => Ok((s.to_string(), e, t.to_string())),
            _ => Err(DecodeFault::Malformed),
        },
        Err(e) => match e.kind() {
            ErrorKind::InvalidSignature => Err(DecodeFault::BadSignature),
            _ => Err(DecodeFault::Malformed),
        },
    }
}

/// The `token_type` claim written for `kind`.
pub fn kind_label_str(kind: TokenKind) -> (r: &'static str)
    ensures
        r@ == kind_label(kind),
{
    match kind {
        TokenKind::Access => "access",
        TokenKind::Refresh => "refresh",
    }
}

/// The kind that a `token_type` claim names.
pub fn kind_from_label(label: &String) -> (r: Option<TokenKind>)
    ensures
        r == kind_of_label(label@),
{
    let access = String::from_str("access");
    let refresh = String::from_str("refresh");
    if *label == access {
        Some(TokenKind::Access)
    } else if *label == refresh {
        Some(TokenKind::Refresh)
    } else {
        None
    }
}

/// `token` is the signed encoding of the claims `(sub, exp, kind)` under
/// `secret`, and the signature layer reads exactly those claims back from it.
pub open spec fn is_token_for(token: Seq<char>, sub: Seq<char>, kind: TokenKind, exp: u64, secret: Seq<u8>) -> bool {
    &&& token == jwt_encoded(sub, exp, kind_label(kind), secret)
    &&& jwt_decoded(token, secret) == Ok::<(Seq<char>, u64, Seq<char>), DecodeFault>((sub, exp, kind_label(kind)))
}

/// Signs a token of the given kind for `subject`, issued at `now` and
/// expiring `ttl` seconds later.
pub fn issue_token(subject: &str, kind: TokenKind, ttl: u64, now: u64, secret: &[u8]) -> (r: Result<String, TokenError>)
    ensures
        r is Ok,
        r matches Ok(t) ==> is_token_for(t@, subject@, kind, expiry_of(now, ttl), secret@) && t@.len() > 0,
{
    let exp = now.saturating_add(ttl);
    match jwt_encode(subject, exp, kind_label_str(kind), secret) {
        Some(t) => Ok(t),
        None => Err(TokenError::Encoding),
    }
}

/// Signs a one-hour access token for `user_id`, issued at `now`.
pub fn create_access_token(user_id: &str, secret: &[u8], now: u64) -> (r: Result<String, TokenError>)
    ensures
        r is Ok,
        r matches Ok(t) ==> is_token_for(t@, user_id@, TokenKind::Access, expiry_of(now, ACCESS_TTL_SECS), secret@)
            && t@.len() > 0,
{
    issue_token(user_id, TokenKind::Access, ACCESS_TTL_SECS, now, secret)
}

/// Signs a seven-day refresh token for `user_id`, issued at `now`.
pub fn create_refresh_token(user_id: &str, secret: &[u8], now: u64) -> (r: Result<String, TokenError>)
    ensures
        r is Ok,
        r matches Ok(t) ==> is_token_for(t@, user_id@, TokenKind::Refresh, expiry_of(now, REFRESH_TTL_SECS), secret@)
            && t@.len() > 0,
{
    issue_token(user_id, TokenKind::Refresh, REFRESH_TTL_SECS, now, secret)
}

/// Checks the signature of `token` under `secret` and that `now` is strictly
/// before its expiry, and returns its claims.
pub fn verify_token(token: &str, secret: &[u8], now: u64) -> (r: Result<Claims, VerifyError>)
    ensures
        verify_view(r) == verdict(jwt_decoded(token@, secret@), now),
{
    match jwt_decode(token, secret) {
        Err(DecodeFault::Malformed) => Err(VerifyError::Malformed),
        Err(DecodeFault::BadSignature) => Err(VerifyError::BadSignature),
        Ok((sub, exp, label)) => match kind_from_label(&label) {
            None => Err(VerifyError::Malformed),
            Some(kind) => if now < exp {
                Ok(Claims { sub, exp, kind })
            } else {
                Err(VerifyError::Expired)
            },
        },
    }
}

/// Each kind is read back from the label written for it.
proof fn lemma_label_names_kind(kind: TokenKind)
    ensures
        kind_of_label(kind_label(kind)) == Some(kind),
{
    reveal_strlit("access");
    reveal_strlit("refresh");
    assert(kind_label(TokenKind::Access).len() != kind_label(TokenKind::Refresh).len());
}

/// A token verifies, with the subject, expiry and kind it was issued with, at
/// every moment strictly before its expiry.
pub proof fn lemma_round_trip(token: Seq<char>, sub: Seq<char>, kind: TokenKind, exp: u64, secret: Seq<u8>, now: u64)
    requires
        is_token_for(token, sub, kind, exp, secret),
        now < exp,
    ensures
        verdict(jwt_decoded(token, secret), now) == Ok::<ClaimsView, VerifyError>(ClaimsView { sub, exp, kind }),
{
    lemma_label_names_kind(kind);
}

/// A token issued at `issued_at` with lifetime `ttl` fails with `Expired` at
/// every moment from its expiry on; with a zero lifetime that is from the
/// moment of issue on.
pub proof fn lemma_expired(token: Seq<char>, sub: Seq<char>, kind: TokenKind, issued_at: u64, ttl: u64, secret: Seq<u8>, now: u64)
    requires
        is_token_for(token, sub, kind, expiry_of(issued_at, ttl), secret),
        now >= expiry_of(issued_at, ttl),
    ensures
        verdict(jwt_decoded(token, secret), now) == Err::<ClaimsView, VerifyError>(VerifyError::Expired),
        ttl == 0 ==> expiry_of(issued_at, ttl) == issued_at,
        issued_at + ttl <= u64::MAX ==> expiry_of(issued_at, ttl) == issued_at + ttl,
{
    lemma_label_names_kind(kind);
}

} // verus!
