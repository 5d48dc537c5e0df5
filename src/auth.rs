use vstd::prelude::*;
use vstd::string::StringSliceAdditionalSpecFns;
use crate::jwt::{
    create_access_token, create_refresh_token, expiry_of, is_token_for, jwt_decoded, lemma_expired,
    lemma_round_trip, verdict, verify_token, TokenKind, ACCESS_TTL_SECS, REFRESH_TTL_SECS,
};
use crate::password::{check_password, hash_password, password_verifies, PASSWORD_HASH_COST};
use crate::models::{NewUser, User};

verus! {

/// Failures of the authentication flows, resolved at the operation boundary.
#[derive(Clone, Copy, Debug, PartialEq, Eq, Structural)]
pub enum AuthError {
    /// The username is already registered.
    Conflict,
    /// Unknown user or wrong password.
    InvalidCredentials,
    /// A missing, malformed, badly signed, expired or misused token.
    InvalidToken,
    /// The signing secret has not been provisioned.
    SecretUnavailable,
    /// The credential store failed.
    StoreFailure,
    /// The signing layer could not produce a token.
    TokenEncoding,
    /// No salted hash of the password could be made.
    CredentialHashing,
}

/// The HTTP status that each error is answered with.
pub open spec fn status_of(e: AuthError) -> u16 {
    match e {
        AuthError::Conflict => 400,
        AuthError::InvalidCredentials => 401,
        AuthError::InvalidToken => 401,
        AuthError::SecretUnavailable => 500,
        AuthError::StoreFailure => 500,
        AuthError::TokenEncoding => 500,
        AuthError::CredentialHashing => 500,
    }
}

/// The message each error is answered with.
pub open spec fn message_of(e: AuthError) -> Seq<char> {
    match e {
        AuthError::Conflict => "User already exists"@,
        AuthError::InvalidCredentials => "Invalid username or password"@,
        AuthError::InvalidToken => "Unauthorized"@,
        AuthError::SecretUnavailable => "JWT secret not configured"@,
        AuthError::StoreFailure => "Storage error"@,
        AuthError::TokenEncoding => "Token error"@,
        AuthError::CredentialHashing => "Credential error"@,
    }
}

impl AuthError {
    /// The HTTP status this error is answered with.
    pub fn status(&self) -> (r: u16)
        ensures
            r == status_of(*self),
    {
        match self {
            AuthError::Conflict => 400,
            AuthError::InvalidCredentials => 401,
            AuthError::InvalidToken => 401,
            AuthError::SecretUnavailable => 500,
            AuthError::StoreFailure => 500,
            AuthError::TokenEncoding => 500,
            AuthError::CredentialHashing => 500,
        }
    }

    /// The message sent to the client; it does not tell which part of a
    /// credential or token failed.
    pub fn message(&self) -> (r: &'static str)
        ensures
            r@ == message_of(*self),
    {
        match self {
            AuthError::Conflict => "User already exists",
            AuthError::InvalidCredentials => "Invalid username or password",
            AuthError::InvalidToken => "Unauthorized",
            AuthError::SecretUnavailable => "JWT secret not configured",
            AuthError::StoreFailure => "Storage error",
            AuthError::TokenEncoding => "Token error",
            AuthError::CredentialHashing => "Credential error",
        }
    }
}

#[derive(Clone, Debug)]
pub struct LoginRequest {
    pub username: String,
    pub password: String,
}

#[derive(Clone, Debug)]
pub struct LoginResponse {
    pub access_token: String,
    pub refresh_token: String,
}

#[derive(Clone, Debug)]
pub struct RegisterRequest {
    pub username: String,
    pub password: String,
}

#[derive(Clone, Debug)]
pub struct RegisterResponse {
    pub id: String,
    pub username: String,
    pub created_at: Option<i64>,
}

#[derive(Clone, Debug)]
pub struct RefreshRequest {
    pub refresh_token: String,
}

#[derive(Clone, Debug)]
pub struct RefreshResponse {
    pub access_token: String,
}

/// Decides a registration once the password has been hashed: a taken
/// username is a conflict; otherwise the store is asked to create the user
/// with `hashed` as its credential, if the hashing succeeded.
pub fn register_with_hash(req: &RegisterRequest, username_taken: bool, hashed: Option<String>) -> (r: Result<NewUser, AuthError>)
    ensures
        username_taken ==> r == Err::<NewUser, AuthError>(AuthError::Conflict),
        !username_taken && hashed is None ==> r == Err::<NewUser, AuthError>(AuthError::CredentialHashing),
        !username_taken && hashed is Some ==> (r matches Ok(n)
            && n.username@ == req.username@ && n.password_hash@ == hashed.unwrap()@),
{
    if username_taken {
        return Err(AuthError::Conflict);
    }
    match hashed {
        Some(h) => Ok(NewUser { username: req.username.clone(), password_hash: h }),
        None => Err(AuthError::CredentialHashing),
    }
}

/// Decides a registration: a taken username is a conflict; otherwise the
/// store is asked to create the user with a freshly salted hash of the
/// password as its credential.
pub fn register(req: &RegisterRequest, username_taken: bool) -> (r: Result<NewUser, AuthError>)
    ensures
        username_taken <==> r == Err::<NewUser, AuthError>(AuthError::Conflict),
        r matches Ok(n) ==> n.username@ == req.username@ && password_verifies(req.password@, n.password_hash@),
        r matches Err(e) ==> e == AuthError::Conflict || e == AuthError::CredentialHashing,
{
    if username_taken {
        return Err(AuthError::Conflict);
    }
    let hashed = hash_password(req.password.as_str(), PASSWORD_HASH_COST);
    register_with_hash(req, username_taken, hashed)
}

impl RegisterResponse {
    /// The identity returned for a newly created user; the credential stays behind.
    pub fn from_user(user: &User) -> (r: RegisterResponse)
        ensures
            r.id@ == user.id@,
            r.username@ == user.username@,
            r.created_at == user.created_at,
    {
        RegisterResponse { id: user.id.clone(), username: user.username.clone(), created_at: user.created_at }
    }
}

/// Why a login with the user found under the requested name and the
/// provisioned secret fails, if it does before any token is signed.
pub open spec fn login_refusal(req_password: Seq<char>, found: Option<Seq<char>>, secret: Option<Seq<char>>) -> Option<AuthError> {
    match found {
        None => Some(AuthError::InvalidCredentials),
        Some(stored) => if !password_verifies(req_password, stored) {
            Some(AuthError::InvalidCredentials)
        } else if secret is None {
            Some(AuthError::SecretUnavailable)
        } else {
            None
        },
    }
}

/// The stored credential of a looked-up user.
pub open spec fn stored_credential(found: Option<&User>) -> Option<Seq<char>> {
    match found {
        Some(u) => Some(u.password_hash@),
        None => None,
    }
}

/// The view of a provisioned secret.
pub open spec fn secret_view(secret: Option<&str>) -> Option<Seq<char>> {
    match secret {
        Some(s) => Some(s@),
        None => None,
    }
}

/// Logs in at time `now`. `found` is the user that the store holds under
/// `req.username`, if any; `secret` is the provisioned signing secret.
/// The password is checked against the stored salted hash; on success both
/// tokens are signed for the requested username.
pub fn login(req: &LoginRequest, found: Option<&User>, secret: Option<&str>, now: u64) -> (r: Result<LoginResponse, AuthError>)
    ensures
        login_refusal(req.password@, stored_credential(found), secret_view(secret)) matches Some(e)
            ==> r == Err::<LoginResponse, AuthError>(e),
        login_refusal(req.password@, stored_credential(found), secret_view(secret)) is None ==> (r matches Ok(resp)
            && resp.access_token@.len() > 0 && resp.refresh_token@.len() > 0
            && is_token_for(resp.access_token@, req.username@, TokenKind::Access,
                expiry_of(now, ACCESS_TTL_SECS), secret.unwrap().spec_bytes())
            && is_token_for(resp.refresh_token@, req.username@, TokenKind::Refresh,
                expiry_of(now, REFRESH_TTL_SECS), secret.unwrap().spec_bytes())),
{
    let user = match found {
        Some(u) => u,
        None => return Err(AuthError::InvalidCredentials),
    };
    if !check_password(req.password.as_str(), user.password_hash.as_str()) {
        return Err(AuthError::InvalidCredentials);
    }
    let secret = match secret {
        Some(s) => s,
        None => return Err(AuthError::SecretUnavailable),
    };
    let key = secret.as_bytes();
    let access_token = match create_access_token(req.username.as_str(), key, now) {
        Ok(t) => t,
        Err(_) => return Err(AuthError::TokenEncoding),
    };
    let refresh_token = match create_refresh_token(req.username.as_str(), key, now) {
        Ok(t) => t,
        Err(_) => return Err(AuthError::TokenEncoding),
    };
    Ok(LoginResponse { access_token, refresh_token })
}

/// The subject that a token presented for `kind` vouches for at `now`: it must
/// verify and be of that kind.
pub open spec fn accepted_subject(token: Seq<char>, secret: Seq<u8>, now: u64, kind: TokenKind) -> Option<Seq<char>> {
    match verdict(jwt_decoded(token, secret), now) {
        Ok(c) => if c.kind == kind {
            Some(c.sub)
        } else {
            None
        },
        Err(_) => None,
    }
}

/// A refresh token is accepted for the exchange, with its own subject, at every
/// moment before its expiry; an access token never is.
pub proof fn lemma_refresh_accepts_issued(token: Seq<char>, sub: Seq<char>, kind: TokenKind, exp: u64, secret: Seq<u8>, now: u64)
    requires
        is_token_for(token, sub, kind, exp, secret),
    ensures
        kind == TokenKind::Refresh && now < exp ==> accepted_subject(token, secret, now, TokenKind::Refresh) == Some(sub),
        kind == TokenKind::Access ==> accepted_subject(token, secret, now, TokenKind::Refresh) is None,
{
    if now < exp {
        lemma_round_trip(token, sub, kind, exp, secret, now);
    } else {
        lemma_expired(token, sub, kind, exp, 0, secret, now);
    }
}

/// Exchanges a refresh token for a new access token at time `now`. The refresh
/// token must verify under the provisioned secret and be of the refresh kind;
/// it stays valid, so the exchange can be repeated until it expires.
pub fn refresh(req: &RefreshRequest, secret: Option<&str>, now: u64) -> (r: Result<RefreshResponse, AuthError>)
    ensures
        secret is None ==> r == Err::<RefreshResponse, AuthError>(AuthError::SecretUnavailable),
        secret matches Some(s) ==> (accepted_subject(req.refresh_token@, s.spec_bytes(), now, TokenKind::Refresh) is None
            ==> r == Err::<RefreshResponse, AuthError>(AuthError::InvalidToken)),
        secret matches Some(s) ==> (accepted_subject(req.refresh_token@, s.spec_bytes(), now, TokenKind::Refresh) matches Some(sub)
            ==> (r matches Ok(resp) && resp.access_token@.len() > 0
                && is_token_for(resp.access_token@, sub, TokenKind::Access, expiry_of(now, ACCESS_TTL_SECS), s.spec_bytes()))),
{
    let secret = match secret {
        Some(s) => s,
        None => return Err(AuthError::SecretUnavailable),
    };
    let key = secret.as_bytes();
    let claims = match verify_token(req.refresh_token.as_str(), key, now) {
        Ok(c) => c,
        Err(_) => return Err(AuthError::InvalidToken),
    };
    if claims.kind != TokenKind::Refresh {
        return Err(AuthError::InvalidToken);
    }
    match create_access_token(claims.sub.as_str(), key, now) {
        Ok(t) => Ok(RefreshResponse { access_token: t }),
        Err(_) => Err(AuthError::TokenEncoding),
    }
}

} // verus!
