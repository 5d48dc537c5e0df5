use vstd::prelude::*;
use vstd::utf8::encode_utf8;
use crate::auth::{accepted_subject, AuthError};
use crate::jwt::{is_token_for, lemma_expired, lemma_round_trip, jwt_decoded, verdict, verify_token, Claims, ClaimsView, TokenKind};

verus! {

/// The scheme prefix of a bearer credential.
pub open spec fn bearer_prefix() -> Seq<char> {
    "Bearer "@
}

/// The token of an `Authorization` header value of the form `Bearer <token>`.
pub open spec fn bearer_of(header: Seq<char>) -> Option<Seq<char>> {
    if header.len() >= bearer_prefix().len() && header.subrange(0, bearer_prefix().len() as int) == bearer_prefix() {
        Some(header.subrange(bearer_prefix().len() as int, header.len() as int))
    } else {
        None
    }
}

/// Extracts the token from an `Authorization` header value of the form
/// `Bearer <token>`.
pub fn bearer_token(header: &str) -> (r: Option<&str>)
    ensures
        r matches Some(t) ==> bearer_of(header@) == Some(t@),
        r is None ==> bearer_of(header@) is None,
{
    let prefix = "Bearer ";
    proof {
        reveal_strlit("Bearer ");
    }
    let n = header.unicode_len();
    let m = prefix.unicode_len();
    if n < m {
        return None;
    }
    let mut i: usize = 0;
    while i < m
        invariant
            m == prefix@.len(),
            m <= n,
            n == header@.len(),
            prefix@ == bearer_prefix(),
            i <= m,
            forall|j: int| 0 <= j < i ==> header@[j] == prefix@[j],
        decreases m - i,
    {
        if header.get_char(i) != prefix.get_char(i) {
            assert(header@.subrange(0, m as int)[i as int] != bearer_prefix()[i as int]);
            return None;
        }
        i = i + 1;
    }
    assert(header@.subrange(0, m as int) =~= bearer_prefix());
    Some(header.substring_char(m, n))
}

/// The claims that the middleware accepts from an `Authorization` header at `now`:
/// a bearer token that verifies under `secret` and is an access token.
pub open spec fn gate_decision(header: Option<Seq<char>>, secret: Seq<u8>, now: u64) -> Result<ClaimsView, AuthError> {
    match header {
        None => Err(AuthError::InvalidToken),
        Some(h) => match bearer_of(h) {
            None => Err(AuthError::InvalidToken),
            Some(t) => match verdict(jwt_decoded(t, secret), now) {
                Ok(c) => if c.kind == TokenKind::Access {
                    Ok(c)
                } else {
                    Err(AuthError::InvalidToken)
                },
                Err(_) => Err(AuthError::InvalidToken),
            },
        },
    }
}

/// A bearer header carrying an access token is forwarded with that token's
/// claims at every moment before its expiry; from its expiry on, and for a
/// refresh token at any moment, the request is rejected.
pub proof fn lemma_gate_on_issued_token(token: Seq<char>, sub: Seq<char>, kind: TokenKind, exp: u64, secret: Seq<u8>, now: u64)
    requires
        is_token_for(token, sub, kind, exp, secret),
    ensures
        kind == TokenKind::Access && now < exp
            ==> gate_decision(Some(bearer_prefix() + token), secret, now) == Ok::<ClaimsView, AuthError>(ClaimsView { sub, exp, kind }),
        kind == TokenKind::Refresh || now >= exp
            ==> gate_decision(Some(bearer_prefix() + token), secret, now) == Err::<ClaimsView, AuthError>(AuthError::InvalidToken),
{
    let h = bearer_prefix() + token;
    assert(h.subrange(0, bearer_prefix().len() as int) =~= bearer_prefix());
    assert(h.subrange(bearer_prefix().len() as int, h.len() as int) =~= token);
    if now < exp {
        lemma_round_trip(token, sub, kind, exp, secret, now);
    } else {
        lemma_expired(token, sub, kind, exp, 0, secret, now);
    }
}

/// A request without an `Authorization` header is rejected.
pub proof fn lemma_gate_without_header(secret: Seq<u8>, now: u64)
    ensures
        gate_decision(None, secret, now) == Err::<ClaimsView, AuthError>(AuthError::InvalidToken),
{
}

/// The model of an authorization result.
pub open spec fn gate_view(r: Result<Claims, AuthError>) -> Result<ClaimsView, AuthError> {
    match r {
        Ok(c) => Ok(c@),
        Err(e) => Err(e),
    }
}

/// The view of an optional header value.
pub open spec fn header_view(header: Option<&str>) -> Option<Seq<char>> {
    match header {
        Some(h) => Some(h@),
        None => None,
    }
}

/// Guards the protected routes: a request is forwarded only with a valid,
/// unexpired access token presented as a bearer credential.
#[derive(Clone, Debug)]
pub struct AuthMiddleware {
    pub jwt_secret: String,
}

impl AuthMiddleware {
    /// Decides on a request whose `Authorization` header is `header` at time
    /// `now`: the verified claims to forward with, or the rejection.
    pub fn authorize(&self, header: Option<&str>, now: u64) -> (r: Result<Claims, AuthError>)
        ensures
            gate_view(r) == gate_decision(header_view(header), encode_utf8(self.jwt_secret@), now),
    {
        let h = match header {
            Some(h) => h,
            None => return Err(AuthError::InvalidToken),
        };
        let token = match bearer_token(h) {
            Some(t) => t,
            None => return Err(AuthError::InvalidToken),
        };
        match verify_token(token, self.jwt_secret.as_str().as_bytes(), now) {
            Ok(c) => if c.kind == TokenKind::Access {
                Ok(c)
            } else {
                Err(AuthError::InvalidToken)
            },
            Err(_) => Err(AuthError::InvalidToken),
        }
    }
}

} // verus!
