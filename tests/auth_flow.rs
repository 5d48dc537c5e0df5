use jwt_auth::auth::{
    login, refresh, register, register_with_hash, AuthError, LoginRequest, RefreshRequest,
    RegisterRequest, RegisterResponse,
};
use jwt_auth::gate::{bearer_token, AuthMiddleware};
use jwt_auth::jwt::{issue_token, verify_token, TokenKind};
use jwt_auth::models::User;

const SECRET: &str = "flow-secret";

fn now_secs() -> u64 {
    std::time::SystemTime::now()
        .duration_since(std::time::UNIX_EPOCH)
        .unwrap()
        .as_secs()
}

struct MemStore {
    users: Vec<User>,
}

impl MemStore {
    fn new() -> MemStore {
        MemStore { users: Vec::new() }
    }

    fn find(&self, username: &str) -> Option<&User> {
        self.users.iter().find(|u| u.username == username)
    }

    fn register(&mut self, username: &str, password: &str) -> Result<RegisterResponse, AuthError> {
        let req = RegisterRequest { username: username.to_string(), password: password.to_string() };
        let new_user = register(&req, self.find(username).is_some())?;
        let user = User {
            id: format!("id-{}", self.users.len()),
            username: new_user.username,
            password_hash: new_user.password_hash,
            created_at: Some(1_700_000_000),
        };
        let resp = RegisterResponse::from_user(&user);
        self.users.push(user);
        Ok(resp)
    }

    fn login(&self, username: &str, password: &str) -> Result<jwt_auth::auth::LoginResponse, AuthError> {
        let req = LoginRequest { username: username.to_string(), password: password.to_string() };
        login(&req, self.find(username), Some(SECRET), now_secs())
    }
}

#[test]
fn login_scenario() {
    let mut store = MemStore::new();
    let created = store.register("alice", "pw1").unwrap();
    assert_eq!(created.username, "alice");
    assert_eq!(created.id, "id-0");
    assert_eq!(created.created_at, Some(1_700_000_000));

    let tokens = store.login("alice", "pw1").unwrap();
    assert!(!tokens.access_token.is_empty());
    assert!(!tokens.refresh_token.is_empty());
    let access = verify_token(&tokens.access_token, SECRET.as_bytes(), now_secs()).unwrap();
    assert_eq!(access.sub, "alice");
    assert_eq!(access.kind, TokenKind::Access);
    let refresh_claims = verify_token(&tokens.refresh_token, SECRET.as_bytes(), now_secs()).unwrap();
    assert_eq!(refresh_claims.kind, TokenKind::Refresh);

    let wrong = store.login("alice", "wrong").unwrap_err();
    assert_eq!(wrong, AuthError::InvalidCredentials);
    assert_eq!(wrong.status(), 401);
    let unknown = store.login("bob", "pw1").unwrap_err();
    assert_eq!(unknown, AuthError::InvalidCredentials);
    assert_eq!(unknown.status(), 401);
}

#[test]
fn duplicate_registration() {
    let mut store = MemStore::new();
    assert!(store.register("alice", "pw1").is_ok());
    let second = store.register("alice", "pw1").unwrap_err();
    assert_eq!(second, AuthError::Conflict);
    assert_eq!(second.status(), 400);
    assert_eq!(store.users.iter().filter(|u| u.username == "alice").count(), 1);
}

fn user_with_password(username: &str, password: &str) -> User {
    let req = RegisterRequest { username: username.to_string(), password: password.to_string() };
    let n = register(&req, false).unwrap();
    User { id: "u1".to_string(), username: n.username, password_hash: n.password_hash, created_at: None }
}

#[test]
fn register_stores_salted_hash() {
    let req = RegisterRequest { username: "dora".to_string(), password: "s3cret".to_string() };
    let a = register(&req, false).unwrap();
    let b = register(&req, false).unwrap();
    assert_eq!(a.username, "dora");
    assert_ne!(a.password_hash, "s3cret");
    assert!(a.password_hash.starts_with("$2"));
    assert_ne!(a.password_hash, b.password_hash);
    assert_eq!(register(&req, true).unwrap_err(), AuthError::Conflict);
}

#[test]
fn register_with_hash_outcomes() {
    let req = RegisterRequest { username: "erin".to_string(), password: "pw".to_string() };
    let n = register_with_hash(&req, false, Some("HASH".to_string())).unwrap();
    assert_eq!(n.username, "erin");
    assert_eq!(n.password_hash, "HASH");
    assert_eq!(register_with_hash(&req, false, None).unwrap_err(), AuthError::CredentialHashing);
    assert_eq!(register_with_hash(&req, true, Some("HASH".to_string())).unwrap_err(), AuthError::Conflict);
    assert_eq!(AuthError::CredentialHashing.status(), 500);
}

#[test]
fn usernames_are_case_sensitive() {
    let mut store = MemStore::new();
    store.register("alice", "pw1").unwrap();
    store.register("Alice", "pw2").unwrap();
    assert_eq!(store.users.len(), 2);
    assert!(store.login("Alice", "pw2").is_ok());
    assert_eq!(store.login("Alice", "pw1").unwrap_err(), AuthError::InvalidCredentials);
}

#[test]
fn login_without_secret() {
    let user = user_with_password("alice", "pw1");
    let req = LoginRequest { username: "alice".to_string(), password: "pw1".to_string() };
    let e = login(&req, Some(&user), None, 100).unwrap_err();
    assert_eq!(e, AuthError::SecretUnavailable);
    assert_eq!(e.status(), 500);
    let bad = LoginRequest { username: "alice".to_string(), password: "pw2".to_string() };
    assert_eq!(login(&bad, Some(&user), None, 100).unwrap_err(), AuthError::InvalidCredentials);
}

#[test]
fn plaintext_credential_never_matches() {
    let user = User {
        id: "u1".to_string(),
        username: "alice".to_string(),
        password_hash: "pw1".to_string(),
        created_at: None,
    };
    let req = LoginRequest { username: "alice".to_string(), password: "pw1".to_string() };
    assert_eq!(login(&req, Some(&user), Some(SECRET), 100).unwrap_err(), AuthError::InvalidCredentials);
}

#[test]
fn login_sets_expiries() {
    let user = user_with_password("alice", "pw1");
    let req = LoginRequest { username: "alice".to_string(), password: "pw1".to_string() };
    let resp = login(&req, Some(&user), Some(SECRET), 100).unwrap();
    let key = SECRET.as_bytes();
    assert_eq!(verify_token(&resp.access_token, key, 100).unwrap().exp, 3700);
    assert_eq!(verify_token(&resp.refresh_token, key, 100).unwrap().exp, 604900);
    assert_eq!(verify_token(&resp.access_token, key, 100).unwrap().sub, "alice");
}

#[test]
fn refresh_can_be_repeated() {
    let key = SECRET.as_bytes();
    let rt = issue_token("alice", TokenKind::Refresh, 600, 100, key).unwrap();
    let req = RefreshRequest { refresh_token: rt };
    let first = refresh(&req, Some(SECRET), 200).unwrap();
    let second = refresh(&req, Some(SECRET), 300).unwrap();
    assert_eq!(verify_token(&first.access_token, key, 200).unwrap().exp, 3800);
    assert_eq!(verify_token(&second.access_token, key, 300).unwrap().exp, 3900);
}

#[test]
fn refresh_scenario() {
    let mut store = MemStore::new();
    store.register("alice", "pw1").unwrap();
    let tokens = store.login("alice", "pw1").unwrap();
    let req = RefreshRequest { refresh_token: tokens.refresh_token.clone() };
    let resp = refresh(&req, Some(SECRET), now_secs()).unwrap();
    let c = verify_token(&resp.access_token, SECRET.as_bytes(), now_secs()).unwrap();
    assert_eq!(c.sub, "alice");
    assert_eq!(c.kind, TokenKind::Access);

    let garbage = RefreshRequest { refresh_token: "not-a-token".to_string() };
    let e = refresh(&garbage, Some(SECRET), now_secs()).unwrap_err();
    assert_eq!(e, AuthError::InvalidToken);
    assert_eq!(e.status(), 401);
}

#[test]
fn refresh_rejects_access_token_and_missing_secret() {
    let key = SECRET.as_bytes();
    let access = issue_token("alice", TokenKind::Access, 60, 100, key).unwrap();
    let req = RefreshRequest { refresh_token: access };
    assert_eq!(refresh(&req, Some(SECRET), 120).unwrap_err(), AuthError::InvalidToken);
    assert_eq!(refresh(&req, None, 120).unwrap_err(), AuthError::SecretUnavailable);
}

#[test]
fn refresh_at_expiry() {
    let key = SECRET.as_bytes();
    let rt = issue_token("alice", TokenKind::Refresh, 60, 100, key).unwrap();
    let req = RefreshRequest { refresh_token: rt };
    let resp = refresh(&req, Some(SECRET), 159).unwrap();
    let c = verify_token(&resp.access_token, key, 159).unwrap();
    assert_eq!(c.exp, 3759);
    assert_eq!(c.sub, "alice");
    assert_eq!(refresh(&req, Some(SECRET), 160).unwrap_err(), AuthError::InvalidToken);
}

#[test]
fn gate_enforcement() {
    let gate = AuthMiddleware { jwt_secret: SECRET.to_string() };
    let key = SECRET.as_bytes();
    let missing = gate.authorize(None, now_secs()).unwrap_err();
    assert_eq!(missing, AuthError::InvalidToken);
    assert_eq!(missing.status(), 401);

    let access = jwt_auth::jwt::create_access_token("alice", key, now_secs()).unwrap();
    let header = format!("Bearer {}", access);
    let c = gate.authorize(Some(&header), now_secs()).unwrap();
    assert_eq!(c.sub, "alice");

    let expired = issue_token("alice", TokenKind::Access, 0, now_secs(), key).unwrap();
    let header = format!("Bearer {}", expired);
    assert_eq!(gate.authorize(Some(&header), now_secs()).unwrap_err(), AuthError::InvalidToken);
}

#[test]
fn gate_rejects_refresh_and_bad_schemes() {
    let gate = AuthMiddleware { jwt_secret: SECRET.to_string() };
    let key = SECRET.as_bytes();
    let rt = issue_token("alice", TokenKind::Refresh, 60, 100, key).unwrap();
    let at = issue_token("alice", TokenKind::Access, 60, 100, key).unwrap();
    assert_eq!(gate.authorize(Some(&format!("Bearer {}", rt)), 110).unwrap_err(), AuthError::InvalidToken);
    assert!(gate.authorize(Some(&format!("Bearer {}", at)), 110).is_ok());
    assert_eq!(gate.authorize(Some(&format!("Bearer {}", at)), 160).unwrap_err(), AuthError::InvalidToken);
    assert_eq!(gate.authorize(Some(&format!("bearer {}", at)), 110).unwrap_err(), AuthError::InvalidToken);
    assert_eq!(gate.authorize(Some(&at), 110).unwrap_err(), AuthError::InvalidToken);
    assert_eq!(gate.authorize(Some("Bearer garbage"), 110).unwrap_err(), AuthError::InvalidToken);
}

#[test]
fn bearer_token_parsing() {
    assert_eq!(bearer_token("Bearer abc"), Some("abc"));
    assert_eq!(bearer_token("Bearer "), Some(""));
    assert_eq!(bearer_token("Bearer  x"), Some(" x"));
    assert_eq!(bearer_token("Bearer"), None);
    assert_eq!(bearer_token("Basic abc"), None);
    assert_eq!(bearer_token(""), None);
    assert_eq!(bearer_token("Bearer ünï"), Some("ünï"));
}

#[test]
fn error_statuses() {
    assert_eq!(AuthError::Conflict.status(), 400);
    assert_eq!(AuthError::InvalidCredentials.status(), 401);
    assert_eq!(AuthError::InvalidToken.status(), 401);
    assert_eq!(AuthError::SecretUnavailable.status(), 500);
    assert_eq!(AuthError::StoreFailure.status(), 500);
    assert_eq!(AuthError::TokenEncoding.status(), 500);
    assert_eq!(AuthError::InvalidCredentials.message(), "Invalid username or password");
}

#[test]
fn error_messages() {
    assert_eq!(AuthError::Conflict.message(), "User already exists");
    assert_eq!(AuthError::InvalidToken.message(), "Unauthorized");
    assert_eq!(AuthError::SecretUnavailable.message(), "JWT secret not configured");
    assert_eq!(AuthError::StoreFailure.message(), "Storage error");
    assert_eq!(AuthError::TokenEncoding.message(), "Token error");
}
