use fastdatabroker::admin_api::error::AdminApiError;
use fastdatabroker::auth::handlers::{AuthHandlers, AuthReply};
use fastdatabroker::auth::middleware::{extract_token, AuthMiddleware};
use fastdatabroker::auth::{AuthConfig, Authorization, CreateUserRequest, LoginRequest, User};

fn admin_user() -> User {
    User {
        username: "admin".to_string(),
        email: "admin@example.com".to_string(),
        password_hash: Authorization::hash_password("password123"),
        roles: vec!["admin".to_string()],
        enabled: true,
        created_at: 1_700_000_000,
        last_login: None,
        active_tokens: Vec::new(),
    }
}

fn config(users: Vec<User>) -> AuthConfig {
    AuthConfig { users, token_expiry_hours: 24, jwt_secret: "secret".to_string() }
}

#[test]
fn test_password_hashing() {
    let password = "test123";
    let hash = Authorization::hash_password(password);
    assert!(Authorization::verify_password(password, &hash));
    assert!(!Authorization::verify_password("wrong", &hash));
}

#[test]
fn password_hash_is_sha256_hex() {
    // SHA-256 of "abc".
    assert_eq!(
        Authorization::hash_password("abc"),
        "ba7816bf8f01cfea414140de5dae2223b00361a396177a9cb410ff61f20015ad"
    );
}

#[test]
fn test_user_authentication() {
    let users = vec![admin_user()];
    let mut auth = Authorization::new(config(users));

    let token = auth.authenticate("admin", "password123").unwrap();
    assert!(token.token.len() > 0);

    let (user, role) = auth.validate_token(&token.token).unwrap();
    assert_eq!(user, "admin");
    assert_eq!(role, "admin");
}

#[test]
fn login_then_validate_law_example() {
    let mut auth = Authorization::new(config(vec![admin_user()]));
    let token = auth.authenticate_at("admin", "password123", 1_700_000_100).unwrap();
    assert_eq!(token.user, "admin");
    assert_eq!(token.expires_at, 1_700_000_100 + 24 * 3600);
    assert!(auth.validate_token(&token.token).is_ok());
}

#[test]
fn wrong_password_and_unknown_user_are_refused() {
    let mut auth = Authorization::new(config(vec![admin_user()]));
    assert!(auth.authenticate("admin", "nope").is_err());
    assert!(auth.authenticate("ghost", "password123").is_err());
}

#[test]
fn disabled_account_tokens_fail() {
    let mut auth = Authorization::new(config(vec![admin_user()]));
    let token = auth.authenticate("admin", "password123").unwrap();
    assert!(auth.disable_user("admin").is_ok());
    assert!(auth.validate_token(&token.token).is_err());
    assert!(auth.authenticate("admin", "password123").is_err());
    assert!(auth.enable_user("admin").is_ok());
    assert!(auth.authenticate("admin", "password123").is_ok());
}

#[test]
fn create_user_and_change_password() {
    let mut auth = Authorization::new(config(vec![admin_user()]));
    let req = CreateUserRequest {
        username: "bob".to_string(),
        email: "bob@example.com".to_string(),
        password: "pw1".to_string(),
        roles: vec!["viewer".to_string()],
    };
    assert!(auth.create_user(req.clone()).is_ok());
    assert!(auth.create_user(req).is_err()); // duplicate
    assert_eq!(auth.list_users().len(), 2);
    assert!(auth.get_user("bob").is_some());
    assert!(auth.change_password("bob", "wrong", "pw2").is_err());
    assert!(auth.change_password("bob", "pw1", "pw2").is_ok());
    assert!(auth.authenticate("bob", "pw2").is_ok());
    assert!(auth.authenticate("bob", "pw1").is_err());
}

#[test]
fn revoked_token_no_longer_validates() {
    let mut auth = Authorization::new(config(vec![admin_user()]));
    let token = auth.authenticate("admin", "password123").unwrap();
    assert!(auth.revoke_token(&token.token).is_ok());
    assert!(auth.validate_token(&token.token).is_err());
    assert!(auth.revoke_token(&token.token).is_err());
}

#[test]
fn bearer_token_extraction() {
    assert_eq!(extract_token(Some("Bearer abc")), Some("abc".to_string()));
    assert_eq!(extract_token(Some("Basic abc")), None);
    assert_eq!(extract_token(None), None);
}

#[test]
fn middleware_admits_public_paths() {
    let m = AuthMiddleware;
    assert!(m.admits("/api/auth/login", None));
}

#[test]
fn handlers_login_and_admin_refusals() {
    let mut h = AuthHandlers::new(config(vec![admin_user()]));
    let reply = h.login(&LoginRequest { username: "admin".to_string(), password: "password123".to_string() });
    let token = match reply {
        AuthReply::LoggedIn { token, expires_in_seconds } => {
            assert_eq!(expires_in_seconds, 24 * 3600);
            token.token
        }
        other => panic!("unexpected reply {:?}", other),
    };
    match h.list_users(None) {
        AuthReply::Failed { status, .. } => assert_eq!(status, 401),
        other => panic!("unexpected reply {:?}", other),
    }
    let header = format!("Bearer {}", token);
    match h.list_users(Some(&header)) {
        AuthReply::Users { users } => assert_eq!(users.len(), 1),
        other => panic!("unexpected reply {:?}", other),
    }
    match h.login(&LoginRequest { username: "admin".to_string(), password: "bad".to_string() }) {
        AuthReply::Failed { status, .. } => assert_eq!(status, 401),
        other => panic!("unexpected reply {:?}", other),
    }
}

#[test]
fn admin_api_error_answers() {
    let e = AdminApiError::NotFound("tenant".to_string());
    assert_eq!(e.status_code(), 404);
    assert_eq!(e.error_code(), "NOT_FOUND");
    assert_eq!(e.to_string(), "Not found: tenant");
    assert_eq!(AdminApiError::BrokerError("x".to_string()).status_code(), 502);
    assert_eq!(AdminApiError::Conflict("x".to_string()).status_code(), 409);
}
