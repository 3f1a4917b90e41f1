//! Login, access tokens and bearer authentication.

use security_suite::shared::auth::claims::Claims;
use security_suite::shared::auth::error::AuthError;
use security_suite::shared::auth::jwt::JwtService;
use security_suite::shared::ids::{parse_uuid, uuid_to_string};
use security_suite::users::application::login_service::LoginService;
use security_suite::users::application::service::UserService;
use security_suite::users::domain::{DomainError, User};
use security_suite::users::infrastructure::http::auth::{AuthRejection, AuthenticatedUser};
use security_suite::users::infrastructure::http::dto::LoginResponse;
use security_suite::users::infrastructure::http::error_response::map_domain_error;

fn stored_user(password: &str) -> User {
    let hash = UserService::hash_password(password).unwrap();
    User::new("testuser".to_string(), "test@example.com".to_string(), hash)
}

fn login_service() -> LoginService {
    LoginService::new(JwtService::new("test-secret", 3600))
}

/// The claims of a verified token, read back the way the HTTP adapter reads them.
fn claims_of(json: &str) -> Claims {
    let v: serde_json::Value = serde_json::from_str(json).unwrap();
    Claims {
        sub: v["sub"].as_str().unwrap().to_string(),
        jti: v["jti"].as_str().unwrap().to_string(),
        exp: v["exp"].as_u64().unwrap() as usize,
        iat: v["iat"].as_u64().unwrap() as usize,
    }
}

#[test]
fn login_exitoso_devuelve_token() {
    let user = stored_user("supersecret123");
    let token = login_service().login(Ok(Some(user.clone())), "supersecret123").unwrap();
    let body = LoginResponse::bearer(token.clone());
    assert_eq!(body.token_type, "Bearer");
    assert_eq!(body.access_token, token);
    assert!(!body.access_token.is_empty());
    assert_eq!(token.split('.').count(), 3);

    // The token checks out and speaks for the user.
    let jwt = JwtService::new("test-secret", 3600);
    let claims = claims_of(&jwt.validate_token(&token).unwrap());
    assert_eq!(claims.sub, uuid::Uuid::from_u128(user.id).to_string());
    assert_eq!(claims.exp, claims.iat + 3600);
    let who = AuthenticatedUser::from_claims(&claims).unwrap();
    assert_eq!(who.user_id, user.id);
}

#[test]
fn login_falla_con_password_incorrecta() {
    let user = stored_user("supersecret123");
    let err = login_service().login(Ok(Some(user)), "passwordincorrecta").unwrap_err();
    assert!(matches!(err, DomainError::Unauthorized));
    let (code, body) = map_domain_error(err);
    assert_eq!(code, 401);
    assert_eq!(body.error, "Credenciales inválidas");
}

#[test]
fn login_falla_con_email_inexistente() {
    let err = login_service().login(Ok(None), "supersecret123").unwrap_err();
    assert!(matches!(err, DomainError::Unauthorized));
    assert_eq!(map_domain_error(err).0, 401);
}

#[test]
fn login_passes_repository_errors_through() {
    let err = login_service().login(Err(DomainError::Repository("down".to_string())), "x").unwrap_err();
    assert!(matches!(err, DomainError::Repository(m) if m == "down"));
}

#[test]
fn login_with_unparsable_hash_is_a_hashing_error() {
    let user = User::new("u".to_string(), "u@x.io".to_string(), "not-a-phc-string".to_string());
    let err = login_service().login(Ok(Some(user)), "whatever1").unwrap_err();
    assert!(matches!(err, DomainError::Hashing(_)));
    assert_eq!(map_domain_error(err).0, 500);
}

#[test]
fn token_signed_with_another_secret_is_rejected() {
    let token = JwtService::new("secret-a", 3600).create_token("someone").unwrap();
    assert_eq!(JwtService::new("secret-b", 3600).validate_token(&token), Err(AuthError::InvalidToken));
    assert!(JwtService::new("secret-a", 3600).validate_token(&token).is_ok());
    assert_eq!(JwtService::new("x", 1).validate_token("garbage"), Err(AuthError::InvalidToken));
}

#[test]
fn expired_token_is_rejected() {
    // Expired well beyond the default leeway of 60 seconds.
    let token = JwtService::new("s", -3600).create_token("someone").unwrap();
    assert_eq!(JwtService::new("s", -3600).validate_token(&token), Err(AuthError::InvalidToken));
}

#[test]
fn token_claims_are_framed_as_serde_json_writes_them() {
    let token = JwtService::new("s", 60).create_token("a\"b\\c\n").unwrap();
    let json = JwtService::new("s", 60).validate_token(&token).unwrap();
    assert!(json.starts_with("{\"sub\":\"a\\\"b\\\\c\\n\",\"jti\":\""));
    let claims = claims_of(&json);
    assert_eq!(claims.sub, "a\"b\\c\n");
    assert!(parse_uuid(&claims.jti).is_some());
    assert_eq!(claims.exp, claims.iat + 60);
}

#[test]
fn claims_json_exact_text() {
    let c = Claims { sub: "u\u{1}\t".to_string(), jti: "é".to_string(), exp: 10, iat: 1234567890 };
    assert_eq!(c.to_json(), "{\"sub\":\"u\\u0001\\t\",\"jti\":\"é\",\"exp\":10,\"iat\":1234567890}");
    let c = Claims { sub: String::new(), jti: "\u{8}\u{c}\r\u{1f}".to_string(), exp: 0, iat: usize::MAX };
    assert_eq!(c.to_json(), format!("{{\"sub\":\"\",\"jti\":\"\\b\\f\\r\\u001f\",\"exp\":0,\"iat\":{}}}", usize::MAX));
}

#[test]
fn bearer_header_handling() {
    assert_eq!(AuthenticatedUser::bearer_token(None), Err(AuthRejection::MissingHeader));
    assert_eq!(AuthenticatedUser::bearer_token(Some(None)), Err(AuthRejection::InvalidHeader));
    assert_eq!(AuthenticatedUser::bearer_token(Some(Some("Basic abc"))), Err(AuthRejection::InvalidScheme));
    assert_eq!(AuthenticatedUser::bearer_token(Some(Some("bearer abc"))), Err(AuthRejection::InvalidScheme));
    assert_eq!(AuthenticatedUser::bearer_token(Some(Some("Bearer abc"))), Ok("abc"));
    assert_eq!(AuthenticatedUser::bearer_token(Some(Some("Bearer "))), Ok(""));
    assert_eq!(AuthRejection::MissingHeader.message(), "Missing Authorization header");
    assert_eq!(AuthRejection::InvalidToken.status(), 401);
}

#[test]
fn check_token_end_to_end() {
    let jwt = JwtService::new("k", 600);
    let token = jwt.create_token(&uuid_to_string(7)).unwrap();
    let header = format!("Bearer {token}");
    let json = AuthenticatedUser::check_token(&jwt, Some(Some(&header))).unwrap();
    let who = AuthenticatedUser::from_claims(&claims_of(&json)).unwrap();
    assert_eq!(who.user_id, 7);
    assert_eq!(AuthenticatedUser::check_token(&jwt, Some(Some("Bearer nope"))), Err(AuthRejection::InvalidToken));
}

#[test]
fn claims_with_non_uuid_ids_are_rejected() {
    let good = uuid_to_string(1);
    let c = Claims { sub: "x".to_string(), jti: good.clone(), exp: 0, iat: 0 };
    assert!(matches!(AuthenticatedUser::from_claims(&c), Err(AuthRejection::InvalidUserId)));
    let c = Claims { sub: good.clone(), jti: "y".to_string(), exp: 0, iat: 0 };
    assert!(matches!(AuthenticatedUser::from_claims(&c), Err(AuthRejection::InvalidTokenId)));
}

#[test]
fn uuid_text_matches_the_uuid_crate() {
    for v in [0u128, 1, u128::MAX, 0x0123_4567_89ab_cdef_0123_4567_89ab_cdef, 0xf000_c000_0000_0000_0000] {
        let text = uuid_to_string(v);
        assert_eq!(text, uuid::Uuid::from_u128(v).to_string());
        assert_eq!(parse_uuid(&text), Some(v));
    }
    assert_eq!(parse_uuid("not a uuid"), None);
}

#[test]
fn auth_error_texts() {
    assert_eq!(AuthError::InvalidToken.message(), "invalid token");
    assert_eq!(AuthError::TokenCreation.message(), "token creation failed");
}

#[test]
fn validate_token_gives_back_the_payload_claims() {
    let jwt = JwtService::new("k", 600);
    let token = jwt.create_token("user-1").unwrap();
    let json = jwt.validate_token(&token).unwrap();
    let claims = claims_of(&json);
    assert_eq!(claims.sub, "user-1");
    assert_eq!(json, claims.to_json());
    let tampered = format!("{}x", token);
    assert_eq!(jwt.validate_token(&tampered), Err(AuthError::InvalidToken));
}

#[test]
fn hashes_are_argon2id_and_salted_per_call() {
    let a = UserService::hash_password("supersecret123").unwrap();
    let b = UserService::hash_password("supersecret123").unwrap();
    assert!(a.starts_with("$argon2id$"));
    assert!(b.starts_with("$argon2id$"));
    assert_ne!(a, b);
    assert_ne!(a, "supersecret123");
    assert!(UserService::verify_password("supersecret123", &a).unwrap());
    assert!(UserService::verify_password("supersecret123", &b).unwrap());
}

#[test]
fn check_token_reads_the_text_after_the_scheme() {
    let jwt = JwtService::new("k", 600);
    let token = jwt.create_token(&uuid_to_string(42)).unwrap();
    let header = format!("Bearer {token}");
    let json = AuthenticatedUser::check_token(&jwt, Some(Some(header.as_str()))).unwrap();
    assert_eq!(json, jwt.validate_token(&token).unwrap());
    let doubled = format!("Bearer Bearer {token}");
    assert_eq!(AuthenticatedUser::check_token(&jwt, Some(Some(doubled.as_str()))), Err(AuthRejection::InvalidToken));
    let other = JwtService::new("k2", 600);
    assert_eq!(AuthenticatedUser::check_token(&other, Some(Some(header.as_str()))), Err(AuthRejection::InvalidToken));
}
