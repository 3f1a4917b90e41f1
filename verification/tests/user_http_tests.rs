use security_suite::users::domain::{DomainError, User};
use security_suite::users::infrastructure::http::dto::UserResponse;
use security_suite::users::infrastructure::http::error_response::map_domain_error;

#[test]
fn user_response_omits_the_password_hash() {
    let user = User::new("johndoe".to_string(), "john@example.com".to_string(), "$argon2id$secret".to_string());
    let response = UserResponse::from(user.clone());
    assert_eq!(response.id, user.id);
    assert_eq!(response.username, "johndoe");
    assert_eq!(response.email, "john@example.com");
    assert_eq!(response.created_at, user.created_at);
    assert_eq!(response.updated_at, user.updated_at);
}

#[test]
fn user_errors_map_to_statuses() {
    let cases = vec![
        (DomainError::NotFound, 404, "Usuario no encontrado"),
        (DomainError::Validation("v".to_string()), 400, "v"),
        (DomainError::Conflict("c".to_string()), 409, "c"),
        (DomainError::Repository("secret detail".to_string()), 500, "Error interno del servidor"),
        (DomainError::Unauthorized, 401, "Credenciales inválidas"),
        (DomainError::Hashing("h".to_string()), 500, "Error interno del servidor"),
    ];
    for (err, code, text) in cases {
        let (c, body) = map_domain_error(err);
        assert_eq!(c, code);
        assert_eq!(body.error, text);
    }
}

#[test]
fn user_error_texts() {
    assert_eq!(DomainError::Validation("x".to_string()).message(), "Error de validación: x");
    assert_eq!(DomainError::Hashing("y".to_string()).message(), "Error al hashear la contraseña: y");
    assert_eq!(DomainError::Unauthorized.message(), "Credenciales inválidas");
}
