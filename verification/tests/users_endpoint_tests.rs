//! The users endpoints, one level below HTTP: each request goes through
//! the use case (against an in-memory store), the bearer authentication
//! where the route asks for it, and the mapping of errors to statuses.

use std::collections::HashMap;

use security_suite::shared::auth::claims::Claims;
use security_suite::shared::auth::jwt::JwtService;
use security_suite::shared::ids::{new_uuid_v4, uuid_to_string};
use security_suite::shared::pagination::{PaginatedResult, PendingPage};
use security_suite::users::application::service::{RegisterStep, UserService, UserUpdateStep};
use security_suite::users::domain::{DomainError, User};
use security_suite::users::infrastructure::http::auth::AuthenticatedUser;
use security_suite::users::infrastructure::http::dto::UserResponse;
use security_suite::users::infrastructure::http::error_response::map_domain_error;

const SECRET: &str = "test-secret";

struct App {
    users: HashMap<u128, User>,
    jwt: JwtService,
}

fn build_app() -> App {
    App { users: HashMap::new(), jwt: JwtService::new(SECRET, 3600) }
}

fn token_for(id: &str) -> String {
    JwtService::new(SECRET, 3600).create_token(id).unwrap()
}

fn status_of(e: DomainError) -> u16 {
    map_domain_error(e).0
}

impl App {
    fn find_by_email(&self, email: &str) -> Result<Option<User>, DomainError> {
        Ok(self.users.values().find(|u| u.email == email).cloned())
    }

    fn find_by_id(&self, id: u128) -> Result<Option<User>, DomainError> {
        Ok(self.users.get(&id).cloned())
    }

    fn authenticate(&self, token: &str) -> Result<AuthenticatedUser, u16> {
        let header = format!("Bearer {token}");
        let json = AuthenticatedUser::check_token(&self.jwt, Some(Some(header.as_str()))).map_err(|r| r.status())?;
        let v: serde_json::Value = serde_json::from_str(&json).unwrap();
        let claims = Claims {
            sub: v["sub"].as_str().unwrap().to_string(),
            jti: v["jti"].as_str().unwrap().to_string(),
            exp: v["exp"].as_u64().unwrap() as usize,
            iat: v["iat"].as_u64().unwrap() as usize,
        };
        AuthenticatedUser::from_claims(&claims).map_err(|r| r.status())
    }

    /// `POST /api/v1/users`: 201 and the created user, or the error's status.
    fn post_user(&mut self, username: &str, email: &str, password: &str) -> Result<(u16, UserResponse), u16> {
        let mut step = UserService::register_user(username.to_string(), email.to_string(), password.to_string());
        loop {
            step = match step {
                RegisterStep::LookupEmail(registration, email) => {
                    registration.after_email_lookup(self.find_by_email(&email))
                }
                RegisterStep::Create(user) => {
                    self.users.insert(user.id, user.clone());
                    return Ok((201, UserResponse::from(user)));
                }
                RegisterStep::Done(Ok(user)) => return Ok((201, UserResponse::from(user))),
                RegisterStep::Done(Err(e)) => return Err(status_of(e)),
            };
        }
    }

    /// `GET /api/v1/users/:id`, behind the bearer check.
    fn get_user(&self, id: u128, token: &str) -> Result<(u16, UserResponse), u16> {
        self.authenticate(token)?;
        UserService::found_or_not_found(self.find_by_id(id))
            .map(|u| (200, UserResponse::from(u)))
            .map_err(status_of)
    }

    /// `PUT /api/v1/users/:id`.
    fn put_user(&mut self, id: u128, username: Option<&str>, email: Option<&str>) -> Result<(u16, UserResponse), u16> {
        let update = UserService::update_user(id, username.map(String::from), email.map(String::from));
        let mut step = update.after_lookup(self.find_by_id(id));
        loop {
            step = match step {
                UserUpdateStep::LookupEmail(pending, email) => pending.after_email_lookup(self.find_by_email(&email)),
                UserUpdateStep::Save(user) => {
                    self.users.insert(user.id, user.clone());
                    return Ok((200, UserResponse::from(user)));
                }
                UserUpdateStep::Done(Ok(user)) => return Ok((200, UserResponse::from(user))),
                UserUpdateStep::Done(Err(e)) => return Err(status_of(e)),
            };
        }
    }

    /// `DELETE /api/v1/users/:id`: 204 when the account is gone.
    fn delete_user(&mut self, id: u128) -> Result<u16, u16> {
        let id = UserService::confirm_delete(id, self.find_by_id(id)).map_err(status_of)?;
        self.users.remove(&id);
        Ok(204)
    }

    /// `GET /api/v1/users/?page=&page_size=`, behind the bearer check.
    fn get_users(&self, page: Option<i64>, page_size: Option<i64>, token: &str) -> Result<PaginatedResult<UserResponse>, u16> {
        self.authenticate(token)?;
        let pagination = UserService::get_all_users(page, page_size);
        let mut all: Vec<User> = self.users.values().cloned().collect();
        all.sort_by(|a, b| b.created_at.cmp(&a.created_at));
        let items: Vec<User> = all
            .into_iter()
            .skip(pagination.offset() as usize)
            .take(pagination.limit() as usize)
            .collect();
        let pending = PendingPage::after_fetch(pagination, Ok::<_, DomainError>(items)).map_err(status_of)?;
        let page = pending.after_count(Ok(self.users.len() as i64)).map_err(status_of)?;
        Ok(page.map(UserResponse::from))
    }
}

#[test]
fn post_users_crea_el_usuario_y_no_expone_password_hash() {
    let mut app = build_app();
    let (status, body) = app.post_user("johndoe", "john@example.com", "supersecret123").unwrap();
    assert_eq!(status, 201);
    assert_eq!(body.username, "johndoe");
    assert_eq!(body.email, "john@example.com");
    assert_eq!(uuid::Uuid::from_u128(body.id).get_version_num(), 4);
    assert_eq!(body.created_at, body.updated_at);
}

#[test]
fn post_users_falla_con_password_corta() {
    let mut app = build_app();
    let status = app.post_user("johndoe", "john@example.com", "123").unwrap_err();
    assert_eq!(status, 400);
}

#[test]
fn post_users_falla_con_email_invalido() {
    let mut app = build_app();
    let status = app.post_user("johndoe", "no-es-un-email", "supersecret123").unwrap_err();
    assert_eq!(status, 400);
}

#[test]
fn post_users_falla_con_username_corto() {
    let mut app = build_app();
    let status = app.post_user("jo", "john@example.com", "supersecret123").unwrap_err();
    assert_eq!(status, 400);
}

#[test]
fn post_users_falla_con_email_duplicado() {
    let mut app = build_app();
    let (first, _) = app.post_user("johndoe", "john@example.com", "supersecret123").unwrap();
    assert_eq!(first, 201);
    let status = app.post_user("janedoe", "john@example.com", "otraclave123").unwrap_err();
    assert_eq!(status, 409);
}

#[test]
fn get_user_devuelve_404_si_no_existe() {
    let app = build_app();
    let token = token_for(&uuid_to_string(new_uuid_v4()));
    let status = app.get_user(new_uuid_v4(), &token).unwrap_err();
    assert_eq!(status, 404);
}

#[test]
fn get_user_devuelve_el_usuario_creado() {
    let mut app = build_app();
    let (_, created) = app.post_user("johndoe", "john@example.com", "supersecret123").unwrap();
    let token = token_for(&uuid_to_string(created.id));
    let (status, body) = app.get_user(created.id, &token).unwrap();
    assert_eq!(status, 200);
    assert_eq!(body.id, created.id);
    assert_eq!(body.username, "johndoe");
}

#[test]
fn put_user_actualiza_username_y_email() {
    let mut app = build_app();
    let (_, created) = app.post_user("johndoe", "john@example.com", "supersecret123").unwrap();
    let (status, body) = app.put_user(created.id, Some("john_updated"), Some("john2@example.com")).unwrap();
    assert_eq!(status, 200);
    assert_eq!(body.username, "john_updated");
    assert_eq!(body.email, "john2@example.com");
}

#[test]
fn put_user_falla_con_email_duplicado() {
    let mut app = build_app();
    app.post_user("johndoe", "john@example.com", "supersecret123").unwrap();
    let (_, jane) = app.post_user("janedoe", "jane@example.com", "supersecret123").unwrap();
    let status = app.put_user(jane.id, None, Some("john@example.com")).unwrap_err();
    assert_eq!(status, 409);
}

#[test]
fn delete_user_elimina_la_cuenta() {
    let mut app = build_app();
    let (_, created) = app.post_user("johndoe", "john@example.com", "supersecret123").unwrap();
    let token = token_for(&uuid_to_string(created.id));
    assert_eq!(app.delete_user(created.id), Ok(204));
    assert_eq!(app.get_user(created.id, &token).unwrap_err(), 404);
}

#[test]
fn users_endpoint_tests_delete_user_falla_si_no_existe() {
    let mut app = build_app();
    assert_eq!(app.delete_user(new_uuid_v4()), Err(404));
}

#[test]
fn get_users_pagina_los_resultados() {
    let mut app = build_app();
    let mut id = 0;
    for i in 0..5 {
        let (status, body) =
            app.post_user(&format!("user{i}"), &format!("user{i}@example.com"), "supersecret123").unwrap();
        assert_eq!(status, 201);
        id = body.id;
    }
    let token = token_for(&uuid_to_string(id));
    let body = app.get_users(Some(1), Some(2), &token).unwrap();
    assert_eq!(body.items.len(), 2);
    assert_eq!(body.page, 1);
    assert_eq!(body.page_size, 2);
    assert_eq!(body.total_items, 5);
    assert_eq!(body.total_pages, 3);
}

#[test]
fn get_users_usa_valores_por_defecto_si_no_se_especifican() {
    let mut app = build_app();
    let (_, created) = app.post_user("johndoe", "john@example.com", "supersecret123").unwrap();
    let token = token_for(&uuid_to_string(created.id));
    let body = app.get_users(None, None, &token).unwrap();
    assert_eq!(body.page, 1);
    assert_eq!(body.page_size, 20);
    assert_eq!(body.total_items, 1);
}

#[test]
fn protected_user_routes_reject_a_bad_token() {
    let mut app = build_app();
    let (_, created) = app.post_user("johndoe", "john@example.com", "supersecret123").unwrap();
    assert_eq!(app.get_user(created.id, "not-a-token").unwrap_err(), 401);
    let foreign = JwtService::new("other-secret", 3600).create_token(&uuid_to_string(created.id)).unwrap();
    assert_eq!(app.get_users(None, None, &foreign).unwrap_err(), 401);
    let not_a_user = token_for("someone");
    assert_eq!(app.get_user(created.id, &not_a_user).unwrap_err(), 401);
}
