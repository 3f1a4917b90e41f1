//! Request and response shapes of the users HTTP adapter.

use vstd::prelude::*;
use vstd::string::*;

use crate::shared::pagination::PaginatedResult;
use crate::users::domain::User;

verus! {

/// Body of `POST /api/v1/users`.
pub struct CreateUserRequest {
    pub username: String,
    pub email: String,
    pub password: String,
}

/// Body of `PUT /api/v1/users/:id`: both fields optional.
pub struct UpdateUserRequest {
    pub username: Option<String>,
    pub email: Option<String>,
}

/// Query of `GET /api/v1/users/?page=1&page_size=20`; both optional, the
/// use case applies defaults.
pub struct PaginationQuery {
    pub page: Option<i64>,
    pub page_size: Option<i64>,
}

/// Public view of a user. It deliberately has no password hash.
#[derive(Debug)]
pub struct UserResponse {
    pub id: u128,
    pub username: String,
    pub email: String,
    pub created_at: i64,
    pub updated_at: i64,
}

impl From<User> for UserResponse {
    fn from(user: User) -> (r: Self)
        ensures
            r.id == user.id,
            r.username == user.username,
            r.email == user.email,
            r.created_at == user.created_at,
            r.updated_at == user.updated_at,
    {
        UserResponse {
            id: user.id,
            username: user.username,
            email: user.email,
            created_at: user.created_at,
            updated_at: user.updated_at,
        }
    }
}

impl vstd::std_specs::convert::FromSpecImpl<User> for UserResponse {
    open spec fn obeys_from_spec() -> bool {
        true
    }

    open spec fn from_spec(user: User) -> Self {
        UserResponse {
            id: user.id,
            username: user.username,
            email: user.email,
            created_at: user.created_at,
            updated_at: user.updated_at,
        }
    }
}

/// A user's answer carries the user's id, username, email and times as
/// they are, none swapped; the password hash has no field to go to.
pub proof fn lemma_user_response_keeps_fields(user: User, r: UserResponse)
    requires
        call_ensures(UserResponse::from, (user,), r),
    ensures
        r.id == user.id,
        r.username == user.username,
        r.email == user.email,
        r.created_at == user.created_at,
        r.updated_at == user.updated_at,
{
}

/// Body of `POST /api/v1/users/login`.
pub struct LoginRequest {
    pub email: String,
    pub password: String,
}

/// Answer of a successful login.
pub struct LoginResponse {
    pub access_token: String,
    pub token_type: String,
}

impl LoginResponse {
    /// The answer carrying `access_token` as a bearer token.
    pub fn bearer(access_token: String) -> (r: Self)
        ensures
            r.access_token == access_token,
            r.token_type@ == "Bearer"@,
    {
        LoginResponse { access_token, token_type: String::from_str("Bearer") }
    }
}

/// Answer of `GET /api/v1/users/`.
pub type PaginatedUsersResponse = PaginatedResult<UserResponse>;

} // verus!
