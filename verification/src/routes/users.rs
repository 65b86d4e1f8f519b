//! Accounts as administrators manage them.

use crate::models::user::{Role, User, UserView};
use vstd::prelude::*;

verus! {

/// The body of a request that adds an account.
#[derive(Debug, PartialEq, Eq)]
pub struct CreateUserRequest {
    pub username: String,
    pub full_name: String,
    pub email: String,
    pub password_hash: String,
    /// "Admin" or "Member".
    pub role: String,
}

/// The body of a request that changes the role of an account.
#[derive(Debug, PartialEq, Eq)]
pub struct UpdateRoleRequest {
    pub user_id: String,
    /// "Admin" or "Member".
    pub role: String,
}

/// The account that a request to add one describes: with the role that the
/// request names, and without coins or projects.
pub open spec fn added_account(
    username: Seq<char>,
    full_name: Seq<char>,
    email: Seq<char>,
    password_hash: Seq<char>,
    role: Seq<char>,
    created_at: Seq<char>,
    updated_at: Seq<char>,
) -> UserView {
    UserView {
        id: None,
        username: username,
        full_name: full_name,
        email: email,
        password_hash: password_hash,
        role: Role::named(role),
        coins: 0,
        project_ids: Some(Seq::empty()),
        created_at: created_at,
        updated_at: updated_at,
    }
}

/// Makes the account that a request to add one describes.
pub fn new_user(payload: CreateUserRequest, created_at: String, updated_at: String) -> (r: User)
    ensures
        r@ == added_account(
            payload.username@,
            payload.full_name@,
            payload.email@,
            payload.password_hash@,
            payload.role@,
            created_at@,
            updated_at@,
        ),
{
    let role = Role::parse(payload.role.as_str());
    User {
        id: None,
        username: payload.username,
        full_name: payload.full_name,
        email: payload.email,
        password_hash: payload.password_hash,
        role,
        coins: 0,
        project_ids: Some(Vec::new()),
        created_at,
        updated_at,
    }
}

/// The role that a request to change a role asks for: administrator only
/// where it says so exactly.
pub fn requested_role(payload: &UpdateRoleRequest) -> (r: Role)
    ensures
        r == Role::named(payload.role@),
{
    Role::parse(payload.role.as_str())
}

} // verus!
