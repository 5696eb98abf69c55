//! Domain data model: the User resource, its status enumeration, and the
//! request shapes for creating and partially updating a resource.

use vstd::prelude::*;

verus! {

/// Status of a user resource: a closed enumeration, set directly by input.
#[derive(Debug, Clone, Copy, PartialEq, Eq, Structural)]
pub enum UserStatus {
    Active,
    Inactive,
    Suspended,
}

/// Status a created resource gets when the input names none.
pub fn default_user_status() -> (s: UserStatus)
    ensures
        s == UserStatus::Active,
{
    UserStatus::Active
}

/// The mutable business fields of a user resource.
#[derive(Debug, Clone)]
pub struct UserBase {
    pub email: String,
    pub name: String,
    pub status: UserStatus,
}

/// Input of the create operation. Email, name and password are required;
/// the status defaults to `Active` upstream when absent on the wire.
#[derive(Debug)]
pub struct UserCreate {
    pub email: String,
    pub name: String,
    pub password: String,
    pub status: UserStatus,
}

/// Input of the partial-update operation: every field is optional, and an
/// absent field leaves the corresponding resource field unchanged.
#[derive(Debug)]
pub struct UserUpdate {
    pub email: Option<String>,
    pub name: Option<String>,
    pub status: Option<UserStatus>,
}

/// A full user resource, system fields included. The identifier is assigned
/// by the server exactly once; the timestamps are ISO-8601-like strings.
#[derive(Debug, Clone)]
pub struct User {
    pub id: String,
    pub email: String,
    pub name: String,
    pub status: UserStatus,
    pub created_at: String,
    pub updated_at: String,
}

} // verus!
