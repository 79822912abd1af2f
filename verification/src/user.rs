//! The entity model: the `User` record, its creation request, and the
//! storage failure type.

use vstd::prelude::*;

verus! {

/// A stored user record. Immutable after creation: the store assigns `id`
/// and `created_at` once and never changes a record afterwards.
///
/// `created_at` is a timestamp in milliseconds since the Unix epoch.
#[derive(Debug, Clone, PartialEq, Eq)]
pub struct User {
    pub id: u64,
    pub name: String,
    pub email: String,
    pub created_at: i64,
}

/// Mathematical view of a [`User`].
pub ghost struct UserModel {
    pub id: u64,
    pub name: Seq<char>,
    pub email: Seq<char>,
    pub created_at: i64,
}

impl View for User {
    type V = UserModel;

    open spec fn view(&self) -> UserModel {
        UserModel {
            id: self.id,
            name: self.name@,
            email: self.email@,
            created_at: self.created_at,
        }
    }
}

impl User {
    /// An owned copy of the record, equal to the original.
    pub fn duplicate(&self) -> (r: User)
        ensures
            r == *self,
    {
        User {
            id: self.id,
            name: self.name.clone(),
            email: self.email.clone(),
            created_at: self.created_at,
        }
    }
}

/// The input to a create operation: the caller supplies `name` and `email`;
/// the store assigns the identifier and the timestamp.
#[derive(Debug, Clone, PartialEq, Eq)]
pub struct CreateUserRequest {
    pub name: String,
    pub email: String,
}

/// Mathematical view of a [`CreateUserRequest`].
pub ghost struct CreateUserRequestModel {
    pub name: Seq<char>,
    pub email: Seq<char>,
}

impl View for CreateUserRequest {
    type V = CreateUserRequestModel;

    open spec fn view(&self) -> CreateUserRequestModel {
        CreateUserRequestModel { name: self.name@, email: self.email@ }
    }
}

/// An opaque backend failure. A missing record is never reported through
/// this type: absence is a valid `None` result. An in-memory backend in
/// normal operation never produces this error.
#[derive(Debug, Clone, PartialEq, Eq)]
pub struct StorageError;

impl StorageError {
    /// A human-readable description of the failure.
    pub fn message(&self) -> (r: String)
        ensures
            r@ == "storage backend failure"@,
    {
        "storage backend failure".to_owned()
    }
}

} // verus!
