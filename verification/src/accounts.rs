//! The decisions of the GitHub account service once the database has answered
//! a lookup.
use vstd::prelude::*;

verus! {

/// A lookup that found nothing.
#[derive(Debug, Clone, Copy, PartialEq, Eq, Structural)]
pub enum ServiceError {
    RepositoryNotFound,
    UserNotFound,
}

/// The message of a failed lookup.
pub open spec fn service_error_text(e: ServiceError) -> Seq<char> {
    match e {
        ServiceError::RepositoryNotFound => "Repository not found"@,
        ServiceError::UserNotFound => "User not found"@,
    }
}

impl ServiceError {
    /// "Repository not found" or "User not found".
    pub fn message(&self) -> (r: String)
        ensures
            r@ == service_error_text(*self),
    {
        match self {
            ServiceError::RepositoryNotFound => String::from_str("Repository not found"),
            ServiceError::UserNotFound => String::from_str("User not found"),
        }
    }
}

/// The value a lookup found, or `missing` when it found nothing. The account
/// service answers a repository lookup with `RepositoryNotFound`, and a lookup
/// of a user by name (also before listing the branches of one of their
/// repositories) with `UserNotFound`.
pub fn require_found<T>(found: Option<T>, missing: ServiceError) -> (r: Result<T, ServiceError>)
    ensures
        match found {
            Some(v) => r == Ok::<T, ServiceError>(v),
            None => r == Err::<T, ServiceError>(missing),
        },
{
    match found {
        Some(v) => Ok(v),
        None => Err(missing),
    }
}

/// What to do with a signing-in GitHub user.
#[derive(Debug)]
pub enum AccountResolution<T> {
    /// The account is already stored under that name: it is returned as stored.
    Existing(T),
    /// No account has that name: it is created, or updated by GitHub id.
    Upsert,
}

/// Decides between the stored account and an upsert, from the lookup by username.
pub fn resolve_account<T>(stored: Option<T>) -> (r: AccountResolution<T>)
    ensures
        match stored {
            Some(a) => r matches AccountResolution::Existing(b) && b == a,
            None => r is Upsert,
        },
{
    match stored {
        Some(a) => AccountResolution::Existing(a),
        None => AccountResolution::Upsert,
    }
}

} // verus!
