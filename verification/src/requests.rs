//! The bodies and query strings of the API's requests.
use vstd::prelude::*;

verus! {

/// The query GitHub sends back to the OAuth callback.
#[derive(Debug)]
pub struct AuthRequest {
    pub code: String,
    pub state: String,
}

/// A request to deploy a branch of a repository for a user.
#[derive(Debug)]
pub struct DeployRequest {
    pub user_id: i64,
    pub repo_url: String,
    pub repo_name: String,
    pub branch: String,
}

/// A query that carries an access token.
#[derive(Debug)]
pub struct RepoQuery {
    pub token: String,
}

/// A request to create a CI/CD job for a commit of a repository.
#[derive(Debug)]
pub struct CreateJobRequest {
    pub repo_url: String,
    pub commit_hash: String,
}

/// A request to register a repository.
#[derive(Debug)]
pub struct CreateRepoRequest {
    pub name: String,
    pub url: String,
    pub branch: String,
}

/// A request to change a user's name or e-mail address.
#[derive(Debug)]
pub struct UpdateUserRequest {
    pub username: Option<String>,
    pub email: Option<String>,
}

} // verus!
