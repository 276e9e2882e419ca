//! The GitHub REST API requests the platform makes.
use vstd::prelude::*;

verus! {

/// `https://api.github.com/users/<username>/repos`: the public repositories of a user.
pub open spec fn user_repos_url_text(username: Seq<char>) -> Seq<char> {
    "https://api.github.com/users/"@ + username + "/repos"@
}

/// Builds the address that lists the public repositories of `username`.
pub fn user_repos_url(username: &str) -> (r: String)
    ensures
        r@ == user_repos_url_text(username@),
{
    let mut r = String::from_str("https://api.github.com/users/");
    r.append(username);
    r.append("/repos");
    r
}

/// `https://api.github.com/repos/<owner>/<repo>/branches`: the branches of a repository.
pub open spec fn repo_branches_url_text(owner: Seq<char>, repo: Seq<char>) -> Seq<char> {
    "https://api.github.com/repos/"@ + owner + "/"@ + repo + "/branches"@
}

/// Builds the address that lists the branches of `owner/repo`.
pub fn repo_branches_url(owner: &str, repo: &str) -> (r: String)
    ensures
        r@ == repo_branches_url_text(owner@, repo@),
{
    let mut r = String::from_str("https://api.github.com/repos/");
    r.append(owner);
    r.append("/");
    r.append(repo);
    r.append("/branches");
    r
}

/// The address that lists the repositories of the user a token belongs to.
pub fn own_repos_url() -> (r: String)
    ensures
        r@ == "https://api.github.com/user/repos"@,
{
    String::from_str("https://api.github.com/user/repos")
}

/// The address of the profile of the user a token belongs to.
pub fn own_profile_url() -> (r: String)
    ensures
        r@ == "https://api.github.com/user"@,
{
    String::from_str("https://api.github.com/user")
}

/// The value of the `Authorization` header for an access token: `token <token>`.
pub open spec fn authorization_text(token: Seq<char>) -> Seq<char> {
    "token "@ + token
}

/// Builds the `Authorization` header value for `token`.
pub fn authorization_header(token: &str) -> (r: String)
    ensures
        r@ == authorization_text(token@),
{
    let mut r = String::from_str("token ");
    r.append(token);
    r
}

/// The `User-Agent` the platform sends to GitHub.
pub fn user_agent() -> (r: String)
    ensures
        r@ == "axum-ci-cd"@,
{
    String::from_str("axum-ci-cd")
}

} // verus!
