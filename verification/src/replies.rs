//! How each API endpoint answers: the HTTP status and the kind of body, for
//! success and for every way the request can fail.
use vstd::prelude::*;

verus! {

/// An error body that names the operation that failed.
#[derive(Debug)]
pub struct ErrorResponse {
    pub error: String,
    pub target: String,
}

/// The body of a reply.
#[derive(Debug)]
pub enum ReplyBody {
    /// The value the endpoint produced (a job, a repository, a list, ...).
    Payload,
    /// No body.
    Empty,
    /// `{ "error": .., "target": .. }`.
    Targeted(ErrorResponse),
    /// `{ "error": .. }`.
    Plain(String),
    /// `{ "error": .., "message": .. }`.
    Described { error: String, message: String },
}

/// A reply: an HTTP status and a body.
#[derive(Debug)]
pub struct Reply {
    pub status: u16,
    pub body: ReplyBody,
}

/// The body reports an error.
pub open spec fn is_error_body(b: ReplyBody) -> bool {
    b is Targeted || b is Plain || b is Described
}

/// A reply reports an error exactly when its status is 400 or above.
pub open spec fn status_matches_body(r: Reply) -> bool {
    (r.status >= 400) == is_error_body(r.body)
}

/// The reply carries a targeted error with these texts.
pub open spec fn targeted_error(r: Reply, status: u16, error: Seq<char>, target: Seq<char>) -> bool {
    &&& r.status == status
    &&& r.body matches ReplyBody::Targeted(e) && e.error@ == error && e.target@ == target
}

/// The reply carries a plain error with this text.
pub open spec fn plain_error(r: Reply, status: u16, error: Seq<char>) -> bool {
    &&& r.status == status
    &&& r.body matches ReplyBody::Plain(e) && e@ == error
}

/// The reply succeeds with the endpoint's value.
pub open spec fn payload(r: Reply, status: u16) -> bool {
    r.status == status && r.body is Payload
}

fn targeted(status: u16, error: String, target: &str) -> (r: Reply)
    ensures
        targeted_error(r, status, error@, target@),
{
    Reply { status, body: ReplyBody::Targeted(ErrorResponse { error, target: String::from_str(target) }) }
}

fn plain(status: u16, error: String) -> (r: Reply)
    ensures
        plain_error(r, status, error@),
{
    Reply { status, body: ReplyBody::Plain(error) }
}

fn ok(status: u16) -> (r: Reply)
    ensures
        payload(r, status),
{
    Reply { status, body: ReplyBody::Payload }
}

/// `POST /jobs`: 201 with the job, or 500 with the error, target "job_creation".
pub fn create_job_reply(failure: Option<String>) -> (r: Reply)
    ensures
        status_matches_body(r),
        match failure {
            None => payload(r, 201),
            Some(e) => targeted_error(r, 500, e@, "job_creation"@),
        },
{
    match failure {
        None => ok(201),
        Some(e) => targeted(500, e, "job_creation"),
    }
}

/// `GET /jobs/{id}`: 200 with the job, or 404 "Job not found", target "job".
pub fn get_job_reply(found: bool) -> (r: Reply)
    ensures
        status_matches_body(r),
        if found {
            payload(r, 200)
        } else {
            targeted_error(r, 404, "Job not found"@, "job"@)
        },
{
    if found {
        ok(200)
    } else {
        targeted(404, String::from_str("Job not found"), "job")
    }
}

/// How an update of a job's status went.
#[derive(Debug)]
pub enum JobUpdateOutcome {
    /// The job was updated.
    Updated,
    /// No job has that id.
    NotFound,
    /// The update failed for another reason.
    Failed,
}

/// `PUT /jobs/{id}/status`: 200 with the job; 404 "Job not found" (target
/// "job") when no job has that id; 500 "Failed to update job status" (target
/// "job_status") when the update failed otherwise.
pub fn update_job_status_reply(outcome: JobUpdateOutcome) -> (r: Reply)
    ensures
        status_matches_body(r),
        match outcome {
            JobUpdateOutcome::Updated => payload(r, 200),
            JobUpdateOutcome::NotFound => targeted_error(r, 404, "Job not found"@, "job"@),
            JobUpdateOutcome::Failed => targeted_error(r, 500, "Failed to update job status"@, "job_status"@),
        },
{
    match outcome {
        JobUpdateOutcome::Updated => ok(200),
        JobUpdateOutcome::NotFound => targeted(404, String::from_str("Job not found"), "job"),
        JobUpdateOutcome::Failed => targeted(500, String::from_str("Failed to update job status"), "job_status"),
    }
}

/// `POST /repos`: 201 with the repository, or 500 with the error, target "repo_creation".
pub fn create_repo_reply(failure: Option<String>) -> (r: Reply)
    ensures
        status_matches_body(r),
        match failure {
            None => payload(r, 201),
            Some(e) => targeted_error(r, 500, e@, "repo_creation"@),
        },
{
    match failure {
        None => ok(201),
        Some(e) => targeted(500, e, "repo_creation"),
    }
}

/// `GET /repos/{id}`: 200 with the repository, or 404 "Repository not found", target "repo".
pub fn get_repo_reply(found: bool) -> (r: Reply)
    ensures
        status_matches_body(r),
        if found {
            payload(r, 200)
        } else {
            targeted_error(r, 404, "Repository not found"@, "repo"@)
        },
{
    if found {
        ok(200)
    } else {
        targeted(404, String::from_str("Repository not found"), "repo")
    }
}

/// `GET /repos`: 200 with the list, or 500 with the error, target "repo_list".
pub fn list_repos_reply(failure: Option<String>) -> (r: Reply)
    ensures
        status_matches_body(r),
        match failure {
            None => payload(r, 200),
            Some(e) => targeted_error(r, 500, e@, "repo_list"@),
        },
{
    match failure {
        None => ok(200),
        Some(e) => targeted(500, e, "repo_list"),
    }
}

/// `DELETE /repos/{id}`: 200 with no body when a row was deleted, 404
/// "Repository not found" (target "repo") when none was, and 500 with the
/// error (target "repo_delete") when the deletion failed.
pub fn delete_repo_reply(outcome: Result<u64, String>) -> (r: Reply)
    ensures
        status_matches_body(r),
        match outcome {
            Ok(rows) => if rows > 0 {
                r.status == 200 && r.body is Empty
            } else {
                targeted_error(r, 404, "Repository not found"@, "repo"@)
            },
            Err(e) => targeted_error(r, 500, e@, "repo_delete"@),
        },
{
    match outcome {
        Ok(rows) => {
            if rows > 0 {
                Reply { status: 200, body: ReplyBody::Empty }
            } else {
                targeted(404, String::from_str("Repository not found"), "repo")
            }
        },
        Err(e) => targeted(500, e, "repo_delete"),
    }
}

/// `POST /deploy/project`: 201 with the deployment, or 500 with the error.
pub fn deploy_project_reply(failure: Option<String>) -> (r: Reply)
    ensures
        status_matches_body(r),
        match failure {
            None => payload(r, 201),
            Some(e) => plain_error(r, 500, e@),
        },
{
    match failure {
        None => ok(201),
        Some(e) => plain(500, e),
    }
}

/// The GitHub lookups (`GET /github/{username}/repos`, `GET /github/repos/{id}`,
/// `GET /github/repos/list/{id}`, `GET /user/profile`): 200 with the value, or
/// 404 with the error.
pub fn github_lookup_reply(failure: Option<String>) -> (r: Reply)
    ensures
        status_matches_body(r),
        match failure {
            None => payload(r, 200),
            Some(e) => plain_error(r, 404, e@),
        },
{
    match failure {
        None => ok(200),
        Some(e) => plain(404, e),
    }
}

/// `DELETE /github/repos/{id}`: 204 with no body when an account was deleted;
/// 404 "Repository not found" when none has that id; 404 with the error when
/// the deletion failed.
pub fn delete_github_account_reply(outcome: Result<u64, String>) -> (r: Reply)
    ensures
        status_matches_body(r),
        match outcome {
            Ok(rows) => if rows > 0 {
                r.status == 204 && r.body is Empty
            } else {
                plain_error(r, 404, "Repository not found"@)
            },
            Err(e) => plain_error(r, 404, e@),
        },
{
    match outcome {
        Ok(rows) => {
            if rows > 0 {
                Reply { status: 204, body: ReplyBody::Empty }
            } else {
                plain(404, String::from_str("Repository not found"))
            }
        },
        Err(e) => plain(404, e),
    }
}

/// `GET /repos/{username}/{repo}/branches`: 200 with the branches, or 400 with the error.
pub fn list_branches_reply(failure: Option<String>) -> (r: Reply)
    ensures
        status_matches_body(r),
        match failure {
            None => payload(r, 200),
            Some(e) => plain_error(r, 400, e@),
        },
{
    match failure {
        None => ok(200),
        Some(e) => plain(400, e),
    }
}

/// How the OAuth callback went.
#[derive(Debug)]
pub enum CallbackOutcome {
    /// The account was saved or found; the body holds it and its repositories.
    Signed,
    /// GitHub refused to exchange the code for a token.
    TokenRefused(String),
    /// The account could not be saved.
    SaveFailed(String),
}

/// `GET /auth/github/callback`: 200 with the account and its repositories, 500
/// when the code could not be exchanged, 400 when the account could not be saved.
pub fn github_callback_reply(outcome: CallbackOutcome) -> (r: Reply)
    ensures
        status_matches_body(r),
        match outcome {
            CallbackOutcome::Signed => payload(r, 200),
            CallbackOutcome::TokenRefused(e) => plain_error(r, 500, e@),
            CallbackOutcome::SaveFailed(e) => plain_error(r, 400, e@),
        },
{
    match outcome {
        CallbackOutcome::Signed => ok(200),
        CallbackOutcome::TokenRefused(e) => plain(500, e),
        CallbackOutcome::SaveFailed(e) => plain(400, e),
    }
}

/// Any route that matches no endpoint: 404 "Not Found".
pub fn not_found_reply() -> (r: Reply)
    ensures
        r.status == 404,
        r.body matches ReplyBody::Described { error, message } && error@ == "Not Found"@
            && message@ == "The requested resource was not found"@,
        status_matches_body(r),
{
    Reply {
        status: 404,
        body: ReplyBody::Described {
            error: String::from_str("Not Found"),
            message: String::from_str("The requested resource was not found"),
        },
    }
}

} // verus!
