use deployer::accounts::{require_found, resolve_account, AccountResolution, ServiceError};
use deployer::replies::{
    create_job_reply, create_repo_reply, delete_github_account_reply, delete_repo_reply,
    deploy_project_reply, get_job_reply, get_repo_reply, github_callback_reply,
    github_lookup_reply, list_branches_reply, list_repos_reply, not_found_reply,
    update_job_status_reply, CallbackOutcome, JobUpdateOutcome, Reply, ReplyBody,
};
use deployer::settings::{MissingSetting, Settings};

fn targeted(r: &Reply) -> (u16, String, String) {
    match &r.body {
        ReplyBody::Targeted(e) => (r.status, e.error.clone(), e.target.clone()),
        other => panic!("not a targeted error: {:?}", other),
    }
}

fn plain(r: &Reply) -> (u16, String) {
    match &r.body {
        ReplyBody::Plain(e) => (r.status, e.clone()),
        other => panic!("not a plain error: {:?}", other),
    }
}

fn is_payload(r: &Reply, status: u16) -> bool {
    r.status == status && matches!(r.body, ReplyBody::Payload)
}

#[test]
fn job_replies() {
    assert!(is_payload(&create_job_reply(None), 201));
    assert_eq!(targeted(&create_job_reply(Some("db down".into()))), (500, "db down".into(), "job_creation".into()));
    assert!(is_payload(&get_job_reply(true), 200));
    assert_eq!(targeted(&get_job_reply(false)), (404, "Job not found".into(), "job".into()));
    assert!(is_payload(&update_job_status_reply(JobUpdateOutcome::Updated), 200));
    assert_eq!(
        targeted(&update_job_status_reply(JobUpdateOutcome::NotFound)),
        (404, "Job not found".into(), "job".into())
    );
    assert_eq!(
        targeted(&update_job_status_reply(JobUpdateOutcome::Failed)),
        (500, "Failed to update job status".into(), "job_status".into())
    );
}

#[test]
fn repo_replies() {
    assert!(is_payload(&create_repo_reply(None), 201));
    assert_eq!(targeted(&create_repo_reply(Some("dup".into()))), (500, "dup".into(), "repo_creation".into()));
    assert!(is_payload(&get_repo_reply(true), 200));
    assert_eq!(targeted(&get_repo_reply(false)), (404, "Repository not found".into(), "repo".into()));
    assert!(is_payload(&list_repos_reply(None), 200));
    assert_eq!(targeted(&list_repos_reply(Some("x".into()))), (500, "x".into(), "repo_list".into()));
}

#[test]
fn delete_repo_replies() {
    let r = delete_repo_reply(Ok(1));
    assert_eq!(r.status, 200);
    assert!(matches!(r.body, ReplyBody::Empty));
    assert_eq!(targeted(&delete_repo_reply(Ok(0))), (404, "Repository not found".into(), "repo".into()));
    assert_eq!(targeted(&delete_repo_reply(Err("locked".into()))), (500, "locked".into(), "repo_delete".into()));
}

#[test]
fn deployment_and_github_replies() {
    assert!(is_payload(&deploy_project_reply(None), 201));
    assert_eq!(plain(&deploy_project_reply(Some("Unsupported project type.".into()))), (500, "Unsupported project type.".into()));
    assert!(is_payload(&github_lookup_reply(None), 200));
    assert_eq!(plain(&github_lookup_reply(Some("Repository not found".into()))), (404, "Repository not found".into()));
    let r = delete_github_account_reply(Ok(1));
    assert_eq!(r.status, 204);
    assert!(matches!(r.body, ReplyBody::Empty));
    assert_eq!(plain(&delete_github_account_reply(Ok(0))), (404, "Repository not found".into()));
    assert_eq!(plain(&delete_github_account_reply(Err("gone".into()))), (404, "gone".into()));
    assert!(is_payload(&list_branches_reply(None), 200));
    assert_eq!(plain(&list_branches_reply(Some("User not found".into()))), (400, "User not found".into()));
}

#[test]
fn callback_replies() {
    assert!(is_payload(&github_callback_reply(CallbackOutcome::Signed), 200));
    assert_eq!(plain(&github_callback_reply(CallbackOutcome::TokenRefused("bad code".into()))), (500, "bad code".into()));
    assert_eq!(plain(&github_callback_reply(CallbackOutcome::SaveFailed("dup".into()))), (400, "dup".into()));
}

#[test]
fn unknown_route_reply() {
    let r = not_found_reply();
    assert_eq!(r.status, 404);
    match r.body {
        ReplyBody::Described { error, message } => {
            assert_eq!(error, "Not Found");
            assert_eq!(message, "The requested resource was not found");
        }
        other => panic!("unexpected body {:?}", other),
    }
}

#[test]
fn settings_from_values() {
    let s = Settings::from_values(Some("postgres://db".into()), Some("id".into()), Some("secret".into())).unwrap();
    assert_eq!(s.database_url, "postgres://db");
    assert_eq!(s.git_client_id, "id");
    assert_eq!(s.git_client_secret, "secret");
}

#[test]
fn settings_report_first_missing_value() {
    assert_eq!(Settings::from_values(None, None, None).unwrap_err(), MissingSetting::DatabaseUrl);
    assert_eq!(Settings::from_values(Some("d".into()), None, None).unwrap_err(), MissingSetting::GithubClientId);
    assert_eq!(
        Settings::from_values(Some("d".into()), Some("i".into()), None).unwrap_err(),
        MissingSetting::GithubClientSecret
    );
    assert_eq!(MissingSetting::DatabaseUrl.message(), "DATABASE_URL must be set");
    assert_eq!(MissingSetting::GithubClientId.message(), "GITHUB_CLIENT_ID must be set");
    assert_eq!(MissingSetting::GithubClientSecret.message(), "GITHUB_CLIENT_SECRET must be set");
}

#[test]
fn account_lookups() {
    assert_eq!(require_found(Some(7), ServiceError::UserNotFound), Ok(7));
    assert_eq!(require_found::<i32>(None, ServiceError::UserNotFound), Err(ServiceError::UserNotFound));
    assert_eq!(
        require_found::<i32>(None, ServiceError::RepositoryNotFound).unwrap_err().message(),
        "Repository not found"
    );
    assert_eq!(ServiceError::UserNotFound.message(), "User not found");
    assert!(matches!(resolve_account(Some("octocat")), AccountResolution::Existing("octocat")));
    assert!(matches!(resolve_account::<&str>(None), AccountResolution::Upsert));
}
