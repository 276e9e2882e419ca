//! The settings the server needs at start: the database address and the
//! GitHub OAuth client credentials.
use vstd::prelude::*;

verus! {

/// The server's settings.
#[derive(Debug)]
pub struct Settings {
    pub database_url: String,
    pub git_client_id: String,
    pub git_client_secret: String,
}

/// A setting that was not given.
#[derive(Debug, Clone, Copy, PartialEq, Eq, Structural)]
pub enum MissingSetting {
    DatabaseUrl,
    GithubClientId,
    GithubClientSecret,
}

/// The message that names the missing variable.
pub open spec fn missing_setting_text(m: MissingSetting) -> Seq<char> {
    match m {
        MissingSetting::DatabaseUrl => "DATABASE_URL must be set"@,
        MissingSetting::GithubClientId => "GITHUB_CLIENT_ID must be set"@,
        MissingSetting::GithubClientSecret => "GITHUB_CLIENT_SECRET must be set"@,
    }
}

impl MissingSetting {
    /// "<VARIABLE> must be set".
    pub fn message(&self) -> (r: String)
        ensures
            r@ == missing_setting_text(*self),
    {
        match self {
            MissingSetting::DatabaseUrl => String::from_str("DATABASE_URL must be set"),
            MissingSetting::GithubClientId => String::from_str("GITHUB_CLIENT_ID must be set"),
            MissingSetting::GithubClientSecret => String::from_str("GITHUB_CLIENT_SECRET must be set"),
        }
    }
}

impl Settings {
    /// Settings from the values of `DATABASE_URL`, `GITHUB_CLIENT_ID` and
    /// `GITHUB_CLIENT_SECRET`; the first of them (in that order) that is absent
    /// is reported.
    pub fn from_values(
        database_url: Option<String>,
        git_client_id: Option<String>,
        git_client_secret: Option<String>,
    ) -> (r: Result<Settings, MissingSetting>)
        ensures
            match (database_url, git_client_id, git_client_secret) {
                (Some(d), Some(i), Some(s)) => r matches Ok(st) && st.database_url == d
                    && st.git_client_id == i && st.git_client_secret == s,
                (None, _, _) => r == Err::<Settings, MissingSetting>(MissingSetting::DatabaseUrl),
                (Some(_), None, _) => r == Err::<Settings, MissingSetting>(MissingSetting::GithubClientId),
                (Some(_), Some(_), None) => r == Err::<Settings, MissingSetting>(
                    MissingSetting::GithubClientSecret,
                ),
            },
    {
        match database_url {
            None => Err(MissingSetting::DatabaseUrl),
            Some(d) => match git_client_id {
                None => Err(MissingSetting::GithubClientId),
                Some(i) => match git_client_secret {
                    None => Err(MissingSetting::GithubClientSecret),
                    Some(s) => Ok(Settings { database_url: d, git_client_id: i, git_client_secret: s }),
                },
            },
        }
    }
}

} // verus!
