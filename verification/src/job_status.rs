//! The status of a CI/CD job and its text form, as stored in the database
//! and sent over the API ("pending", "running", "success", "failed").
use vstd::prelude::*;

verus! {

/// Where a CI/CD job stands.
#[derive(Clone, Copy, Debug, PartialEq, Eq, Structural)]
pub enum JobStatus {
    Pending,
    Running,
    Success,
    Failed,
}

/// The text of a status.
pub open spec fn status_text(s: JobStatus) -> Seq<char> {
    match s {
        JobStatus::Pending => "pending"@,
        JobStatus::Running => "running"@,
        JobStatus::Success => "success"@,
        JobStatus::Failed => "failed"@,
    }
}

/// The status whose text is `t`, if any.
pub open spec fn parse_status(t: Seq<char>) -> Option<JobStatus> {
    if t == "pending"@ {
        Some(JobStatus::Pending)
    } else if t == "running"@ {
        Some(JobStatus::Running)
    } else if t == "success"@ {
        Some(JobStatus::Success)
    } else if t == "failed"@ {
        Some(JobStatus::Failed)
    } else {
        None
    }
}

/// A text that names no job status.
#[derive(Debug)]
pub struct JobStatusParseError {
    pub input: String,
}

/// The message of a parse error: "Invalid job status: " followed by the input.
pub open spec fn parse_error_text(input: Seq<char>) -> Seq<char> {
    "Invalid job status: "@ + input
}

impl JobStatusParseError {
    /// The error's message.
    pub fn message(&self) -> (r: String)
        ensures
            r@ == parse_error_text(self.input@),
    {
        let mut r = String::from_str("Invalid job status: ");
        r.append(self.input.as_str());
        r
    }
}

impl JobStatus {
    /// The status's text: "pending", "running", "success" or "failed".
    pub fn to_string(&self) -> (r: String)
        ensures
            r@ == status_text(*self),
    {
        match self {
            JobStatus::Pending => String::from_str("pending"),
            JobStatus::Running => String::from_str("running"),
            JobStatus::Success => String::from_str("success"),
            JobStatus::Failed => String::from_str("failed"),
        }
    }

    /// Reads a status from its text; any other text is refused with a
    /// `JobStatusParseError` that holds the input.
    pub fn from_str(s: &str) -> (r: Result<JobStatus, JobStatusParseError>)
        ensures
            match parse_status(s@) {
                Some(st) => r == Ok::<JobStatus, JobStatusParseError>(st),
                None => r is Err && r->Err_0.input@ == s@,
            },
    {
        if crate::text::str_eq(s, "pending") {
            Ok(JobStatus::Pending)
        } else if crate::text::str_eq(s, "running") {
            Ok(JobStatus::Running)
        } else if crate::text::str_eq(s, "success") {
            Ok(JobStatus::Success)
        } else if crate::text::str_eq(s, "failed") {
            Ok(JobStatus::Failed)
        } else {
            Err(JobStatusParseError { input: String::from_str(s) })
        }
    }
}

impl std::str::FromStr for JobStatus {
    type Err = JobStatusParseError;

    fn from_str(s: &str) -> (r: Result<JobStatus, JobStatusParseError>)
        ensures
            match parse_status(s@) {
                Some(st) => r == Ok::<JobStatus, JobStatusParseError>(st),
                None => r is Err && r->Err_0.input@ == s@,
            },
    {
        JobStatus::from_str(s)
    }
}

/// Reading back the text of a status gives that status.
pub proof fn lemma_status_text_round_trip(s: JobStatus)
    ensures
        parse_status(status_text(s)) == Some(s),
{
    reveal_strlit("pending");
    reveal_strlit("running");
    reveal_strlit("success");
    reveal_strlit("failed");
    assert("pending"@[0] != "running"@[0]);
    assert("pending"@[0] != "success"@[0]);
    assert("pending"@[0] != "failed"@[0]);
    assert("running"@[0] != "success"@[0]);
    assert("running"@[0] != "failed"@[0]);
    assert("success"@[0] != "failed"@[0]);
}

/// A text that reads as a status is exactly the text of that status.
pub proof fn lemma_parse_status_exact(t: Seq<char>)
    ensures
        parse_status(t) matches Some(s) ==> t == status_text(s),
{
}

/// Distinct statuses have distinct texts.
pub proof fn lemma_status_text_injective(a: JobStatus, b: JobStatus)
    ensures
        status_text(a) == status_text(b) ==> a == b,
{
    lemma_status_text_round_trip(a);
    lemma_status_text_round_trip(b);
}

} // verus!
