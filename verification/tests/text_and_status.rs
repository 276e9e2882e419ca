use deployer::job_status::JobStatus;
use deployer::text::{append_decimal, append_signed_decimal, chars_of, contains_str, str_eq};

#[test]
fn chars_of_keeps_every_character() {
    assert_eq!(chars_of("héllo"), vec!['h', 'é', 'l', 'l', 'o']);
    assert_eq!(chars_of(""), Vec::<char>::new());
}

#[test]
fn str_eq_compares_contents() {
    assert!(str_eq("pending", "pending"));
    assert!(!str_eq("pending", "Pending"));
    assert!(!str_eq("pending", "pendin"));
    assert!(str_eq("", ""));
}

#[test]
fn contains_str_finds_substrings() {
    assert!(contains_str("abcdef", "cde"));
    assert!(contains_str("abcdef", "abcdef"));
    assert!(contains_str("abc", ""));
    assert!(!contains_str("abc", "abcd"));
    assert!(!contains_str("abcdef", "ce"));
    assert!(contains_str("{\"react\": \"18\"}", "\"react\""));
}

#[test]
fn decimal_text_of_numbers() {
    for n in [0u64, 7, 10, 99, 100, 12345, u64::MAX] {
        let mut s = String::from("x=");
        append_decimal(&mut s, n);
        assert_eq!(s, format!("x={}", n));
    }
    for i in [0i32, 5, -5, 3000, -42, i32::MIN, i32::MAX] {
        let mut s = String::new();
        append_signed_decimal(&mut s, i);
        assert_eq!(s, i.to_string());
    }
}

#[test]
fn job_status_text() {
    assert_eq!(JobStatus::Pending.to_string(), "pending");
    assert_eq!(JobStatus::Running.to_string(), "running");
    assert_eq!(JobStatus::Success.to_string(), "success");
    assert_eq!(JobStatus::Failed.to_string(), "failed");
}

#[test]
fn job_status_parses_its_text() {
    assert_eq!(JobStatus::from_str("pending").unwrap(), JobStatus::Pending);
    assert_eq!(JobStatus::from_str("running").unwrap(), JobStatus::Running);
    assert_eq!(JobStatus::from_str("success").unwrap(), JobStatus::Success);
    assert_eq!(JobStatus::from_str("failed").unwrap(), JobStatus::Failed);
    let parsed: JobStatus = "running".parse().unwrap();
    assert_eq!(parsed, JobStatus::Running);
}

#[test]
fn job_status_round_trip() {
    for s in [JobStatus::Pending, JobStatus::Running, JobStatus::Success, JobStatus::Failed] {
        assert_eq!(JobStatus::from_str(&s.to_string()).unwrap(), s);
    }
}

#[test]
fn job_status_rejects_other_text() {
    let e = JobStatus::from_str("done").unwrap_err();
    assert_eq!(e.input, "done");
    assert_eq!(e.message(), "Invalid job status: done");
    assert!(JobStatus::from_str("Pending").is_err());
    assert!(JobStatus::from_str("").is_err());
}
