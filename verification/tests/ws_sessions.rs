use deployer::ws::{start_session, FirstMessage, SessionStart};

#[test]
fn authenticated_client_is_accepted() {
    match start_session(FirstMessage::Authenticated { sub: 42 }) {
        SessionStart::Accept { user_id } => assert_eq!(user_id, 42),
        other => panic!("{:?}", other),
    }
}

#[test]
fn refused_token_is_reported() {
    match start_session(FirstMessage::Refused { code: 401, reason: "Invalid token".into() }) {
        SessionStart::Reject(f) => {
            assert_eq!(f.status, "authentication_failed");
            assert_eq!(f.error, "Invalid token");
            assert_eq!(f.code, 401);
        }
        other => panic!("{:?}", other),
    }
}

#[test]
fn unreadable_or_missing_first_message() {
    match start_session(FirstMessage::ReadFailed("connection reset".into())) {
        SessionStart::Reject(f) => {
            assert_eq!(f.status, "connection_error");
            assert_eq!(f.error, "Failed to read message: connection reset");
            assert_eq!(f.code, 400);
        }
        other => panic!("{:?}", other),
    }
    match start_session(FirstMessage::Closed) {
        SessionStart::Reject(f) => {
            assert_eq!(f.status, "no_message");
            assert_eq!(f.error, "No initial message received");
            assert_eq!(f.code, 400);
        }
        other => panic!("{:?}", other),
    }
}
