//! The start of a WebSocket session: the first message must authenticate the
//! client; otherwise the client is told why, in an error frame, and the
//! connection is closed.
use vstd::prelude::*;

verus! {

/// What became of the first message of a connection.
#[derive(Debug)]
pub enum FirstMessage {
    /// It carried a valid token for the user `sub`.
    Authenticated { sub: i64 },
    /// It was read but refused, with an HTTP status code and a reason.
    Refused { code: u16, reason: String },
    /// It could not be read.
    ReadFailed(String),
    /// The connection closed before any message came.
    Closed,
}

/// The error frame sent before the connection is closed:
/// `{ "type": "error", "status": .., "error": .., "code": .. }`.
#[derive(Debug)]
pub struct WsErrorFrame {
    pub status: String,
    pub error: String,
    pub code: u16,
}

/// How a session starts.
#[derive(Debug)]
pub enum SessionStart {
    /// The client is registered under this user id.
    Accept { user_id: u64 },
    /// The client is sent this frame and the connection closes.
    Reject(WsErrorFrame),
}

/// The frame has these texts and code.
pub open spec fn frame_is(f: WsErrorFrame, status: Seq<char>, error: Seq<char>, code: u16) -> bool {
    f.status@ == status && f.error@ == error && f.code == code
}

/// Decides how a session starts from its first message.
pub fn start_session(first: FirstMessage) -> (r: SessionStart)
    ensures
        match first {
            FirstMessage::Authenticated { sub } => r matches SessionStart::Accept { user_id } && user_id
                == sub as u64,
            FirstMessage::Refused { code, reason } => r matches SessionStart::Reject(f) && frame_is(
                f,
                "authentication_failed"@,
                reason@,
                code,
            ),
            FirstMessage::ReadFailed(e) => r matches SessionStart::Reject(f) && frame_is(
                f,
                "connection_error"@,
                "Failed to read message: "@ + e@,
                400,
            ),
            FirstMessage::Closed => r matches SessionStart::Reject(f) && frame_is(
                f,
                "no_message"@,
                "No initial message received"@,
                400,
            ),
        },
{
    match first {
        FirstMessage::Authenticated { sub } => SessionStart::Accept { user_id: sub as u64 },
        FirstMessage::Refused { code, reason } => SessionStart::Reject(
            WsErrorFrame { status: String::from_str("authentication_failed"), error: reason, code },
        ),
        FirstMessage::ReadFailed(e) => {
            let mut error = String::from_str("Failed to read message: ");
            error.append(e.as_str());
            SessionStart::Reject(WsErrorFrame { status: String::from_str("connection_error"), error, code: 400 })
        },
        FirstMessage::Closed => SessionStart::Reject(
            WsErrorFrame {
                status: String::from_str("no_message"),
                error: String::from_str("No initial message received"),
                code: 400,
            },
        ),
    }
}

} // verus!
