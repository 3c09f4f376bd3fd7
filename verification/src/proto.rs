//! The daemon's reply messages and the helpers that build the common ones.

use vstd::prelude::*;

verus! {

/// One entry of an identity cleanup report.
#[derive(Debug)]
pub struct CleanupItem {
    pub name: String,
    pub address: String,
    pub reason: String,
}

/// The replies that the library's request logic produces.
#[derive(Debug)]
pub enum ServerMsg {
    Error { code: String, message: String },
    Accepted { id: String },
    Authenticated {
        session_id: String,
        workspace_id: String,
        participant_id: String,
        participant_name: String,
        status: String,
        notify_config: Option<String>,
    },
    SessionLeft { session_id: String },
    Replied { msg_id: String, status: String },
    Joined { workspace_id: String, participant_id: String, session_id: String, token: String },
    WaitResult { msg_id: String, status: String, choice: String, reason: String, timed_out: bool },
    Pong,
    ToolVersionInfo { version: String },
    ToolPathInfo { path: String },
    AskResult { message_id: String },
    IdentityLeft { address: String, name: String, removed_session: bool, purge: bool },
    Identity {
        address: String,
        name: String,
        intro: String,
        notify_channel: String,
        notify_ready: bool,
        workspace_root: String,
        notify_diagnostics: Vec<String>,
    },
    CleanupResult { dry_run: bool, removed: Vec<CleanupItem>, skipped: Vec<CleanupItem> },
    MemPack { topic: String, markdown: String },
    GraphNodeReportOk {
        run_id: String,
        node_key: String,
        attempt: u32,
        status: String,
        message: String,
    },
    GraphRunControlOk { run_id: String, action: String, status: String },
    DaemonStatus {
        pid: u32,
        start_time: u64,
        version: String,
        http_port: u16,
        uptime_seconds: u64,
        active_mailboxes: u64,
        pending_messages: u64,
        sse_subscribers: u64,
        config_path: String,
        db_path: String,
    },
}

/// The HTTP status codes that replies are sent with.
#[derive(Debug)]
pub enum HttpStatus {
    Success,
    BadRequest,
    Unauthorized,
    InternalServerError,
}

impl HttpStatus {
    /// The numeric status code.
    pub open spec fn spec_code(&self) -> u16 {
        match self {
            HttpStatus::Success => 200,
            HttpStatus::BadRequest => 400,
            HttpStatus::Unauthorized => 401,
            HttpStatus::InternalServerError => 500,
        }
    }

    /// The numeric status code.
    #[verifier::when_used_as_spec(spec_code)]
    pub fn code(&self) -> (r: u16)
        ensures
            r == self.spec_code(),
    {
        match self {
            HttpStatus::Success => 200,
            HttpStatus::BadRequest => 400,
            HttpStatus::Unauthorized => 401,
            HttpStatus::InternalServerError => 500,
        }
    }
}

/// `m` is the error reply with the given code and message.
pub open spec fn is_error(m: ServerMsg, code: Seq<char>, message: Seq<char>) -> bool {
    m matches ServerMsg::Error { code: c, message: msg } && c@ == code && msg@ == message
}

/// `m` is an error reply with the given code.
pub open spec fn is_error_code(m: ServerMsg, code: Seq<char>) -> bool {
    m matches ServerMsg::Error { code: c, .. } && c@ == code
}

/// The version this build reports.
pub open spec fn spec_version() -> Seq<char> {
    seq!['0', '.', '1', '.', '0']
}

/// An error reply with the given code and message.
pub fn err(code: &str, message: &str) -> (r: ServerMsg)
    ensures
        is_error(r, code@, message@),
{
    ServerMsg::Error { code: String::from_str(code), message: String::from_str(message) }
}

/// An error reply with the given code and an owned message.
pub fn err_owned(code: &str, message: String) -> (r: ServerMsg)
    ensures
        is_error(r, code@, message@),
{
    ServerMsg::Error { code: String::from_str(code), message }
}

/// The common authentication failure reply.
pub fn auth_error(message: String) -> (r: ServerMsg)
    ensures
        is_error(r, "auth_failed"@, message@),
{
    err_owned("auth_failed", message)
}

/// The common "not implemented yet" reply.
pub fn not_supported(what: &str) -> (r: ServerMsg)
    ensures
        is_error(r, "not_supported"@, what@ + " 尚未实现"@),
{
    let mut message = String::from_str(what);
    message.append(" 尚未实现");
    err_owned("not_supported", message)
}

/// The HTTP status a reply is sent with: 401 for an authentication failure,
/// 400 for any other error, 200 otherwise.
pub fn status_for(msg: &ServerMsg) -> (r: HttpStatus)
    ensures
        is_error_code(*msg, "auth_failed"@) ==> r == HttpStatus::Unauthorized,
        (msg is Error && !is_error_code(*msg, "auth_failed"@)) ==> r == HttpStatus::BadRequest,
        !(msg is Error) ==> r == HttpStatus::Success,
{
    match msg {
        ServerMsg::Error { code, .. } => {
            if crate::text::str_eq(code.as_str(), "auth_failed") {
                HttpStatus::Unauthorized
            } else {
                HttpStatus::BadRequest
            }
        },
        _ => HttpStatus::Success,
    }
}

/// The version reply.
pub fn handle_version() -> (r: ServerMsg)
    ensures
        r matches ServerMsg::ToolVersionInfo { version } && version@ == spec_version(),
{
    proof {
        reveal_strlit("0.1.0");
    }
    ServerMsg::ToolVersionInfo { version: String::from_str("0.1.0") }
}

} // verus!
