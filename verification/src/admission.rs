//! Admission of requests to the `/api` message endpoint: which need a session and what a missing or bad one is answered.

use vstd::prelude::*;
use crate::proto::{ServerMsg, HttpStatus, err, err_owned, is_error};

verus! {

/// The kinds of client request the message endpoint serves.
#[derive(Debug)]
pub enum ClientKind {
    Auth,
    Join,
    Attach,
    Leave,
    Cleanup,
    Ask,
    Reply,
    Wait,
    Send,
    Inbox,
    Done,
    Register,
    Unregister,
    ListParticipants,
    ListConversations,
    GetMessages,
    GetMessage,
    Detail,
    Attachment,
    Read,
    WhoAmI,
    CreateConversation,
    MemTopicAdd,
    MemTopicList,
    MemTopicShow,
    MemTopicUpdate,
    MemAdd,
    MemShow,
    MemUpdate,
    MemArchive,
    MemPromote,
    MemSearch,
    MemPack,
    MemList,
    PollInbox,
    Ping,
}

/// Requests served without authentication: ping, authenticating, joining,
/// attaching and listing participants.
pub open spec fn spec_auth_exempt(k: ClientKind) -> bool {
    match k {
        ClientKind::Ping | ClientKind::Auth | ClientKind::Join | ClientKind::Attach
        | ClientKind::ListParticipants => true,
        _ => false,
    }
}

/// Requests that must carry an explicit session id and token (no fallback
/// by participant name).
pub open spec fn spec_requires_strict_auth(k: ClientKind) -> bool {
    k == ClientKind::PollInbox
}

/// Whether the request is served without authentication.
pub fn auth_exempt(k: &ClientKind) -> (r: bool)
    ensures
        r == spec_auth_exempt(*k),
{
    match k {
        ClientKind::Ping | ClientKind::Auth | ClientKind::Join | ClientKind::Attach
        | ClientKind::ListParticipants => true,
        _ => false,
    }
}

/// What checking the session headers found.
#[derive(Debug)]
pub enum SessionHeaderCheck {
    /// The request carried no session id and token pair.
    NotProvided,
    /// The pair names a session.
    Valid,
    /// The pair names no session.
    Invalid,
    /// The check failed, with this message.
    Failed(String),
}

/// The next step of admission.
#[derive(Debug)]
pub enum AdmissionStep {
    /// Serve the request.
    Proceed,
    /// Look the sender up by the `X-Agtalk-Name` header, then call
    /// `admit_after_fallback`.
    TryNameFallback,
    /// Refuse with this status and reply.
    Reject(HttpStatus, ServerMsg),
}

/// The request is let through at once.
pub open spec fn spec_admission_proceeds(kind: ClientKind, check: SessionHeaderCheck) -> bool {
    spec_auth_exempt(kind) || check == SessionHeaderCheck::Valid
}

/// The request is looked up by participant name.
pub open spec fn spec_admission_falls_back(kind: ClientKind, check: SessionHeaderCheck) -> bool {
    !spec_auth_exempt(kind) && check == SessionHeaderCheck::NotProvided && !spec_requires_strict_auth(kind)
}

/// First step of admission, after the session headers were checked (the
/// check is skipped, and `NotProvided` given, for exempt requests).
pub fn admit_after_headers(kind: &ClientKind, check: SessionHeaderCheck) -> (r: AdmissionStep)
    ensures
        (r == AdmissionStep::Proceed) == spec_admission_proceeds(*kind, check),
        (r == AdmissionStep::TryNameFallback) == spec_admission_falls_back(*kind, check),
        spec_auth_exempt(*kind) ==> r == AdmissionStep::Proceed,
        !spec_auth_exempt(*kind) ==> match check {
            SessionHeaderCheck::Valid => r == AdmissionStep::Proceed,
            SessionHeaderCheck::Invalid => r matches AdmissionStep::Reject(s, m) && s == HttpStatus::Unauthorized
                && is_error(m, "auth_failed"@, "session_id 或 token 无效"@),
            SessionHeaderCheck::Failed(e) => r matches AdmissionStep::Reject(s, m) && s
                == HttpStatus::InternalServerError && is_error(m, "auth_error"@, "校验 session 失败: "@ + e@),
            SessionHeaderCheck::NotProvided => if spec_requires_strict_auth(*kind) {
                r matches AdmissionStep::Reject(s, m) && s == HttpStatus::Unauthorized && is_error(
                    m,
                    "poll_inbox_requires_session_token"@,
                    "PollInbox 必须提供 X-Agtalk-Session-Id 和 X-Agtalk-Token"@,
                )
            } else {
                r == AdmissionStep::TryNameFallback
            },
        },
{
    if auth_exempt(kind) {
        return AdmissionStep::Proceed;
    }
    match check {
        SessionHeaderCheck::Valid => AdmissionStep::Proceed,
        SessionHeaderCheck::Invalid => AdmissionStep::Reject(
            HttpStatus::Unauthorized,
            err("auth_failed", "session_id 或 token 无效"),
        ),
        SessionHeaderCheck::Failed(e) => {
            let mut m = String::from_str("校验 session 失败: ");
            m.append(e.as_str());
            AdmissionStep::Reject(HttpStatus::InternalServerError, err_owned("auth_error", m))
        },
        SessionHeaderCheck::NotProvided => {
            let strict = match kind {
                ClientKind::PollInbox => true,
                _ => false,
            };
            if strict {
                AdmissionStep::Reject(
                    HttpStatus::Unauthorized,
                    err(
                        "poll_inbox_requires_session_token",
                        "PollInbox 必须提供 X-Agtalk-Session-Id 和 X-Agtalk-Token",
                    ),
                )
            } else {
                AdmissionStep::TryNameFallback
            }
        },
    }
}

/// Last step of admission: whether the name fallback found an active session.
pub fn admit_after_fallback(found_session: bool) -> (r: Result<(), (HttpStatus, ServerMsg)>)
    ensures
        found_session ==> r is Ok,
        !found_session ==> (r matches Err((s, m)) && s == HttpStatus::Unauthorized && is_error(
            m,
            "auth_required"@,
            "缺少 X-Agtalk-Session-Id / X-Agtalk-Token 或 X-Agtalk-Name header"@,
        )),
{
    if found_session {
        Ok(())
    } else {
        Err(
            (
                HttpStatus::Unauthorized,
                err("auth_required", "缺少 X-Agtalk-Session-Id / X-Agtalk-Token 或 X-Agtalk-Name header"),
            ),
        )
    }
}

/// A long poll never gets past admission on a participant name alone: it goes
/// through exactly when it carries a valid session pair.
pub proof fn lemma_poll_needs_session(check: SessionHeaderCheck)
    ensures
        spec_admission_proceeds(ClientKind::PollInbox, check) <==> check == SessionHeaderCheck::Valid,
        !spec_admission_falls_back(ClientKind::PollInbox, check),
{
}

/// Requests served without authentication always go through, whatever
/// headers they carry.
pub proof fn lemma_exempt_always_proceeds(kind: ClientKind, check: SessionHeaderCheck)
    requires
        spec_auth_exempt(kind),
    ensures
        spec_admission_proceeds(kind, check),
        !spec_admission_falls_back(kind, check),
{
}

} // verus!
