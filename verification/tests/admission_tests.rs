use agtalk::admission::{
    auth_exempt, admit_after_fallback, admit_after_headers, ClientKind, AdmissionStep, SessionHeaderCheck,
};
use agtalk::proto::{HttpStatus, ServerMsg};

fn rejection(step: AdmissionStep) -> (u16, String, String) {
    match step {
        AdmissionStep::Reject(status, ServerMsg::Error { code, message }) => (status.code(), code, message),
        other => panic!("expected a rejection, got {:?}", other),
    }
}

#[test]
fn exempt_requests() {
    for k in [ClientKind::Ping, ClientKind::Auth, ClientKind::Join, ClientKind::Attach, ClientKind::ListParticipants] {
        assert!(auth_exempt(&k));
        assert!(matches!(admit_after_headers(&k, SessionHeaderCheck::Invalid), AdmissionStep::Proceed));
    }
    assert!(!auth_exempt(&ClientKind::Send));
    assert!(!auth_exempt(&ClientKind::PollInbox));
}

#[test]
fn valid_session_proceeds() {
    assert!(matches!(admit_after_headers(&ClientKind::Send, SessionHeaderCheck::Valid), AdmissionStep::Proceed));
    assert!(matches!(admit_after_headers(&ClientKind::PollInbox, SessionHeaderCheck::Valid), AdmissionStep::Proceed));
}

#[test]
fn invalid_or_failed_session_is_refused() {
    assert_eq!(
        rejection(admit_after_headers(&ClientKind::Send, SessionHeaderCheck::Invalid)),
        (401, "auth_failed".to_string(), "session_id 或 token 无效".to_string())
    );
    assert_eq!(
        rejection(admit_after_headers(&ClientKind::Inbox, SessionHeaderCheck::Failed("db".to_string()))),
        (500, "auth_error".to_string(), "校验 session 失败: db".to_string())
    );
}

#[test]
fn poll_inbox_needs_session_pair() {
    assert_eq!(
        rejection(admit_after_headers(&ClientKind::PollInbox, SessionHeaderCheck::NotProvided)),
        (
            401,
            "poll_inbox_requires_session_token".to_string(),
            "PollInbox 必须提供 X-Agtalk-Session-Id 和 X-Agtalk-Token".to_string()
        )
    );
}

#[test]
fn other_requests_fall_back_to_name() {
    assert!(matches!(
        admit_after_headers(&ClientKind::Send, SessionHeaderCheck::NotProvided),
        AdmissionStep::TryNameFallback
    ));
    assert!(admit_after_fallback(true).is_ok());
    match admit_after_fallback(false) {
        Err((HttpStatus::Unauthorized, ServerMsg::Error { code, message })) => {
            assert_eq!(code, "auth_required");
            assert_eq!(message, "缺少 X-Agtalk-Session-Id / X-Agtalk-Token 或 X-Agtalk-Name header");
        }
        other => panic!("unexpected {:?}", other),
    }
}
