use agtalk::handlers::{auth_request_from_headers, workspace_root_from_headers};
use agtalk::proto::{
    auth_error, err, handle_version, not_supported, status_for, HttpStatus, ServerMsg,
};

fn error_code(msg: &ServerMsg) -> Option<&str> {
    match msg {
        ServerMsg::Error { code, .. } => Some(code.as_str()),
        _ => None,
    }
}

#[test]
fn workspace_root_requires_header() {
    let err = workspace_root_from_headers(None).unwrap_err();
    assert!(matches!(err, ServerMsg::Error { ref code, .. } if code == "workspace_root_required"));
}

#[test]
fn workspace_root_rejects_non_absolute_or_non_dot_agtalk_path() {
    for value in [".agtalk", "/tmp/not-agtalk", "relative/.agtalk"] {
        let err = workspace_root_from_headers(Some(value)).unwrap_err();
        assert!(matches!(err, ServerMsg::Error { ref code, .. } if code == "workspace_root_invalid"));
    }
}

#[test]
fn workspace_root_accepts_absolute_dot_agtalk_path() {
    assert_eq!(
        workspace_root_from_headers(Some("/tmp/project/.agtalk")).unwrap(),
        "/tmp/project/.agtalk".to_string()
    );
}

#[test]
fn workspace_root_empty_header_is_missing() {
    let err = workspace_root_from_headers(Some("")).unwrap_err();
    assert_eq!(error_code(&err), Some("workspace_root_required"));
}

#[test]
fn workspace_root_trailing_slash_still_names_dot_agtalk() {
    assert_eq!(
        workspace_root_from_headers(Some("/tmp/project/.agtalk/")).unwrap(),
        "/tmp/project/.agtalk/".to_string()
    );
    let err = workspace_root_from_headers(Some("/tmp/.agtalk/..")).unwrap_err();
    assert_eq!(error_code(&err), Some("workspace_root_invalid"));
}

#[test]
fn auth_request_requires_address() {
    let r = auth_request_from_headers(None, None, None, None, Some("/w/.agtalk"), "/d/.agtalk");
    match r {
        Err(ServerMsg::Error { code, message }) => {
            assert_eq!(code, "auth_failed");
            assert_eq!(message, "缺少 X-AgTalk-Address");
        }
        other => panic!("unexpected {:?}", other),
    }
}

#[test]
fn auth_request_parses_pid_and_uses_header_root() {
    let a = auth_request_from_headers(
        Some("addr-1"),
        Some("4242"),
        Some("x17"),
        None,
        Some("/w/.agtalk"),
        "/d/.agtalk",
    )
    .unwrap();
    assert_eq!(a.address, "addr-1");
    assert_eq!(a.pid, Some(4242));
    assert_eq!(a.start_time, None);
    assert_eq!(a.browser_token, None);
    assert_eq!(a.workspace_root, "/w/.agtalk");
}

#[test]
fn auth_request_browser_token_uses_daemon_root() {
    let a = auth_request_from_headers(
        Some("addr-1"),
        None,
        Some("1700000000"),
        Some("tok"),
        None,
        "/d/.agtalk",
    )
    .unwrap();
    assert_eq!(a.start_time, Some(1_700_000_000));
    assert_eq!(a.browser_token, Some("tok".to_string()));
    assert_eq!(a.workspace_root, "/d/.agtalk");
}

#[test]
fn auth_request_without_token_needs_valid_root() {
    let r = auth_request_from_headers(Some("a"), None, None, None, Some("/tmp/x"), "/d/.agtalk");
    assert_eq!(error_code(&r.unwrap_err()), Some("workspace_root_invalid"));
}

#[test]
fn status_codes_follow_error_kind() {
    assert_eq!(status_for(&auth_error("bad".to_string())).code(), 401);
    assert_eq!(status_for(&err("x", "y")).code(), 400);
    assert_eq!(status_for(&ServerMsg::Pong).code(), 200);
    assert!(matches!(status_for(&ServerMsg::Pong), HttpStatus::Success));
}

#[test]
fn not_supported_message() {
    match not_supported("导出") {
        ServerMsg::Error { code, message } => {
            assert_eq!(code, "not_supported");
            assert_eq!(message, "导出 尚未实现");
        }
        other => panic!("unexpected {:?}", other),
    }
}

#[test]
fn version_reply() {
    match handle_version() {
        ServerMsg::ToolVersionInfo { version } => assert_eq!(version, "0.1.0"),
        other => panic!("unexpected {:?}", other),
    }
}
