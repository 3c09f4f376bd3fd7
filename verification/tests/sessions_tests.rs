use agtalk::proto::ServerMsg;
use agtalk::sessions::{
    inactive_cleanup_plan,
    check_reserved_name, cleanup_names, conflict_check, default_active, endpoint_key,
    endpoint_key_from_notify_config, leave_target, leaves_own_session, mark_left,
    needs_conflict_check, participant_status, recheck_reply, sender_from, session_id_from,
    session_mode, viewer_from, InactiveParticipant, MessageCounts, SessionInfo, SessionMeta,
    SessionMode, SessionRecheck, WorkspaceRow,
};

fn error_of(m: ServerMsg) -> (String, String) {
    match m {
        ServerMsg::Error { code, message } => (code, message),
        other => panic!("expected error, got {:?}", other),
    }
}

fn info(session_id: &str, name: &str) -> SessionInfo {
    SessionInfo {
        session_id: session_id.to_string(),
        workspace_id: "ws".to_string(),
        participant_id: "p1".to_string(),
        participant_name: name.to_string(),
        status: "active".to_string(),
        notify_config: None,
    }
}

#[test]
fn test_endpoint_key_empty_for_shell() {
    let shell_notify = r#"{"plugin":"terminal"}"#;
    assert_eq!(endpoint_key_from_notify_config(shell_notify), "");

    let empty_endpoint = r#"{"plugin":"terminal","endpoint":{}}"#;
    assert_eq!(endpoint_key_from_notify_config(empty_endpoint), "");
}

#[test]
fn shell_endpoint_needs_no_conflict_check() {
    let shell_notify = r#"{"plugin":"terminal"}"#;
    let key = endpoint_key_from_notify_config(shell_notify);
    assert!(key.is_empty());
    // neither join looks for conflicts, and both create plain sessions
    assert!(!needs_conflict_check(&key, false));
    assert!(matches!(session_mode(&key, false), SessionMode::Plain));
    assert!(!needs_conflict_check(&key, true));
    assert!(matches!(session_mode(&key, true), SessionMode::Plain));
}

#[test]
fn endpoint_keys_of_notify_configs() {
    let zellij = r#"{"plugin":"zellij","endpoint":{"session":"main","pane_id":"1"}}"#;
    assert_eq!(endpoint_key_from_notify_config(zellij), "zellij:main:1");
    let pane_only = r#"{"endpoint":{"pane_id":"7"}}"#;
    assert_eq!(endpoint_key_from_notify_config(pane_only), "::7");
    assert_eq!(endpoint_key_from_notify_config("garbage"), "");
    assert_eq!(endpoint_key("tmux", "s", ""), "tmux:s:");
    assert_eq!(endpoint_key("tmux", "", ""), "");
}

#[test]
fn endpoint_conflict_and_takeover_mode() {
    let key = endpoint_key("zellij", "main", "1");
    assert!(needs_conflict_check(&key, false));
    let (code, message) = error_of(conflict_check(&key, 1).unwrap_err());
    assert_eq!(code, "session_conflict");
    assert_eq!(
        message,
        "endpoint zellij:main:1 上已有 1 个 active session；如要接管请重试并设置 takeover=true"
    );
    assert!(conflict_check(&key, 0).is_ok());
    assert!(!needs_conflict_check(&key, true));
    assert!(matches!(session_mode(&key, true), SessionMode::Takeover));
}

#[test]
fn reserved_names() {
    let (code, message) = error_of(check_reserved_name("Human").unwrap_err());
    assert_eq!(code, "reserved_name");
    assert_eq!(message, "'Human' 是保留名称，不能注册为 participant");
    assert!(check_reserved_name("ME").is_err());
    assert!(check_reserved_name("nora").is_ok());
    assert!(check_reserved_name("humans").is_ok());
}

#[test]
fn participant_statuses_and_cleanup() {
    assert_eq!(participant_status(2), "online");
    assert_eq!(participant_status(0), "offline");
    let rows = vec![
        InactiveParticipant { participant_id: "p1".to_string(), name: "a".to_string(), active_sessions: 0 },
        InactiveParticipant { participant_id: "p2".to_string(), name: "b".to_string(), active_sessions: 1 },
        InactiveParticipant { participant_id: "p3".to_string(), name: "c".to_string(), active_sessions: 0 },
    ];
    assert_eq!(cleanup_names(&rows), vec!["a".to_string(), "c".to_string()]);
}

#[test]
fn senders_and_viewers() {
    let s = Some(info("s1", "nora"));
    assert_eq!(sender_from(&s, Some("bob".to_string())), "bob");
    assert_eq!(sender_from(&s, Some(String::new())), "nora");
    assert_eq!(sender_from(&s, None), "nora");
    assert_eq!(sender_from(&None, None), "human");
    assert_eq!(viewer_from(&None, Some("x".to_string())), "x");
    assert_eq!(session_id_from(&s), Some("s1".to_string()));
    assert_eq!(session_id_from(&None), None);
}

#[test]
fn session_rechecks() {
    assert!(recheck_reply(SessionRecheck::Active).is_none());
    assert_eq!(
        error_of(recheck_reply(SessionRecheck::Inactive).unwrap()),
        ("session_inactive".to_string(), "当前 session 已被退役或接管".to_string())
    );
    assert_eq!(
        error_of(recheck_reply(SessionRecheck::CheckFailed("db".to_string())).unwrap()),
        ("session_error".to_string(), "校验 session 失败: db".to_string())
    );
}

#[test]
fn leave_targets() {
    let s = Some(info("s1", "nora"));
    assert_eq!(leave_target(Some("s9".to_string()), &s).unwrap(), "s9");
    assert_eq!(leave_target(None, &s).unwrap(), "s1");
    assert_eq!(
        error_of(leave_target(None, &None).unwrap_err()),
        ("leave_failed".to_string(), "未提供 session_id 且当前未认证".to_string())
    );
    assert!(leaves_own_session(&s, "s1"));
    assert!(!leaves_own_session(&s, "s9"));
    assert!(!leaves_own_session(&None, "s1"));
}

#[test]
fn mark_left_keeps_credentials() {
    let mut meta = SessionMeta {
        id: "s1".to_string(),
        token: "tok".to_string(),
        status: default_active(),
        created_at: "2024-01-01T00:00:00Z".to_string(),
    };
    assert_eq!(meta.status, "active");
    mark_left(&mut meta);
    assert_eq!(meta.status, "left");
    assert_eq!(meta.id, "s1");
    assert_eq!(meta.token, "tok");
}

#[test]
fn plain_records() {
    let row = WorkspaceRow { id: "w".to_string(), name: "ws".to_string(), root: "/tmp/ws".to_string() };
    assert_eq!(row.root, "/tmp/ws");
    let counts = MessageCounts { unread: 2, pending: 1 };
    assert_eq!(counts.unread + counts.pending, 3);
}

#[test]
fn inactive_cleanup_dry_run_deletes_nothing() {
    let rows = vec![
        InactiveParticipant { participant_id: "p1".to_string(), name: "a".to_string(), active_sessions: 0 },
        InactiveParticipant { participant_id: "p2".to_string(), name: "b".to_string(), active_sessions: 2 },
    ];
    let p = inactive_cleanup_plan("ws1", &rows, true);
    assert_eq!(p.names, vec!["a".to_string()]);
    assert!(p.delete.is_none());
    let p = inactive_cleanup_plan("ws1", &rows, false);
    let q = p.delete.unwrap();
    assert_eq!(q.sql, "DELETE FROM agent_sessions WHERE workspace_id = ? AND status != 'active'");
    assert!(matches!(&q.params[0], agtalk::mem::SqlParam::Text(w) if w == "ws1"));
}
