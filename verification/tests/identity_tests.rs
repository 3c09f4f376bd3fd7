use agtalk::identity::{
    cleanup_plan, leave_by_address, leave_plan,
    identity_reply, plan_join, SessionFileView,
    anchor_items, cleanup_result, discover_result, first_segment, is_uuid, join_action, join_intro, join_name, JoinAction,
    leave_reply,
    notify_plan, notify_ready, notify_summary, short_id, stale_identities, validate_pid,
    DiscoverOutcome, MailboxRecord, NotifyPlan, PidAnchor, SessionRecord,
};
use agtalk::proto::{CleanupItem, ServerMsg};

fn mailbox(name: &str, address: &str, left: bool) -> MailboxRecord {
    MailboxRecord { name: name.to_string(), address: address.to_string(), left }
}

fn session(name: &str, address: &str) -> SessionRecord {
    SessionRecord { name: name.to_string(), address: address.to_string() }
}

fn reasons(items: &[CleanupItem]) -> Vec<&str> {
    items.iter().map(|i| i.reason.as_str()).collect()
}

/// The items the cleanup of a workspace reports: stale identities, then the
/// removed pid anchors.
fn cleanup_items(
    mailboxes: &Vec<MailboxRecord>,
    sessions: &Vec<SessionRecord>,
    anchors: &Vec<PidAnchor>,
) -> Vec<CleanupItem> {
    let mut items = stale_identities(mailboxes, sessions);
    items.extend(anchor_items(anchors, sessions, "stale_pid_anchor"));
    items
}

#[test]
fn stale_report_dry_run_lists_mailbox_and_anchor() {
    // the session file of "builder" was removed, its mailbox and anchor remain
    let mailboxes = vec![mailbox("builder", "addr-r", false)];
    let anchors = vec![PidAnchor { pid: 4321, name: "builder".to_string() }];
    let items = cleanup_items(&mailboxes, &vec![], &anchors);
    match cleanup_result(false, items) {
        ServerMsg::CleanupResult { dry_run, removed, skipped } => {
            assert!(dry_run);
            let reasons = reasons(&removed);
            assert!(reasons.contains(&"stale_mailbox"));
            assert!(reasons.contains(&"stale_pid_anchor"));
            assert!(skipped.is_empty());
        }
        other => panic!("expected CleanupResult, got {:?}", other),
    }
}

#[test]
fn stale_report_execute_lists_mailbox_and_anchor() {
    let mailboxes = vec![mailbox("builder", "addr-r", false)];
    let anchors = vec![PidAnchor { pid: 4321, name: "builder".to_string() }];
    let items = cleanup_items(&mailboxes, &vec![], &anchors);
    match cleanup_result(true, items) {
        ServerMsg::CleanupResult { dry_run, removed, skipped } => {
            assert!(!dry_run);
            let reasons = reasons(&removed);
            assert!(reasons.contains(&"stale_mailbox"));
            assert!(reasons.contains(&"stale_pid_anchor"));
            assert!(skipped.is_empty());
        }
        other => panic!("expected CleanupResult, got {:?}", other),
    }
}

#[test]
fn stale_session_without_mailbox() {
    let sessions = vec![session("orphan", "00000000-0000-0000-0000-000000000001")];
    let items = stale_identities(&vec![], &sessions);
    assert_eq!(reasons(&items), vec!["stale_session"]);
    assert_eq!(items[0].name, "orphan");
    assert_eq!(items[0].address, "00000000-0000-0000-0000-000000000001");
}

#[test]
fn stale_session_when_mailbox_left() {
    let mailboxes = vec![mailbox("builder", "addr-r", true)];
    let sessions = vec![session("builder", "addr-r")];
    let items = stale_identities(&mailboxes, &sessions);
    assert_eq!(reasons(&items), vec!["stale_session"]);
}

#[test]
fn stale_pid_anchor_named_by_pid() {
    let mailboxes = vec![mailbox("builder", "addr-r", false)];
    let anchors = vec![PidAnchor { pid: 99999, name: "builder".to_string() }];
    let items = cleanup_items(&mailboxes, &vec![], &anchors);
    match cleanup_result(true, items) {
        ServerMsg::CleanupResult { dry_run, removed, skipped } => {
            assert!(!dry_run);
            let reasons = reasons(&removed);
            assert!(reasons.contains(&"stale_mailbox"));
            assert!(reasons.contains(&"stale_pid_anchor"));
            assert!(skipped.is_empty());
            assert!(removed
                .iter()
                .any(|i| i.reason == "stale_pid_anchor" && i.name.contains("99999")));
        }
        other => panic!("expected CleanupResult, got {:?}", other),
    }
}

#[test]
fn live_identity_is_not_stale() {
    let mailboxes = vec![mailbox("a", "addr-a", false), mailbox("b", "addr-b", true)];
    let sessions = vec![session("a", "addr-a")];
    assert!(stale_identities(&mailboxes, &sessions).is_empty());
}

#[test]
fn stale_order_mailboxes_then_sessions() {
    let mailboxes = vec![
        mailbox("a", "addr-a", false),
        mailbox("b", "addr-b", false),
        mailbox("c", "addr-c", false),
    ];
    // "b" holds another address; "x" has no mailbox at all; "c" is live
    let sessions = vec![session("b", "addr-other"), session("x", "addr-x"), session("c", "addr-c")];
    let items = stale_identities(&mailboxes, &sessions);
    let got: Vec<(&str, &str, &str)> = items
        .iter()
        .map(|i| (i.name.as_str(), i.address.as_str(), i.reason.as_str()))
        .collect();
    assert_eq!(
        got,
        vec![
            ("a", "addr-a", "stale_mailbox"),
            ("b", "addr-b", "stale_mailbox"),
            ("b", "addr-other", "stale_session"),
            ("x", "addr-x", "stale_session"),
        ]
    );
}

#[test]
fn anchor_items_name_pid_and_address() {
    let sessions = vec![session("rev", "addr-1")];
    let anchors = vec![
        PidAnchor { pid: 12, name: "rev".to_string() },
        PidAnchor { pid: 0, name: "ghost".to_string() },
    ];
    let items = anchor_items(&anchors, &sessions, "dead_pid");
    assert_eq!(items.len(), 2);
    assert_eq!(items[0].name, "rev (pid 12)");
    assert_eq!(items[0].address, "addr-1");
    assert_eq!(items[0].reason, "dead_pid");
    assert_eq!(items[1].name, "ghost (pid 0)");
    assert_eq!(items[1].address, "");
}

#[test]
fn notify_summaries() {
    assert_eq!(notify_summary("none"), "none");
    assert_eq!(notify_summary("NONE"), "none");
    assert_eq!(notify_summary(""), "none");
    assert_eq!(notify_summary("Zellij"), "zellij");
    assert_eq!(notify_summary("TMUX"), "tmux");
    assert_eq!(notify_summary("plugin:wezterm"), "plugin:wezterm");
    assert_eq!(notify_summary("kitty"), "unknown");
    assert!(!notify_ready("None"));
    assert!(!notify_ready(""));
    assert!(notify_ready("kitty"));
}

#[test]
fn pid_validation() {
    assert_eq!(
        validate_pid(0, Some(5)).unwrap_err(),
        "start_time 不可能为 0（进程可能已退出或 sysinfo 读不到）"
    );
    assert_eq!(validate_pid(5, None).unwrap_err(), "进程不存在");
    assert_eq!(validate_pid(5, Some(0)).unwrap_err(), "OS 返回 start_time=0，进程状态异常");
    assert_eq!(validate_pid(5, Some(6)).unwrap_err(), "PID start_time 不匹配（可能已被 OS 复用）");
    assert!(validate_pid(5, Some(5)).is_ok());
}

#[test]
fn notify_plans() {
    assert!(matches!(notify_plan("None", true), NotifyPlan::NoChannel));
    match notify_plan("plugin:wez", true) {
        NotifyPlan::PluginWithEndpoint { name } => assert_eq!(name, "wez"),
        other => panic!("unexpected {:?}", other),
    }
    match notify_plan("plugin:wez", false) {
        NotifyPlan::PluginDiscover { name } => assert_eq!(name, "wez"),
        other => panic!("unexpected {:?}", other),
    }
    assert!(matches!(notify_plan("AUTO", false), NotifyPlan::AutoDetect));
    assert!(matches!(notify_plan("zellij", false), NotifyPlan::NoChannel));
}

#[test]
fn discover_errors() {
    assert!(discover_result("wez", &DiscoverOutcome::Ready).is_ok());
    assert_eq!(discover_result("wez", &DiscoverOutcome::UnknownChannel).unwrap_err(), "plugin:wez 通道无效");
    assert_eq!(discover_result("wez", &DiscoverOutcome::Empty).unwrap_err(), "plugin:wez discover 返回空");
    assert_eq!(
        discover_result("wez", &DiscoverOutcome::NotReady("busy".to_string())).unwrap_err(),
        "plugin:wez discover 未就绪: busy"
    );
    assert_eq!(
        discover_result("wez", &DiscoverOutcome::Failed("io".to_string())).unwrap_err(),
        "plugin:wez discover 失败: io"
    );
}

#[test]
fn leave_reply_reports_removed_session_only_on_purge() {
    match leave_reply("addr".to_string(), "rev".to_string(), false, true) {
        ServerMsg::IdentityLeft { address, name, removed_session, purge } => {
            assert_eq!(address, "addr");
            assert_eq!(name, "rev");
            assert!(!removed_session);
            assert!(!purge);
        }
        other => panic!("unexpected {:?}", other),
    }
    match leave_reply("addr".to_string(), "rev".to_string(), true, true) {
        ServerMsg::IdentityLeft { removed_session, purge, .. } => {
            assert!(removed_session);
            assert!(purge);
        }
        other => panic!("unexpected {:?}", other),
    }
}

#[test]
fn uuid_targets() {
    assert!(is_uuid("00000000-0000-0000-0000-000000000001"));
    assert!(is_uuid("67e5504410b1426f9247bb680e5fe0c8"));
    assert!(!is_uuid("builder"));
    assert!(!is_uuid(""));
}

#[test]
fn short_ids() {
    assert_eq!(first_segment("67e55044-10b1-426f"), "67e55044");
    assert_eq!(first_segment("nodash"), "nodash");
    assert_eq!(first_segment("-lead"), "");
    let id = short_id();
    assert_eq!(id.len(), 8);
    assert!(id.chars().all(|c| c.is_ascii_digit() || ('a'..='f').contains(&c)));
}

#[test]
fn join_names_and_intros() {
    assert_eq!(join_name(Some("builder".to_string())), "builder");
    let n = join_name(None);
    assert!(n.starts_with("agent-"));
    assert_eq!(n.len(), "agent-".len() + 8);
    assert!(n[6..].chars().all(|c| c.is_ascii_digit() || ('a'..='f').contains(&c)));
    assert_eq!(join_intro(Some("new".to_string()), Some("old".to_string())), "new");
    assert_eq!(join_intro(None, Some("old".to_string())), "old");
    assert_eq!(join_intro(None, None), "");
}

#[test]
fn rejoin_reuses_session_address() {
    match join_action(Some("00000000-0000-0000-0000-00000000000a".to_string())) {
        JoinAction::Revive { address } => assert_eq!(address, "00000000-0000-0000-0000-00000000000a"),
        other => panic!("unexpected {:?}", other),
    }
    assert!(matches!(join_action(None), JoinAction::Create));
    // a second join without a new intro keeps the first one
    let first = join_intro(Some("展示用 intro".to_string()), None);
    assert_eq!(join_intro(None, Some(first.clone())), first);
}

#[test]
fn uuid_text_forms() {
    assert!(is_uuid("67E55044-10B1-426F-9247-BB680E5FE0C8"));
    assert!(is_uuid("{67e55044-10b1-426f-9247-bb680e5fe0c8}"));
    assert!(is_uuid("URN:uuid:67e55044-10b1-426f-9247-bb680e5fe0c8"));
    assert!(!is_uuid("67e55044-10b1-426f-9247-bb680e5fe0cg"));
    assert!(!is_uuid("67e5504410b1-426f-9247-bb680e5fe0c8-"));
    assert!(!is_uuid("{67e55044-10b1-426f-9247-bb680e5fe0c8"));
}

fn session_file(address: &str, intro: &str, created_at: &str) -> SessionFileView {
    SessionFileView {
        address: address.to_string(),
        intro: intro.to_string(),
        created_at: created_at.to_string(),
    }
}

#[test]
fn join_plans() {
    match plan_join(Err("进程不存在".to_string()), "nora".to_string(), None, None, Ok("none".to_string())) {
        Err(ServerMsg::Error { code, message }) => {
            assert_eq!(code, "auth_failed");
            assert_eq!(message, "进程不存在");
        }
        other => panic!("unexpected {:?}", other),
    }
    match plan_join(Ok(()), "nora".to_string(), None, None, Err("plugin:x 通道无效".to_string())) {
        Err(ServerMsg::Error { code, message }) => {
            assert_eq!(code, "join_failed");
            assert_eq!(message, "plugin:x 通道无效");
        }
        other => panic!("unexpected {:?}", other),
    }
    let first = plan_join(Ok(()), "nora".to_string(), Some("前端".to_string()), None, Ok("none".to_string())).unwrap();
    assert!(matches!(first.action, JoinAction::Create));
    assert_eq!(first.intro, "前端");
    assert_eq!(first.created_at, None);
    assert!(!first.notify_ready);
    // the first join wrote address a1; joining again reuses it
    let again = plan_join(
        Ok(()),
        "nora".to_string(),
        None,
        Some(session_file("a1", &first.intro, "2024-01-01T00:00:00Z")),
        Ok("zellij".to_string()),
    )
    .unwrap();
    assert!(matches!(again.action, JoinAction::Revive { ref address } if address == "a1"));
    assert_eq!(again.intro, "前端");
    assert_eq!(again.created_at, Some("2024-01-01T00:00:00Z".to_string()));
    assert_eq!(again.notify_channel, "zellij");
    assert!(again.notify_ready);
    match identity_reply("a1".into(), "nora".into(), "前端".into(), "zellij".into(), true, "/w/.agtalk".into()) {
        ServerMsg::Identity { address, notify_ready, notify_diagnostics, workspace_root, .. } => {
            assert_eq!(address, "a1");
            assert!(notify_ready);
            assert!(notify_diagnostics.is_empty());
            assert_eq!(workspace_root, "/w/.agtalk");
        }
        other => panic!("unexpected {:?}", other),
    }
}

#[test]
fn cleanup_plan_dry_run_removes_nothing() {
    let mailboxes = vec![mailbox("builder", "addr-r", false)];
    let sessions = vec![session("orphan", "addr-o")];
    let anchors = vec![
        PidAnchor { pid: 4321, name: "builder".to_string() },
        PidAnchor { pid: 7, name: "orphan".to_string() },
    ];
    let p = cleanup_plan(false, &mailboxes, &sessions, anchors);
    assert_eq!(reasons(&p.items), vec!["stale_mailbox", "stale_session", "stale_pid_anchor"]);
    assert_eq!(p.items[2].name, "builder (pid 4321)");
    assert!(p.mark_left.is_empty() && p.remove_sessions.is_empty() && p.remove_anchor_pids.is_empty());
    assert!(!p.check_dead_anchors);
}

#[test]
fn cleanup_plan_execute_removes_stale() {
    let mailboxes = vec![mailbox("builder", "addr-r", false), mailbox("live", "addr-l", false)];
    let sessions = vec![session("orphan", "addr-o"), session("live", "addr-l")];
    let anchors = vec![PidAnchor { pid: 99999, name: "builder".to_string() }];
    let p = cleanup_plan(true, &mailboxes, &sessions, anchors);
    assert_eq!(p.mark_left, vec!["addr-r".to_string()]);
    assert_eq!(p.remove_sessions, vec!["orphan".to_string()]);
    assert_eq!(p.remove_anchor_pids, vec![99999]);
    assert!(p.check_dead_anchors);
}

#[test]
fn leave_by_address_targets_one_mailbox() {
    let (a, n, root) = leave_by_address("bob-addr".to_string(), Ok(Some("bob".to_string())), "/d/.agtalk").unwrap();
    assert_eq!((a.as_str(), n.as_str(), root.as_str()), ("bob-addr", "bob", "/d/.agtalk"));
    match leave_by_address("x".to_string(), Ok(None), "/d") {
        Err(ServerMsg::Error { code, message }) => {
            assert_eq!((code.as_str(), message.as_str()), ("leave_failed", "address 不存在或已离开: x"));
        }
        other => panic!("unexpected {:?}", other),
    }
    let p = leave_plan(a, n, root, false);
    assert_eq!(p.mark_left, "bob-addr");
    assert!(!p.remove_session_file);
    assert_eq!(p.remove_anchors_of, "bob");
    assert!(leave_plan("a".into(), "b".into(), "/r".into(), true).remove_session_file);
}
