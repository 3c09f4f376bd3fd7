use agtalk::graph::{
    control_plan,
    blocked_report, cancel_targets, commit_failure_report, verified_report, control_reply, dispatch_subject, failure_report, graph_error_msg, has_repair_node,
    heartbeat_report, heartbeat_step, patch_reply, needs_retry_after_repair, node_not_found, node_report_ok, parse_control_action, patch_gate,
    plan_dispatch, plan_failure, plan_workspace, result_step, ControlAction, DispatchPlan,
    FailureAction, FailurePlan, GraphErrorKind, HeartbeatStep, NodeRunStatus, ResultStep, VerifyCheck,
    WorkspacePlan,
};
use agtalk::proto::ServerMsg;

fn code_and_message(m: ServerMsg) -> (String, String) {
    match m {
        ServerMsg::Error { code, message } => (code, message),
        other => panic!("expected an error, got {:?}", other),
    }
}

fn check(status: &str, detail: &str) -> VerifyCheck {
    VerifyCheck {
        verifier_type: "command".to_string(),
        rule: "tests".to_string(),
        status: status.to_string(),
        detail: detail.to_string(),
    }
}

fn strings(v: &[&str]) -> Vec<String> {
    v.iter().map(|s| s.to_string()).collect()
}

#[test]
fn heartbeat_then_result_steps() {
    // dispatched → running on the first heartbeat
    assert!(matches!(heartbeat_step(&NodeRunStatus::Dispatched), Ok(HeartbeatStep::StartRunning)));
    // a later heartbeat renews the lease
    assert!(matches!(heartbeat_step(&NodeRunStatus::Running), Ok(HeartbeatStep::RenewLease)));
    // a result of a running node goes to verification
    assert!(matches!(result_step(&NodeRunStatus::Running, &vec![]), Ok(ResultStep::Verify)));
    let reply = node_report_ok("run-1", "only", 1, "succeeded".to_string(), "ok".to_string());
    assert!(matches!(reply, ServerMsg::GraphNodeReportOk { ref status, .. } if status == "succeeded"));
}

#[test]
fn heartbeat_refused_after_finish() {
    let (code, message) = code_and_message(heartbeat_step(&NodeRunStatus::Succeeded).unwrap_err());
    assert_eq!(code, "graph_invalid_node_state");
    assert_eq!(message, "节点状态 succeeded 不能上报 heartbeat");
    let (_, message) = code_and_message(heartbeat_step(&NodeRunStatus::Pending).unwrap_err());
    assert_eq!(message, "节点状态 pending 不能上报 heartbeat");
}

#[test]
fn blocker_result_blocks_node_step() {
    assert!(matches!(heartbeat_step(&NodeRunStatus::Dispatched), Ok(HeartbeatStep::StartRunning)));
    match result_step(&NodeRunStatus::Running, &strings(&["需要人类决策"])) {
        Ok(ResultStep::Block { failure_type, detail }) => {
            assert_eq!(failure_type, "semantic_blocker");
            assert_eq!(detail, "需要人类决策");
        }
        other => panic!("unexpected {:?}", other),
    }
    let reply = blocked_report("run-1", "only", 1);
    assert!(matches!(reply, ServerMsg::GraphNodeReportOk { ref status, .. } if status == "blocked"));
    match reply {
        ServerMsg::GraphNodeReportOk { run_id, node_key, attempt, message, .. } => {
            assert_eq!((run_id.as_str(), node_key.as_str(), attempt), ("run-1", "only", 1));
            assert_eq!(message, "已记录 blocker，节点阻塞");
        }
        other => panic!("unexpected {:?}", other),
    }
}

#[test]
fn several_blockers_are_joined() {
    let blockers = strings(&["missing credentials", "no network"]);
    match result_step(&NodeRunStatus::Running, &blockers) {
        Ok(ResultStep::Block { detail, .. }) => assert_eq!(detail, "missing credentials; no network"),
        other => panic!("unexpected {:?}", other),
    }
    let (code, message) = code_and_message(result_step(&NodeRunStatus::Dispatched, &blockers).unwrap_err());
    assert_eq!(code, "graph_invalid_node_state");
    assert_eq!(message, "节点状态 dispatched 不能提交结果");
}

#[test]
fn retryable_failure_plans_new_attempt() {
    // an empty result is a contract violation; retryable, max 2 attempts
    let plan = plan_failure(None, &vec![], &strings(&["contract_violation"]), 1, 2, false);
    assert_eq!(plan.failure_type, "contract_violation");
    assert!(matches!(plan.action, FailureAction::Retry { next_attempt: 2 }));
    let (status, _) = failure_report(&plan, true);
    assert_eq!(status, "retrying");
    // attempt 2 failing again has no attempt left
    let plan = plan_failure(None, &vec![], &strings(&["contract_violation"]), 2, 2, false);
    assert!(matches!(plan.action, FailureAction::Fail));
}

#[test]
fn failure_detail_is_first_failed_check() {
    let checks = vec![check("passed", "fine"), check("failed", "exit 1"), check("failed", "later")];
    let plan = plan_failure(
        Some("test_failure".to_string()),
        &checks,
        &strings(&["test_failure", "timeout"]),
        1,
        3,
        false,
    );
    assert_eq!(plan.failure_type, "test_failure");
    assert_eq!(plan.detail, "exit 1");
    assert!(matches!(plan.action, FailureAction::Retry { next_attempt: 2 }));
    let (status, message) = failure_report(&plan, true);
    assert_eq!(status, "retrying");
    assert_eq!(message, "验证失败（test_failure），重试 attempt 2");
    let (status, message) = failure_report(&plan, false);
    assert_eq!(status, "failed");
    assert_eq!(message, "验证失败（test_failure）：exit 1");
}

#[test]
fn failure_without_attempts_left_stays_failed() {
    let plan = plan_failure(None, &vec![], &strings(&["contract_violation"]), 3, 3, false);
    assert_eq!(plan.failure_type, "contract_violation");
    assert_eq!(plan.detail, "验证未通过");
    assert!(matches!(plan.action, FailureAction::Fail));
    let plan = plan_failure(Some("other".to_string()), &vec![], &strings(&["x"]), 1, 3, false);
    assert!(matches!(plan.action, FailureAction::Fail));
}

#[test]
fn failure_with_repairer_enters_repair() {
    let plan = plan_failure(Some("t".to_string()), &vec![], &strings(&["t"]), 1, 3, true);
    assert!(matches!(plan.action, FailureAction::Repair));
    let (status, message) = failure_report(&plan, false);
    assert_eq!(status, "failed_repairing");
    assert_eq!(message, "验证失败（t），进入修复流程");
}

#[test]
fn failure_report_of_plain_failure() {
    let plan = FailurePlan {
        failure_type: "lint".to_string(),
        detail: "3 warnings".to_string(),
        action: FailureAction::Fail,
    };
    assert_eq!(
        failure_report(&plan, true),
        ("failed".to_string(), "验证失败（lint）：3 warnings".to_string())
    );
}

#[test]
fn repair_node_lookup() {
    let lists = vec![strings(&["a"]), strings(&[]), strings(&["b", "c"])];
    assert!(has_repair_node(&lists, "c"));
    assert!(has_repair_node(&lists, "a"));
    assert!(!has_repair_node(&lists, "d"));
    assert!(needs_retry_after_repair(&NodeRunStatus::Failed));
    assert!(needs_retry_after_repair(&NodeRunStatus::TimedOut));
    assert!(!needs_retry_after_repair(&NodeRunStatus::Succeeded));
}

#[test]
fn control_actions_parse_and_reply() {
    assert!(matches!(parse_control_action("cancel"), Ok(ControlAction::Cancel)));
    assert!(matches!(parse_control_action("pause"), Ok(ControlAction::Pause)));
    assert!(matches!(parse_control_action("resume"), Ok(ControlAction::Resume)));
    let (code, message) = code_and_message(parse_control_action("stop").unwrap_err());
    assert_eq!(code, "graph_unknown_action");
    assert_eq!(message, "未知控制动作: stop");
    match control_reply("run-9", "pause", &ControlAction::Pause) {
        ServerMsg::GraphRunControlOk { run_id, action, status } => {
            assert_eq!(run_id, "run-9");
            assert_eq!(action, "pause");
            assert_eq!(status, "paused");
        }
        other => panic!("unexpected {:?}", other),
    }
    assert_eq!(ControlAction::Cancel.resulting_status(), "cancelled");
    assert_eq!(ControlAction::Resume.resulting_status(), "running");
}

#[test]
fn cancel_moves_only_unfinished_nodes() {
    let statuses = vec![
        NodeRunStatus::Succeeded,
        NodeRunStatus::Running,
        NodeRunStatus::Failed,
        NodeRunStatus::Pending,
        NodeRunStatus::Blocked,
        NodeRunStatus::Cancelled,
        NodeRunStatus::Verifying,
    ];
    assert_eq!(cancel_targets(&statuses), vec![1, 3, 4, 6]);
    assert_eq!(cancel_targets(&vec![]), Vec::<usize>::new());
}

#[test]
fn patch_gate_refuses_finished_and_running_runs() {
    for s in ["completed", "failed", "cancelled"] {
        let (code, message) = code_and_message(patch_gate(s).unwrap_err());
        assert_eq!(code, "graph_patch_terminal");
        assert_eq!(message, format!("图已 {}，不能 patch", s));
    }
    let (code, _) = code_and_message(patch_gate("running").unwrap_err());
    assert_eq!(code, "graph_patch_running");
    assert!(patch_gate("paused").is_ok());
    assert!(patch_gate("ready").is_ok());
    for s in ["blocked", "pending", "PAUSED", ""] {
        let (code, message) = code_and_message(patch_gate(s).unwrap_err());
        assert_eq!(code, "graph_patch_invalid_state");
        assert_eq!(message, format!("图状态 {} 不能 patch（仅 paused/ready 可 patch）", s));
    }
    match patch_reply("run-3") {
        ServerMsg::GraphRunControlOk { run_id, action, status } => {
            assert_eq!((run_id.as_str(), action.as_str(), status.as_str()), ("run-3", "patch", "patched"));
        }
        other => panic!("unexpected {:?}", other),
    }
}

#[test]
fn dispatch_plans() {
    assert!(matches!(plan_dispatch("build", None, true, 0), DispatchPlan::Approval));
    match plan_dispatch("build", None, false, 5) {
        DispatchPlan::Block { failure_type, .. } => assert_eq!(failure_type, "no_participant"),
        other => panic!("unexpected {:?}", other),
    }
    match plan_dispatch("build", Some("nora"), false, 0) {
        DispatchPlan::Block { failure_type, detail } => {
            assert_eq!(failure_type, "participant_offline");
            assert_eq!(detail, "participant 'nora' 不在线");
        }
        other => panic!("unexpected {:?}", other),
    }
    match plan_dispatch("build", Some("nora"), false, 1) {
        DispatchPlan::Send(d) => {
            assert_eq!(d.content_type, "graph_dispatch");
            assert_eq!(d.subject, "[graph] build");
            assert_eq!(d.assignment_kind, "dispatch");
            assert_eq!(d.event_type, "assignment_dispatched");
        }
        other => panic!("unexpected {:?}", other),
    }
    match plan_dispatch("build", Some("nora"), true, 2) {
        DispatchPlan::Block { failure_type, detail } => {
            assert_eq!(failure_type, "participant_ambiguous");
            assert_eq!(detail, "participant 'nora' 有多个活跃 mailbox，无法消歧");
        }
        other => panic!("unexpected {:?}", other),
    }
    assert_eq!(dispatch_subject("build"), "[graph] build");
}

#[test]
fn workspace_plans() {
    assert!(matches!(plan_workspace(false, Some("/repo"), None), WorkspacePlan::NotNeeded));
    assert!(matches!(plan_workspace(true, None, None), WorkspacePlan::SkipNoRepository));
    assert!(matches!(plan_workspace(true, Some(""), Some("abc")), WorkspacePlan::SkipNoRepository));
    match plan_workspace(true, Some("/repo"), None) {
        WorkspacePlan::Ensure { base } => assert_eq!(base, "HEAD"),
        other => panic!("unexpected {:?}", other),
    }
    match plan_workspace(true, Some("/repo"), Some("abc123")) {
        WorkspacePlan::Ensure { base } => assert_eq!(base, "abc123"),
        other => panic!("unexpected {:?}", other),
    }
}

#[test]
fn node_status_names() {
    assert_eq!(NodeRunStatus::TimedOut.as_str(), "timed_out");
    assert!(NodeRunStatus::TimedOut.is_terminal());
    assert!(!NodeRunStatus::Blocked.is_terminal());
}

#[test]
fn graph_store_errors() {
    assert_eq!(
        code_and_message(graph_error_msg(&GraphErrorKind::Sqlite, "locked".to_string())),
        ("graph_db_error".to_string(), "locked".to_string())
    );
    assert_eq!(code_and_message(graph_error_msg(&GraphErrorKind::Json, "eof".to_string())).0, "graph_json_error");
    assert_eq!(code_and_message(graph_error_msg(&GraphErrorKind::Other, "x".to_string())).0, "graph_error");
}

#[test]
fn heartbeat_reply_and_missing_node() {
    match heartbeat_report("r", "n", 2) {
        ServerMsg::GraphNodeReportOk { status, message, attempt, .. } => {
            assert_eq!(status, "running");
            assert_eq!(message, "heartbeat 已记录");
            assert_eq!(attempt, 2);
        }
        other => panic!("unexpected {:?}", other),
    }
    assert_eq!(
        code_and_message(node_not_found()),
        ("graph_node_not_found".to_string(), "节点不存在".to_string())
    );
}

#[test]
fn verification_outcome_reports() {
    assert_eq!(
        verified_report(),
        ("succeeded".to_string(), "节点结果已通过验证（路径/artifact/schema）".to_string())
    );
    assert_eq!(
        commit_failure_report("dirty tree"),
        ("failed".to_string(), "worktree commit 失败，节点回滚 failed: dirty tree".to_string())
    );
}

#[test]
fn control_plans_events_and_status() {
    let statuses = vec![NodeRunStatus::Succeeded, NodeRunStatus::Running, NodeRunStatus::Pending];
    let p = control_plan("g-cancel", "cancel", &statuses).unwrap();
    assert_eq!(p.event_type, "graph_cancelled");
    assert_eq!(p.run_status, "cancelled");
    assert!(p.sets_completed_at && !p.only_if_paused);
    assert_eq!(p.cancel_nodes, vec![1, 2]);
    assert!(matches!(p.reply, ServerMsg::GraphRunControlOk { ref status, .. } if status == "cancelled"));
    let p = control_plan("g", "pause", &statuses).unwrap();
    assert_eq!((p.event_type.as_str(), p.run_status.as_str()), ("graph_paused", "paused"));
    assert!(p.cancel_nodes.is_empty());
    let p = control_plan("g", "resume", &statuses).unwrap();
    assert_eq!((p.event_type.as_str(), p.run_status.as_str()), ("graph_resumed", "running"));
    assert!(p.only_if_paused);
    assert_eq!(code_and_message(control_plan("g", "stop", &statuses).unwrap_err()).0, "graph_unknown_action");
}
