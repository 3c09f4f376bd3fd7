use agtalk::json::{approval_choice, subject_from_metadata};
use agtalk::messaging::{
    done_plan, read_unread_plan,
    after_delivery, after_read, parse_delivery_status, DeliveryStatus,
    ask_reply, plan_ask,
    ask_content_type, check_ack_surface, default_human_surface, delivery_not_found,
    done_uses_receipt, fans_out_to_human, human_address_matches, human_error_msg,
    human_token_present, inbox_all_flag, inbox_empty_for_done, inbox_empty_for_read,
    merge_choices, message_not_found, notify_enabled, participant_root, peer_intro, pending_ids,
    prefix_pattern, resolve_attachment_prefix, resolve_message_prefix, conversation_kind,
    conversation_members, conversation_title,
    routing_error_code, routing_error_msg, status_change_recorded, HumanErrorKind,
    RoutingErrorKind,
};
use agtalk::proto::ServerMsg;

fn error_of(m: ServerMsg) -> (String, String) {
    match m {
        ServerMsg::Error { code, message } => (code, message),
        other => panic!("expected error, got {:?}", other),
    }
}

#[test]
fn metadata_subject_and_choice() {
    assert_eq!(subject_from_metadata(r#"{"subject":"weekly"}"#), Some("weekly".to_string()));
    assert_eq!(subject_from_metadata(r#"{"subject":3}"#), None);
    assert_eq!(subject_from_metadata("not json"), None);
    assert_eq!(subject_from_metadata("{}"), None);
    assert_eq!(approval_choice(r#"{"choice":"yes","x":1}"#), "yes");
    assert_eq!(approval_choice("{}"), "");
}

#[test]
fn human_surface_and_choices() {
    assert_eq!(default_human_surface(), "api");
    assert_eq!(
        merge_choices(vec!["a".to_string()], Some("b".to_string())),
        vec!["a".to_string(), "b".to_string()]
    );
    assert_eq!(merge_choices(vec!["a".to_string()], None), vec!["a".to_string()]);
    assert_eq!(merge_choices(vec![], Some("b".to_string())), vec!["b".to_string()]);
}

#[test]
fn ask_types_and_flags() {
    assert_eq!(ask_content_type(0), "text");
    assert_eq!(ask_content_type(2), "approval_request");
    assert!(inbox_all_flag(Some("TRUE")));
    assert!(inbox_all_flag(Some("true")));
    assert!(!inbox_all_flag(Some("1")));
    assert!(!inbox_all_flag(None));
    assert!(notify_enabled(None));
    assert!(notify_enabled(Some(true)));
    assert!(!notify_enabled(Some(false)));
}

#[test]
fn notify_omitted_means_on() {
    // omitted and null both read as "notify", false turns it off
    assert!(notify_enabled(None));
    assert!(!notify_enabled(Some(false)));
}

#[test]
fn status_history_rules() {
    assert!(!status_change_recorded("read", "read"));
    assert!(status_change_recorded("delivered", "read"));
    assert!(fans_out_to_human("human", "human"));
    assert!(!fans_out_to_human("nora", "human"));
}

#[test]
fn empty_inbox_replies() {
    assert_eq!(
        error_of(inbox_empty_for_read()),
        ("inbox_empty".to_string(), "当前 inbox 没有可查看的消息".to_string())
    );
    assert_eq!(
        error_of(inbox_empty_for_done()),
        ("inbox_empty".to_string(), "当前 inbox 没有可标记完成的消息".to_string())
    );
    assert_eq!(error_of(message_not_found()), ("message_not_found".to_string(), "消息不存在".to_string()));
}

#[test]
fn routing_errors() {
    assert_eq!(routing_error_code(&RoutingErrorKind::MessageNotFound), "message_not_found");
    assert_eq!(routing_error_code(&RoutingErrorKind::MessageIdTooShort), "message_id_too_short");
    assert_eq!(routing_error_code(&RoutingErrorKind::MessageIdAmbiguous), "message_id_ambiguous");
    assert_eq!(routing_error_code(&RoutingErrorKind::Other), "msg_failed");
    let (code, message) = error_of(routing_error_msg(&RoutingErrorKind::Other, "gone".to_string()));
    assert_eq!(code, "msg_failed");
    assert_eq!(message, "gone");
}

#[test]
fn human_checks() {
    assert_eq!(
        error_of(human_token_present(None).unwrap_err()),
        ("auth_failed".to_string(), "缺少 X-AgTalk-Human-Token".to_string())
    );
    assert!(human_token_present(Some("t")).is_ok());
    assert!(human_address_matches("human", "human").is_ok());
    assert_eq!(error_of(human_address_matches("nora", "human").unwrap_err()).0, "auth_failed");
    assert!(check_ack_surface("feishu").is_ok());
    assert_eq!(
        error_of(check_ack_surface(" \t").unwrap_err()),
        ("invalid_surface".to_string(), "surface 不能为空".to_string())
    );
    assert!(check_ack_surface("").is_err());
    assert_eq!(
        error_of(delivery_not_found("m1", "feishu")),
        ("delivery_not_found".to_string(), "delivery 不存在: m1 / feishu".to_string())
    );
    assert_eq!(
        error_of(human_error_msg(&HumanErrorKind::AlreadyResolved, "x".to_string())),
        ("already_resolved".to_string(), "x".to_string())
    );
    assert_eq!(error_of(human_error_msg(&HumanErrorKind::Other, "y".to_string())).0, "human_failed");
}

#[test]
fn done_receipt_needs_both_fields() {
    assert!(done_uses_receipt(&Some("feishu".to_string()), &Some("ev1".to_string())));
    assert!(!done_uses_receipt(&Some("feishu".to_string()), &None));
    assert!(!done_uses_receipt(&None, &Some("ev1".to_string())));
}

#[test]
fn pending_delivery_ids() {
    let items = vec![
        ("m1".to_string(), "pending".to_string()),
        ("m2".to_string(), "delivered".to_string()),
        ("m3".to_string(), "pending".to_string()),
    ];
    assert_eq!(pending_ids(&items), vec!["m1".to_string(), "m3".to_string()]);
}

#[test]
fn participant_roots() {
    // the mailbox's own absolute root wins when its session file holds the address
    assert_eq!(
        participant_root("a1", "/w/.agtalk", Some("a1"), "/d/.agtalk", Some("a1")),
        Some("/w/.agtalk".to_string())
    );
    // otherwise the daemon's root when its session file holds the address
    assert_eq!(
        participant_root("a1", "/w/.agtalk", Some("a2"), "/d/.agtalk", Some("a1")),
        Some("/d/.agtalk".to_string())
    );
    assert_eq!(
        participant_root("a1", "rel/.agtalk", Some("a1"), "/d/.agtalk", None),
        None
    );
    assert_eq!(participant_root("a1", "", None, "/d/.agtalk", Some("a2")), None);
}

#[test]
fn peer_intros() {
    assert_eq!(peer_intro("addr", None, "mailbox intro"), "mailbox intro");
    assert_eq!(peer_intro("addr", Some(("addr", "local intro")), "mailbox intro"), "local intro");
    assert_eq!(peer_intro("addr", Some(("other", "local intro")), "mailbox intro"), "mailbox intro");
}

#[test]
fn message_id_prefixes() {
    let v = |xs: &[&str]| xs.iter().map(|s| s.to_string()).collect::<Vec<String>>();
    assert_eq!(prefix_pattern("ab12"), "ab12%");
    assert_eq!(resolve_message_prefix("ab", Some("ab".to_string()), v(&["ab1", "ab2"])), Ok(Some("ab".to_string())));
    assert_eq!(resolve_message_prefix("ab", None, v(&[])), Ok(None));
    assert_eq!(resolve_message_prefix("ab", None, v(&["ab1"])), Ok(Some("ab1".to_string())));
    assert_eq!(
        resolve_message_prefix("ab", None, v(&["ab1", "ab2"])),
        Err("消息 ID 前缀不唯一: ab".to_string())
    );
    assert_eq!(resolve_attachment_prefix("f", Some("f".to_string()), v(&[])), Ok("f".to_string()));
    assert_eq!(resolve_attachment_prefix("f", None, v(&[])), Err("附件不存在: f".to_string()));
    assert_eq!(resolve_attachment_prefix("f", None, v(&["f9"])), Ok("f9".to_string()));
    assert_eq!(
        resolve_attachment_prefix("f", None, v(&["f1", "f2"])),
        Err("附件 ID 前缀不唯一: f".to_string())
    );
}

#[test]
fn new_conversation_fields() {
    let v = |xs: &[&str]| xs.iter().map(|s| s.to_string()).collect::<Vec<String>>();
    assert_eq!(conversation_members("p1", &v(&["p2", "p1", "p3", "p2"])), v(&["p1", "p2", "p3"]));
    assert_eq!(conversation_members("p1", &v(&[])), v(&["p1"]));
    assert_eq!(conversation_title(&v(&["nora", "bob"])), "nora, bob");
    assert_eq!(conversation_kind(None), "direct");
    assert_eq!(conversation_kind(Some("group")), "group");
}

#[test]
fn ask_plans_and_replies() {
    let opts = agtalk::requests::AskOptions {
        questions: vec![],
        options: vec!["yes".to_string(), "no".to_string()],
        recommended: Some("yes".to_string()),
        single: true,
        select_only: false,
    };
    let a = plan_ask(Ok("h-addr".to_string()), "human", "a1", "nora", "deploy?".to_string(), opts, true).unwrap();
    assert_eq!((a.to.as_str(), a.to_name.as_str(), a.from.as_str(), a.from_name.as_str()), ("h-addr", "human", "a1", "nora"));
    assert_eq!(a.body, "deploy?");
    assert_eq!(a.content_type, "approval_request");
    assert_eq!(a.choices, vec!["yes".to_string(), "no".to_string()]);
    assert_eq!(a.recommended, Some("yes".to_string()));
    assert!(a.single && !a.select_only && a.notify);
    let plain = agtalk::requests::AskOptions {
        questions: vec![],
        options: vec![],
        recommended: None,
        single: false,
        select_only: false,
    };
    assert_eq!(plan_ask(Ok("h".to_string()), "human", "a", "n", "q".to_string(), plain, false).unwrap().content_type, "text");
    let opts2 = agtalk::requests::AskOptions { questions: vec![], options: vec![], recommended: None, single: false, select_only: false };
    match plan_ask(Err("db locked".to_string()), "human", "a", "n", "q".to_string(), opts2, false) {
        Err(ServerMsg::Error { code, message }) => assert_eq!((code.as_str(), message.as_str()), ("ask_failed", "db locked")),
        other => panic!("unexpected {:?}", other),
    }
    assert!(matches!(ask_reply(Ok("m9".to_string())), ServerMsg::AskResult { ref message_id } if message_id == "m9"));
    assert_eq!(error_of(ask_reply(Err("x".to_string()))), ("ask_failed".to_string(), "x".to_string()));
}

#[test]
fn delivery_status_transitions() {
    let st = |x: &str| parse_delivery_status(x).unwrap();
    assert!(parse_delivery_status("gone").is_none());
    assert_eq!(after_delivery(&st("pending")).as_str(), "delivered");
    assert_eq!(after_delivery(&st("read")).as_str(), "read");
    assert_eq!(after_delivery(&st("done")).as_str(), "done");
    assert_eq!(after_read(&st("delivered")).as_str(), "read");
    assert_eq!(after_read(&st("read")).as_str(), "read");
    assert_eq!(after_read(&st("done")).as_str(), "done");
    assert!(matches!(after_read(&DeliveryStatus::Pending), DeliveryStatus::Read));
}

#[test]
fn read_then_read_again() {
    let unread = vec![
        ("m1".to_string(), DeliveryStatus::Pending),
        ("m2".to_string(), DeliveryStatus::Delivered),
    ];
    let (ids, hist) = read_unread_plan(&unread).unwrap();
    assert_eq!(ids, vec!["m1".to_string(), "m2".to_string()]);
    assert_eq!(hist.len(), 2);
    assert_eq!(
        (hist[0].message_id.as_str(), hist[0].old_status.as_str(), hist[0].new_status.as_str(), hist[0].reason.as_str()),
        ("m1", "pending", "read", "msg.read")
    );
    // after the read nothing is unread: the next read finds an empty inbox
    assert_eq!(error_of(read_unread_plan(&vec![]).unwrap_err()).0, "inbox_empty");
}

#[test]
fn done_then_done_again() {
    let (id, rec) = done_plan(Some(("m1".to_string(), DeliveryStatus::Delivered)), true).unwrap();
    assert_eq!(id, "m1");
    let rec = rec.unwrap();
    assert_eq!((rec.old_status.as_str(), rec.new_status.as_str(), rec.reason.as_str()), ("read", "done", "msg.done"));
    let (_, rec) = done_plan(Some(("m1".to_string(), DeliveryStatus::Delivered)), false).unwrap();
    assert_eq!(rec.unwrap().old_status, "delivered");
    let (_, rec) = done_plan(Some(("m1".to_string(), DeliveryStatus::Done)), false).unwrap();
    assert!(rec.is_none());
    assert_eq!(error_of(done_plan(None, true).unwrap_err()), ("inbox_empty".to_string(), "当前 inbox 没有可标记完成的消息".to_string()));
    assert_eq!(error_of(done_plan(None, false).unwrap_err()).0, "message_not_found");
}
