use agtalk::mem::SqlParam;
use agtalk::inbox::{
    message_plan,
    classify, derive_actions, filter_clause, inbox_query, present_content, store_body, InboxAttachment, InboxMessageContent,
    InboxSender,
};

fn att(role: &str, size: usize) -> InboxAttachment {
    InboxAttachment {
        id: "att-1".to_string(),
        role: role.to_string(),
        filename: "body.md".to_string(),
        content_type: "text/markdown".to_string(),
        size,
    }
}

#[test]
fn filter_clauses() {
    assert_eq!(filter_clause(Some("unread")), "AND mr.status IN ('pending', 'delivered')");
    assert_eq!(filter_clause(Some("pending")), "AND mr.status = 'pending'");
    assert_eq!(
        filter_clause(Some("action_required")),
        "AND m.content_type IN ('approval_request', 'question', 'task') AND mr.status != 'done'"
    );
    assert_eq!(filter_clause(Some("all")), "AND mr.status != 'done'");
    assert_eq!(filter_clause(None), "AND mr.status != 'done'");
}

#[test]
fn short_body_shown_in_full() {
    let c = present_content("hello", &vec![], 10, 100, 3);
    assert_eq!(c.mode, "full");
    assert_eq!(c.body, "hello");
    assert!(!c.truncated);
    assert_eq!(c.size, 5);
}

#[test]
fn medium_body_is_previewed() {
    let c = present_content("abcdefghijkl", &vec![], 10, 100, 4);
    assert_eq!(c.mode, "preview");
    assert_eq!(c.body, "abcd…");
    assert!(c.truncated);
    assert_eq!(c.size, 12);
}

#[test]
fn body_size_counts_bytes() {
    // four characters of three bytes each
    let c = present_content("你好世界", &vec![], 10, 100, 2);
    assert_eq!(c.size, 12);
    assert_eq!(c.mode, "preview");
    assert_eq!(c.body, "你好…");
}

#[test]
fn large_body_is_summary() {
    let c = present_content("abcdefghijkl", &vec![], 4, 8, 2);
    assert_eq!(c.mode, "summary");
    assert_eq!(c.body, "abcdefghijkl");
    assert!(c.truncated);
}

#[test]
fn split_off_body_is_summary_with_attachment_size() {
    let atts = vec![att("inline", 3), att("full_body", 50_000), att("full_body", 7)];
    let c = present_content("summary text", &atts, 10, 100, 3);
    assert_eq!(c.mode, "summary");
    assert_eq!(c.body, "summary text");
    assert!(c.truncated);
    assert_eq!(c.size, 50_000);
}

#[test]
fn classification() {
    assert_eq!(classify("approval_request"), ("approval".to_string(), "high".to_string(), true));
    assert_eq!(classify("question"), ("question".to_string(), "high".to_string(), true));
    assert_eq!(classify("task"), ("task".to_string(), "high".to_string(), true));
    assert_eq!(classify("text"), ("message".to_string(), "normal".to_string(), false));
}

#[test]
fn actions_of_items() {
    assert_eq!(derive_actions("text", "done", &vec![]), vec!["detail", "reply"]);
    assert_eq!(derive_actions("text", "pending", &vec![]), vec!["detail", "reply", "done"]);
    assert_eq!(
        derive_actions("approval_request", "delivered", &vec![att("full_body", 1)]),
        vec!["detail", "reply", "done", "approve", "reject", "attachment"]
    );
    assert_eq!(
        derive_actions("approval_request", "done", &vec![att("inline", 1)]),
        vec!["detail", "reply"]
    );
}

#[test]
fn inbox_records_hold_their_fields() {
    let s = InboxSender {
        id: "p1".to_string(),
        name: "nora".to_string(),
        kind: "agent".to_string(),
        intro: "前端".to_string(),
    };
    assert_eq!(s.name, "nora");
    let c = InboxMessageContent { mode: "full".to_string(), body: "b".to_string(), truncated: false, size: 1 };
    assert_eq!(c.size, 1);
}

#[test]
fn long_bodies_are_split_off() {
    assert_eq!(store_body("short", 10, 3), ("short".to_string(), false));
    assert_eq!(store_body("0123456789", 10, 3), ("0123456789".to_string(), false));
    assert_eq!(store_body("0123456789A", 10, 3), ("012…".to_string(), true));
    // bytes, not characters, decide: four characters of three bytes
    assert_eq!(store_body("你好世界", 10, 2), ("你好…".to_string(), true));
    // a split body is then presented as a summary of the whole size
    let atts = vec![att("full_body", 11)];
    let (stored, _) = store_body("0123456789A", 10, 3);
    let c = present_content(&stored, &atts, 4, 10, 3);
    assert_eq!(c.mode, "summary");
    assert_eq!(c.size, 11);
}

#[test]
fn inbox_listing_query() {
    let q = inbox_query("p-1", Some("pending"), 20);
    assert!(q.sql.starts_with("SELECT mr.message_id, mr.status,"));
    assert!(q.sql.contains("WHERE mr.recipient_id = ? AND mr.status = 'pending' ORDER BY"));
    assert!(q.sql.ends_with(
        " ORDER BY (m.content_type IN ('approval_request', 'question', 'task')) DESC, m.created_at DESC LIMIT ?"
    ));
    assert_eq!(q.params.len(), 2);
    assert!(matches!(&q.params[0], SqlParam::Text(s) if s == "p-1"));
    assert!(matches!(&q.params[1], SqlParam::Int(20)));
    let all = inbox_query("p-1", None, 5);
    assert!(all.sql.contains("= ? AND mr.status != 'done' ORDER BY"));
}

#[test]
fn message_plans() {
    let p = message_plan("m1", "0123456789A", 10, 3, vec!["p2".to_string(), "p3".to_string()]);
    assert_eq!(p.stored_body, "012…");
    assert_eq!(p.recipients, vec!["p2".to_string(), "p3".to_string()]);
    assert_eq!(p.recipient_status, "pending");
    let a = p.full_body.unwrap();
    assert_eq!((a.role.as_str(), a.filename.as_str(), a.content_type.as_str(), a.size), ("full_body", "message-m1.md", "text/markdown", 11));
    let p = message_plan("m2", "short", 10, 3, vec![]);
    assert_eq!(p.stored_body, "short");
    assert!(p.full_body.is_none() && p.recipients.is_empty());
}
