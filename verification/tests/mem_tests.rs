use agtalk::mem::{
    check_prefix_length, list_query, mem_error_msg, pack_reply, require_target, resolve_by_address,
    resolve_by_name, resolve_prefix_matches, search_query, space_scope, status_summary_text,
    topics_query, IndexEntry, MemErrorKind, SqlParam,
};
use agtalk::proto::ServerMsg;

const COLUMNS: &str = "SELECT i.id, i.space_id, s.scope, s.workspace_id, i.type, i.title, i.content, i.summary, i.status, i.confidence, i.importance, i.created_by, i.updated_by, i.created_at, i.updated_at";

fn texts(params: &[SqlParam]) -> Vec<String> {
    params
        .iter()
        .map(|p| match p {
            SqlParam::Text(s) => format!("t:{}", s),
            SqlParam::Int(i) => format!("i:{}", i),
        })
        .collect()
}

fn entry(address: &str, name: &str) -> IndexEntry {
    IndexEntry { address: address.to_string(), name: name.to_string() }
}

fn error_of(m: ServerMsg) -> (String, String) {
    match m {
        ServerMsg::Error { code, message } => (code, message),
        other => panic!("expected error, got {:?}", other),
    }
}

#[test]
fn status_summary_lines() {
    assert_eq!(status_summary_text("active", "writing tests"), "active: writing tests");
    assert_eq!(status_summary_text("active", ""), "active");
    assert_eq!(status_summary_text("", ""), "");
    assert_eq!(status_summary_text("done", "ok:: "), "done: ok");
}

#[test]
fn mem_error_codes() {
    assert_eq!(
        error_of(mem_error_msg(MemErrorKind::InvalidStatus, "bad".to_string())),
        ("invalid_status".to_string(), "bad".to_string())
    );
    assert_eq!(
        error_of(mem_error_msg(MemErrorKind::Other, "x".to_string())),
        ("mem_error".to_string(), "x".to_string())
    );
}

#[test]
fn target_resolution() {
    assert_eq!(
        error_of(require_target(None).unwrap_err()),
        ("missing_target".to_string(), "缺少 target 参数".to_string())
    );
    assert_eq!(require_target(Some("nora")).unwrap(), "nora");
    assert_eq!(
        resolve_by_address("a1", Some(entry("a1", "nora"))).unwrap(),
        ("a1".to_string(), "nora".to_string())
    );
    assert_eq!(
        error_of(resolve_by_address("a1", None).unwrap_err()),
        ("not_found".to_string(), "未找到 address a1 的记忆".to_string())
    );
    assert_eq!(
        resolve_by_name("nora", vec![entry("a1", "nora")]).unwrap(),
        ("a1".to_string(), "nora".to_string())
    );
    assert_eq!(
        error_of(resolve_by_name("nora", vec![]).unwrap_err()),
        ("not_found".to_string(), "未找到 name nora 的记忆".to_string())
    );
    assert_eq!(
        error_of(resolve_by_name("nora", vec![entry("a1", "nora"), entry("a2", "nora")]).unwrap_err()),
        ("ambiguous".to_string(), "name nora 对应 2 个候选，请用 address 指定".to_string())
    );
}

#[test]
fn pack_and_scope() {
    match pack_reply(String::new(), "# m".to_string()) {
        ServerMsg::MemPack { topic, markdown } => {
            assert_eq!(topic, "all");
            assert_eq!(markdown, "# m");
        }
        other => panic!("unexpected {:?}", other),
    }
    match pack_reply("rust".to_string(), String::new()) {
        ServerMsg::MemPack { topic, .. } => assert_eq!(topic, "rust"),
        other => panic!("unexpected {:?}", other),
    }
    assert_eq!(space_scope(true), "workspace");
    assert_eq!(space_scope(false), "global");
}

#[test]
fn prefix_resolution() {
    assert_eq!(check_prefix_length("abc").unwrap_err(), "memory ID 前缀过短，至少提供 4 位字符");
    assert!(check_prefix_length("abcd").is_ok());
    assert_eq!(resolve_prefix_matches("abcd", vec!["abcd-1".to_string()]).unwrap(), "abcd-1");
    assert_eq!(resolve_prefix_matches("abcd", vec![]).unwrap_err(), "memory 不存在: abcd");
    assert_eq!(
        resolve_prefix_matches("abcd", vec!["abcd-1".to_string(), "abcd-2".to_string()]).unwrap_err(),
        "memory ID 前缀 'abcd' 匹配到多个结果，请提供更完整的前缀"
    );
}

#[test]
fn search_query_full_text_in_workspace() {
    let q = search_query(
        Some("ws1"),
        Some("deploy"),
        &vec!["t1".to_string(), "t2".to_string()],
        Some("decision"),
        None,
        None,
        20,
    );
    assert_eq!(
        q.sql,
        format!(
            "{}, rank FROM mem_items_fts f JOIN mem_items i ON i.rowid = f.rowid JOIN mem_spaces s ON i.space_id = s.id WHERE f.mem_items_fts MATCH ? AND i.status = ? AND (s.workspace_id = ? OR s.scope = 'global') AND i.type = ? AND i.id IN (SELECT mem_id FROM mem_item_topics WHERE topic_id IN (?, ?)) ORDER BY rank ASC, i.importance DESC, i.updated_at DESC LIMIT ?",
            COLUMNS
        )
    );
    assert_eq!(
        texts(&q.params),
        vec!["t:deploy", "t:active", "t:ws1", "t:decision", "t:t1", "t:t2", "i:20"]
    );
    assert_eq!(q.sql.matches('?').count(), q.params.len());
}

#[test]
fn search_query_global_without_text() {
    let q = search_query(Some("ws1"), None, &vec![], None, Some("global"), Some("archived"), 5);
    assert_eq!(
        q.sql,
        format!(
            "{} FROM mem_items i JOIN mem_spaces s ON i.space_id = s.id WHERE i.status = ? AND s.scope = 'global' ORDER BY i.importance DESC, i.updated_at DESC LIMIT ?",
            COLUMNS
        )
    );
    assert_eq!(texts(&q.params), vec!["t:archived", "i:5"]);
}

#[test]
fn list_query_variants() {
    let q = list_query(None, Some("t9"), None, None, "all", 50);
    assert_eq!(
        q.sql,
        format!(
            "{} FROM mem_items i JOIN mem_spaces s ON i.space_id = s.id WHERE 1=1 AND i.id IN (SELECT mem_id FROM mem_item_topics WHERE topic_id = ?) ORDER BY i.updated_at DESC LIMIT ?",
            COLUMNS
        )
    );
    assert_eq!(texts(&q.params), vec!["t:t9", "i:50"]);
    let q = list_query(Some("ws"), None, Some("note"), Some("workspace"), "active", 3);
    assert_eq!(
        q.sql,
        format!(
            "{} FROM mem_items i JOIN mem_spaces s ON i.space_id = s.id WHERE i.status = ? AND s.workspace_id = ? AND i.type = ? ORDER BY i.updated_at DESC LIMIT ?",
            COLUMNS
        )
    );
    assert_eq!(texts(&q.params), vec!["t:active", "t:ws", "t:note", "i:3"]);
}

#[test]
fn topics_query_variants() {
    let q = topics_query(None, None);
    assert_eq!(
        q.sql,
        "SELECT t.id, t.space_id, t.parent_id, t.slug, t.title, t.summary, t.aliases, t.status, t.priority, t.created_at, t.updated_at FROM mem_topics t JOIN mem_spaces s ON t.space_id = s.id WHERE s.workspace_id IS NULL ORDER BY t.slug"
    );
    assert!(q.params.is_empty());
    let q = topics_query(Some("ws"), Some("active"));
    assert!(q.sql.ends_with(" WHERE s.workspace_id = ? AND t.status = ? ORDER BY t.slug"));
    assert_eq!(texts(&q.params), vec!["t:ws", "t:active"]);
}
