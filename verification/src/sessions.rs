//! Agent sessions: how a connection's identity is chosen, when a join
//! conflicts with or takes over an endpoint, and what leaving and cleanup do.

use vstd::prelude::*;
use crate::proto::{ServerMsg, err, err_owned, is_error};
use crate::text::{decimal, eq_ignore_ascii_case_spec, str_eq};
use crate::json::{json_string_field, json_nested_string_field};

verus! {

/// An agent session bound to a participant of a workspace.
#[derive(Debug)]
pub struct SessionInfo {
    pub session_id: String,
    pub workspace_id: String,
    pub participant_id: String,
    pub participant_name: String,
    pub status: String,
    pub notify_config: Option<String>,
}

/// A registered workspace.
#[derive(Debug)]
pub struct WorkspaceRow {
    pub id: String,
    pub name: String,
    pub root: String,
}

/// Unread and pending message counts.
#[derive(Debug)]
pub struct MessageCounts {
    pub unread: u32,
    pub pending: u32,
}

/// The credentials a local session file holds.
#[derive(Debug)]
pub struct SessionMeta {
    pub id: String,
    pub token: String,
    pub status: String,
    pub created_at: String,
}

/// The status a session file gets when its `status` field is missing.
pub fn default_active() -> (r: String)
    ensures
        r@ == "active"@,
{
    String::from_str("active")
}

/// Marks a local session as left.
pub fn mark_left(meta: &mut SessionMeta)
    ensures
        final(meta).status@ == "left"@,
        final(meta).id == old(meta).id,
        final(meta).token == old(meta).token,
        final(meta).created_at == old(meta).created_at,
{
    meta.status = String::from_str("left");
}

/// The endpoint key of a notify target: `<plugin>:<session>:<pane_id>`, or
/// empty when neither a session nor a pane is known, so that sessions with no
/// endpoint never share a conflict bucket.
pub open spec fn spec_endpoint_key(plugin: Seq<char>, session: Seq<char>, pane_id: Seq<char>) -> Seq<char> {
    if session.len() == 0 && pane_id.len() == 0 {
        Seq::empty()
    } else {
        plugin + ":"@ + session + ":"@ + pane_id
    }
}

/// Builds an endpoint key (see `spec_endpoint_key`).
pub fn endpoint_key(plugin: &str, session: &str, pane_id: &str) -> (r: String)
    ensures
        r@ == spec_endpoint_key(plugin@, session@, pane_id@),
{
    if crate::text::is_empty(session) && crate::text::is_empty(pane_id) {
        return String::new();
    }
    let mut s = String::from_str(plugin);
    s.append(":");
    s.append(session);
    s.append(":");
    s.append(pane_id);
    s
}

/// A missing string reads as empty.
pub open spec fn or_empty(o: Option<Seq<char>>) -> Seq<char> {
    match o {
        Some(s) => s,
        None => Seq::empty(),
    }
}

/// The endpoint key of a session's notify configuration (JSON text): from its
/// `plugin`, `endpoint.session` and `endpoint.pane_id` strings, each empty when
/// absent.
pub fn endpoint_key_from_notify_config(notify_config: &str) -> (r: String)
    ensures
        r@ == spec_endpoint_key(
            or_empty(json_string_field(notify_config@, "plugin"@)),
            or_empty(json_nested_string_field(notify_config@, "endpoint"@, "session"@)),
            or_empty(json_nested_string_field(notify_config@, "endpoint"@, "pane_id"@)),
        ),
{
    let plugin = match crate::json::json_str_field(notify_config, "plugin") {
        Some(p) => p,
        None => String::new(),
    };
    let session = match crate::json::json_nested_str_field(notify_config, "endpoint", "session") {
        Some(p) => p,
        None => String::new(),
    };
    let pane = match crate::json::json_nested_str_field(notify_config, "endpoint", "pane_id") {
        Some(p) => p,
        None => String::new(),
    };
    endpoint_key(plugin.as_str(), session.as_str(), pane.as_str())
}

/// Names that no participant may take, in any ASCII case.
pub open spec fn is_reserved_name(name: Seq<char>) -> bool {
    eq_ignore_ascii_case_spec(name, "me"@) || eq_ignore_ascii_case_spec(name, "human"@)
}

/// Refuses the reserved participant names `me` and `human` (in any ASCII case).
pub fn check_reserved_name(name: &str) -> (r: Result<(), ServerMsg>)
    ensures
        is_reserved_name(name@) ==> (r matches Err(e) && is_error(
            e,
            "reserved_name"@,
            "'"@ + name@ + "' 是保留名称，不能注册为 participant"@,
        )),
        !is_reserved_name(name@) ==> r is Ok,
{
    if crate::text::eq_ignore_ascii_case(name, "me") || crate::text::eq_ignore_ascii_case(name, "human") {
        let mut m = String::from_str("'");
        m.append(name);
        m.append("' 是保留名称，不能注册为 participant");
        return Err(err_owned("reserved_name", m));
    }
    Ok(())
}

/// How a joining agent's session is created.
#[derive(Debug)]
pub enum SessionMode {
    /// A plain new session.
    Plain,
    /// A new session that retires the other active sessions of its endpoint,
    /// in one transaction.
    Takeover,
}

/// Whether a join must first look for active sessions on its endpoint: only
/// with an endpoint and without takeover. Shell sessions (no endpoint) never
/// conflict.
pub open spec fn spec_needs_conflict_check(endpoint_key: Seq<char>, takeover: bool) -> bool {
    endpoint_key.len() > 0 && !takeover
}

/// The session mode of a join: takeover only with an endpoint.
pub open spec fn spec_session_mode(endpoint_key: Seq<char>, takeover: bool) -> SessionMode {
    if endpoint_key.len() > 0 && takeover {
        SessionMode::Takeover
    } else {
        SessionMode::Plain
    }
}

/// Whether a join must first look for active sessions on its endpoint.
pub fn needs_conflict_check(endpoint_key: &str, takeover: bool) -> (r: bool)
    ensures
        r == spec_needs_conflict_check(endpoint_key@, takeover),
{
    !crate::text::is_empty(endpoint_key) && !takeover
}

/// The session mode of a join.
pub fn session_mode(endpoint_key: &str, takeover: bool) -> (r: SessionMode)
    ensures
        r == spec_session_mode(endpoint_key@, takeover),
{
    if !crate::text::is_empty(endpoint_key) && takeover {
        SessionMode::Takeover
    } else {
        SessionMode::Plain
    }
}

/// The outcome of the endpoint conflict check: a conflict when the endpoint
/// already has active sessions.
pub fn conflict_check(endpoint_key: &str, active_on_endpoint: usize) -> (r: Result<(), ServerMsg>)
    ensures
        active_on_endpoint == 0 ==> r is Ok,
        active_on_endpoint > 0 ==> (r matches Err(e) && is_error(
            e,
            "session_conflict"@,
            "endpoint "@ + endpoint_key@ + " 上已有 "@ + decimal(active_on_endpoint as nat)
                + " 个 active session；如要接管请重试并设置 takeover=true"@,
        )),
{
    if active_on_endpoint == 0 {
        return Ok(());
    }
    let mut m = String::from_str("endpoint ");
    m.append(endpoint_key);
    m.append(" 上已有 ");
    let n = crate::decimal::u64_to_decimal(active_on_endpoint as u64);
    m.append(n.as_str());
    m.append(" 个 active session；如要接管请重试并设置 takeover=true");
    Err(err_owned("session_conflict", m))
}

/// A join never conflicts on, nor takes over, a session without endpoint; and
/// it checks for conflicts exactly when it does not take over.
pub proof fn lemma_shell_sessions_never_conflict(endpoint_key: Seq<char>, takeover: bool)
    ensures
        endpoint_key.len() == 0 ==> !spec_needs_conflict_check(endpoint_key, takeover)
            && spec_session_mode(endpoint_key, takeover) == SessionMode::Plain,
        endpoint_key.len() > 0 ==> (spec_needs_conflict_check(endpoint_key, takeover) <==> spec_session_mode(
            endpoint_key,
            takeover,
        ) == SessionMode::Plain),
{
}

/// A participant is online exactly when it has an active session.
pub fn participant_status(active_sessions: u64) -> (r: &'static str)
    ensures
        active_sessions > 0 ==> r@ == "online"@,
        active_sessions == 0 ==> r@ == "offline"@,
{
    if active_sessions > 0 {
        "online"
    } else {
        "offline"
    }
}

/// A participant of a workspace with an inactive session, and how many
/// active sessions it still has there.
#[derive(Debug)]
pub struct InactiveParticipant {
    pub participant_id: String,
    pub name: String,
    pub active_sessions: u64,
}

/// The participants whose local session files a cleanup removes: those with
/// inactive sessions and no active one left in the workspace, in order.
pub open spec fn spec_cleanup_names(rows: Seq<InactiveParticipant>) -> Seq<Seq<char>>
    decreases rows.len(),
{
    if rows.len() == 0 {
        Seq::empty()
    } else {
        spec_cleanup_names(rows.drop_last()) + if rows.last().active_sessions == 0 {
            seq![rows.last().name@]
        } else {
            Seq::<Seq<char>>::empty()
        }
    }
}

/// Selects the participants that a cleanup reports (see `spec_cleanup_names`).
/// A dry run reports the same names; only the deletion of the inactive
/// sessions is skipped.
pub fn cleanup_names(rows: &Vec<InactiveParticipant>) -> (r: Vec<String>)
    ensures
        crate::text::string_views(r@) == spec_cleanup_names(rows@),
{
    let mut out: Vec<String> = Vec::new();
    let mut i: usize = 0;
    assert(rows@.take(0) =~= Seq::<InactiveParticipant>::empty());
    while i < rows.len()
        invariant
            i <= rows@.len(),
            crate::text::string_views(out@) == spec_cleanup_names(rows@.take(i as int)),
        decreases rows@.len() - i,
    {
        assert(rows@.take(i + 1).drop_last() =~= rows@.take(i as int));
        let ghost before = crate::text::string_views(out@);
        if rows[i].active_sessions == 0 {
            out.push(String::from_str(rows[i].name.as_str()));
            assert(crate::text::string_views(out@) =~= before + seq![rows@[i as int].name@]);
        } else {
            assert(before + Seq::<Seq<char>>::empty() =~= before);
        }
        i = i + 1;
    }
    assert(rows@.take(rows@.len() as int) =~= rows@);
    out
}

/// What cleaning a workspace's inactive sessions does: the names reported
/// (see `cleanup_names`) and, unless it is a dry run, the deletion of that
/// workspace's sessions that are not active. A dry run deletes nothing.
#[derive(Debug)]
pub struct InactiveCleanupPlan {
    pub names: Vec<String>,
    pub delete: Option<crate::mem::SqlQuery>,
}

/// Plans cleaning the inactive sessions of `workspace_id`, from its
/// participants with inactive sessions.
pub fn inactive_cleanup_plan(workspace_id: &str, rows: &Vec<InactiveParticipant>, dry_run: bool) -> (r: InactiveCleanupPlan)
    ensures
        crate::text::string_views(r.names@) == spec_cleanup_names(rows@),
        dry_run ==> r.delete is None,
        !dry_run ==> (r.delete matches Some(q) && q.sql@
            == "DELETE FROM agent_sessions WHERE workspace_id = ? AND status != 'active'"@
            && crate::mem::params_view(q.params@) == seq![crate::mem::ParamView::Text(workspace_id@)]),
{
    let names = cleanup_names(rows);
    if dry_run {
        return InactiveCleanupPlan { names, delete: None };
    }
    let mut params: Vec<crate::mem::SqlParam> = Vec::new();
    params.push(crate::mem::SqlParam::Text(String::from_str(workspace_id)));
    let q = crate::mem::SqlQuery {
        sql: String::from_str("DELETE FROM agent_sessions WHERE workspace_id = ? AND status != 'active'"),
        params,
    };
    assert(crate::mem::params_view(q.params@) =~= seq![crate::mem::ParamView::Text(workspace_id@)]);
    InactiveCleanupPlan { names, delete: Some(q) }
}

/// The sender of a message: an explicit non-empty sender wins, then the
/// session's participant, then `human`.
pub open spec fn spec_sender_from(session: Option<SessionInfo>, explicit: Option<String>) -> Seq<char> {
    match explicit {
        Some(s) if s@.len() > 0 => s@,
        _ => match session {
            Some(info) => info.participant_name@,
            None => "human"@,
        },
    }
}

/// Picks the sender of a message (see `spec_sender_from`).
pub fn sender_from(session: &Option<SessionInfo>, explicit: Option<String>) -> (r: String)
    ensures
        r@ == spec_sender_from(*session, explicit),
{
    if let Some(s) = explicit {
        if !crate::text::is_empty(s.as_str()) {
            return s;
        }
    }
    match session {
        Some(info) => String::from_str(info.participant_name.as_str()),
        None => String::from_str("human"),
    }
}

/// Picks the viewer of a query: the same rule as for senders.
pub fn viewer_from(session: &Option<SessionInfo>, explicit: Option<String>) -> (r: String)
    ensures
        r@ == spec_sender_from(*session, explicit),
{
    sender_from(session, explicit)
}

/// The session id of the connection, if it is authenticated.
pub fn session_id_from(session: &Option<SessionInfo>) -> (r: Option<String>)
    ensures
        r matches Some(id) ==> session matches Some(info) && id@ == info.session_id@,
        r is None ==> session is None,
{
    match session {
        Some(info) => Some(String::from_str(info.session_id.as_str())),
        None => None,
    }
}

/// Whether a re-checked session may go on.
#[derive(Debug)]
pub enum SessionRecheck {
    /// The session is still active: touch it and go on.
    Active,
    /// The session was retired or taken over: drop it and refuse.
    Inactive,
    /// The check itself failed, with this message.
    CheckFailed(String),
}

/// The reply to a request on a connection whose session is no longer
/// usable, if any.
pub fn recheck_reply(check: SessionRecheck) -> (r: Option<ServerMsg>)
    ensures
        check == SessionRecheck::Active ==> r is None,
        check == SessionRecheck::Inactive ==> (r matches Some(e) && is_error(
            e,
            "session_inactive"@,
            "当前 session 已被退役或接管"@,
        )),
        check matches SessionRecheck::CheckFailed(m) ==> (r matches Some(e) && is_error(
            e,
            "session_error"@,
            "校验 session 失败: "@ + m@,
        )),
{
    match check {
        SessionRecheck::Active => None,
        SessionRecheck::Inactive => Some(err("session_inactive", "当前 session 已被退役或接管")),
        SessionRecheck::CheckFailed(m) => {
            let mut s = String::from_str("校验 session 失败: ");
            s.append(m.as_str());
            Some(err_owned("session_error", s))
        },
    }
}

/// The session a leave request ends: the explicit one, else the
/// connection's own; without either the request fails.
pub fn leave_target(explicit: Option<String>, session: &Option<SessionInfo>) -> (r: Result<String, ServerMsg>)
    ensures
        explicit matches Some(s) ==> r == Ok::<String, ServerMsg>(s),
        explicit is None && session is Some ==> (r matches Ok(s) && s@ == session.unwrap().session_id@),
        explicit is None && session is None ==> (r matches Err(e) && is_error(
            e,
            "leave_failed"@,
            "未提供 session_id 且当前未认证"@,
        )),
{
    match explicit {
        Some(s) => Ok(s),
        None => match session {
            Some(info) => Ok(String::from_str(info.session_id.as_str())),
            None => Err(err("leave_failed", "未提供 session_id 且当前未认证")),
        },
    }
}

/// Whether leaving `left_id` ends the connection's own session.
pub fn leaves_own_session(session: &Option<SessionInfo>, left_id: &str) -> (r: bool)
    ensures
        r == (session matches Some(info) && info.session_id@ == left_id@),
{
    match session {
        Some(info) => str_eq(info.session_id.as_str(), left_id),
        None => false,
    }
}

} // verus!
