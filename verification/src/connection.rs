//! The session of one client connection across its requests: the recheck
//! before each request, authenticating, leaving, waiting for an approval
//! and the long poll's admission. Each step takes what the store answered
//! and gives the connection's next session and the reply.

use vstd::prelude::*;
use crate::proto::{ServerMsg, err, err_owned, is_error};
use crate::sessions::{SessionInfo, SessionRecheck, SessionMode, spec_needs_conflict_check, spec_session_mode, is_reserved_name};
use crate::text::decimal;
use crate::waiters::{PendingAsks, spec_waiters_of, PollKey, PollWaiters, poll_key_view, spec_poll_limit, spec_poll_timeout};
use crate::text::str_eq;

verus! {

/// The recheck made before every request of an authenticated connection.
/// An active session goes on; a retired or taken-over one is dropped and
/// the request refused with `session_inactive`; a failed check refuses the
/// request with `session_error` and keeps the session. A connection without
/// a session is not rechecked.
pub fn recheck_step(session: Option<SessionInfo>, check: SessionRecheck) -> (r: (Option<SessionInfo>, Option<ServerMsg>))
    ensures
        session is None ==> r.0 is None && r.1 is None,
        session is Some ==> match check {
            SessionRecheck::Active => r.0 == session && r.1 is None,
            SessionRecheck::Inactive => r.0 is None && (r.1 matches Some(e) && is_error(
                e,
                "session_inactive"@,
                "当前 session 已被退役或接管"@,
            )),
            SessionRecheck::CheckFailed(m) => r.0 == session && (r.1 matches Some(e) && is_error(
                e,
                "session_error"@,
                "校验 session 失败: "@ + m@,
            )),
        },
{
    if session.is_none() {
        return (None, None);
    }
    match check {
        SessionRecheck::Active => (session, None),
        SessionRecheck::Inactive => (None, Some(err("session_inactive", "当前 session 已被退役或接管"))),
        SessionRecheck::CheckFailed(m) => {
            let mut s = String::from_str("校验 session 失败: ");
            s.append(m.as_str());
            (session, Some(err_owned("session_error", s)))
        },
    }
}

/// Authenticating a connection, from what validating the session id and
/// token found: a valid pair becomes the connection's session; an invalid
/// pair is refused with `auth_failed`, a failed lookup with `auth_error`,
/// and the connection keeps what it had.
pub fn auth_step(session: Option<SessionInfo>, found: Result<Option<SessionInfo>, String>) -> (r: (Option<SessionInfo>, ServerMsg))
    ensures
        found matches Ok(Some(info)) ==> r.0 == Some(info) && (r.1 matches ServerMsg::Authenticated {
            session_id,
            workspace_id,
            participant_id,
            participant_name,
            status,
            notify_config,
        } && session_id@ == info.session_id@ && workspace_id@ == info.workspace_id@ && participant_id@
            == info.participant_id@ && participant_name@ == info.participant_name@ && status@ == info.status@
            && crate::json::opt_str_view(notify_config) == crate::json::opt_str_view(info.notify_config)),
        found matches Ok(None) ==> r.0 == session && is_error(r.1, "auth_failed"@, "session_id 或 token 无效"@),
        found matches Err(m) ==> r.0 == session && is_error(r.1, "auth_error"@, m@),
{
    match found {
        Ok(Some(info)) => {
            let reply = ServerMsg::Authenticated {
                session_id: String::from_str(info.session_id.as_str()),
                workspace_id: String::from_str(info.workspace_id.as_str()),
                participant_id: String::from_str(info.participant_id.as_str()),
                participant_name: String::from_str(info.participant_name.as_str()),
                status: String::from_str(info.status.as_str()),
                notify_config: match &info.notify_config {
                    Some(c) => Some(String::from_str(c.as_str())),
                    None => None,
                },
            };
            (Some(info), reply)
        },
        Ok(None) => (session, err("auth_failed", "session_id 或 token 无效")),
        Err(m) => (session, err_owned("auth_error", m)),
    }
}

/// The session a leave request is about: the one it names, else the
/// connection's own; with neither it is refused with `leave_failed`.
pub fn leave_target(session_id: Option<String>, session: &Option<SessionInfo>) -> (r: Result<String, ServerMsg>)
    ensures
        session_id matches Some(s) ==> r == Ok::<String, ServerMsg>(s),
        session_id is None && session is Some ==> (r matches Ok(s) && s@ == session.unwrap().session_id@),
        session_id is None && session is None ==> (r matches Err(e) && is_error(
            e,
            "leave_failed"@,
            "未提供 session_id 且当前未认证"@,
        )),
{
    match session_id {
        Some(s) => Ok(s),
        None => match session {
            Some(info) => Ok(String::from_str(info.session_id.as_str())),
            None => Err(err("leave_failed", "未提供 session_id 且当前未认证")),
        },
    }
}

/// The session a leave request names, from what looking it up found.
pub fn leave_lookup(sid: &str, found: Result<Option<SessionInfo>, String>) -> (r: Result<SessionInfo, ServerMsg>)
    ensures
        found matches Ok(Some(info)) ==> r == Ok::<SessionInfo, ServerMsg>(info),
        found matches Ok(None) ==> (r matches Err(e) && is_error(e, "leave_failed"@, "session "@ + sid@ + " 不存在"@)),
        found matches Err(m) ==> (r matches Err(e) && is_error(e, "leave_failed"@, m@)),
{
    match found {
        Ok(Some(info)) => Ok(info),
        Ok(None) => {
            let mut m = String::from_str("session ");
            m.append(sid);
            m.append(" 不存在");
            Err(err_owned("leave_failed", m))
        },
        Err(m) => Err(err_owned("leave_failed", m)),
    }
}

/// The end of a leave, from marking the session left: the connection drops
/// its session when that is the one that left; a failed mark is refused
/// with `leave_failed` and changes nothing.
pub fn leave_done(session: Option<SessionInfo>, sid: &str, marked: Result<(), String>) -> (r: (Option<SessionInfo>, ServerMsg))
    ensures
        marked is Ok ==> (r.1 matches ServerMsg::SessionLeft { session_id } && session_id@ == sid@),
        marked is Ok ==> (r.0 is None <==> (session is None || session.unwrap().session_id@ == sid@)),
        marked is Ok && r.0 is Some ==> r.0 == session,
        marked matches Err(m) ==> r.0 == session && is_error(r.1, "leave_failed"@, m@),
{
    match marked {
        Err(m) => (session, err_owned("leave_failed", m)),
        Ok(()) => {
            let own = match &session {
                Some(info) => str_eq(info.session_id.as_str(), sid),
                None => false,
            };
            let reply = ServerMsg::SessionLeft { session_id: String::from_str(sid) };
            if own {
                (None, reply)
            } else {
                (session, reply)
            }
        },
    }
}

/// Who may wait for an approval, from what looking the message up found
/// (its content type and sender): only the sender of an approval request.
pub fn wait_check(msg_id: &str, sender: &str, found: Result<Option<(String, String)>, String>) -> (r: Result<(), ServerMsg>)
    ensures
        found matches Err(m) ==> (r matches Err(e) && is_error(e, "lookup_failed"@, m@)),
        found matches Ok(None) ==> (r matches Err(e) && is_error(e, "message_not_found"@, "消息不存在: "@ + msg_id@)),
        found matches Ok(Some((ct, _))) ==> (ct@ != "approval_request"@ ==> (r matches Err(e) && is_error(
            e,
            "not_approval_request"@,
            "消息 "@ + msg_id@ + " 不是审批请求"@,
        ))),
        found matches Ok(Some((ct, from))) ==> (ct@ == "approval_request"@ && from@ != sender@ ==> (r matches Err(e)
            && is_error(e, "unauthorized_wait"@, "只有 Ask 的发起者可以等待其审批结果: "@ + msg_id@))),
        r is Ok <==> (found matches Ok(Some((ct, from))) && ct@ == "approval_request"@ && from@ == sender@),
{
    match found {
        Err(m) => Err(err_owned("lookup_failed", m)),
        Ok(None) => {
            let mut m = String::from_str("消息不存在: ");
            m.append(msg_id);
            Err(err_owned("message_not_found", m))
        },
        Ok(Some((ct, from))) => {
            if !str_eq(ct.as_str(), "approval_request") {
                let mut m = String::from_str("消息 ");
                m.append(msg_id);
                m.append(" 不是审批请求");
                return Err(err_owned("not_approval_request", m));
            }
            if !str_eq(from.as_str(), sender) {
                let mut m = String::from_str("只有 Ask 的发起者可以等待其审批结果: ");
                m.append(msg_id);
                return Err(err_owned("unauthorized_wait", m));
            }
            Ok(())
        },
    }
}

/// The reply to a wait: the approval's choice and reason once replied,
/// else a timeout.
pub fn wait_result(msg_id: String, reply: Option<(String, String)>) -> (r: ServerMsg)
    ensures
        reply matches Some((c, why)) ==> (r matches ServerMsg::WaitResult { msg_id: m, status, choice, reason, timed_out }
            && m == msg_id && status@ == "replied"@ && choice == c && reason == why && !timed_out),
        reply is None ==> (r matches ServerMsg::WaitResult { msg_id: m, status, choice, reason, timed_out }
            && m == msg_id && status@ == "timed_out"@ && choice@.len() == 0 && reason@.len() == 0 && timed_out),
{
    match reply {
        Some((choice, reason)) => ServerMsg::WaitResult {
            msg_id,
            status: String::from_str("replied"),
            choice,
            reason,
            timed_out: false,
        },
        None => ServerMsg::WaitResult {
            msg_id,
            status: String::from_str("timed_out"),
            choice: String::new(),
            reason: String::new(),
            timed_out: true,
        },
    }
}

/// The key a long poll waits under: the connection's workspace and
/// participant. A connection without a session is refused with
/// `auth_required`.
pub fn poll_key(session: &Option<SessionInfo>) -> (r: Result<PollKey, ServerMsg>)
    ensures
        session is None ==> (r matches Err(e) && is_error(e, "auth_required"@, "PollInbox 需要 session 鉴权"@)),
        session matches Some(info) ==> (r matches Ok(k) && poll_key_view(k) == (info.workspace_id@, info.participant_id@)),
{
    match session {
        None => Err(err("auth_required", "PollInbox 需要 session 鉴权")),
        Some(info) => Ok(PollKey {
            workspace_id: String::from_str(info.workspace_id.as_str()),
            participant_id: String::from_str(info.participant_id.as_str()),
        }),
    }
}

/// Registers a long poll that found nothing yet. A participant with a poll
/// already pending is refused with `poll_already_active`, the handle comes
/// back, and the registry is unchanged.
pub fn poll_register<T>(waiters: &mut PollWaiters<T>, key: PollKey, tx: T) -> (r: Result<(), (T, ServerMsg)>)
    requires
        old(waiters).wf(),
    ensures
        final(waiters).wf(),
        old(waiters).view().contains_key(poll_key_view(key)) ==> (r matches Err((t, e)) && t == tx && is_error(
            e,
            "poll_already_active"@,
            "当前 participant 已有一个挂起中的 PollInbox 请求"@,
        ) && final(waiters).view() == old(waiters).view()),
        !old(waiters).view().contains_key(poll_key_view(key)) ==> r is Ok && final(waiters).view()
            == old(waiters).view().insert(poll_key_view(key), tx),
{
    match waiters.try_register(key, tx) {
        Ok(()) => Ok(()),
        Err(t) => Err((t, err("poll_already_active", "当前 participant 已有一个挂起中的 PollInbox 请求"))),
    }
}

/// The participant a `WhoAmI` reports: the connection's, else `anonymous`.
pub fn whoami_participant(session: &Option<SessionInfo>) -> (r: String)
    ensures
        session matches Some(info) ==> r@ == info.participant_name@,
        session is None ==> r@ == "anonymous"@,
{
    match session {
        Some(info) => String::from_str(info.participant_name.as_str()),
        None => String::from_str("anonymous"),
    }
}

/// Where a connection's join (or attach, to a participant that must already
/// exist) stands: the requested name, the endpoint key of its notify
/// configuration, whether it takes over, and the workspace and participant
/// found so far.
#[derive(Debug)]
pub struct JoinState {
    pub attach: bool,
    pub name: String,
    pub endpoint_key: String,
    pub takeover: bool,
    pub workspace_id: String,
    pub participant_id: String,
}

/// What the store answered to the last step of a join.
#[derive(Debug)]
pub enum JoinEvent {
    /// The join request arrived.
    Start,
    /// Registering the workspace gave its id, or failed.
    WorkspaceRegistered(Result<String, String>),
    /// The number of active sessions on the endpoint, or a failed lookup.
    ActiveOnEndpoint(Result<usize, String>),
    /// The id of the participant of that name, if there is one.
    ParticipantFound(Result<Option<String>, String>),
    /// Registering the participant gave its id, or failed.
    ParticipantRegistered(Result<String, String>),
    /// Creating the session gave its id and token, or failed.
    SessionCreated(Result<(String, String), String>),
}

/// What the store does next for a join, or the join's reply.
#[derive(Debug)]
pub enum JoinNext {
    RegisterWorkspace,
    CountActiveOnEndpoint,
    /// Look the participant up by name; an existing one is updated from the
    /// request.
    LookupParticipant,
    RegisterParticipant,
    /// Create the session: plain, or retiring the endpoint's other sessions
    /// in one transaction.
    CreateSession(SessionMode),
    /// The join ends with this reply.
    Done(ServerMsg),
}

/// The error code of a failed join step: `attach_failed` for an attach.
pub open spec fn join_fail_code(attach: bool) -> Seq<char> {
    if attach {
        "attach_failed"@
    } else {
        "join_failed"@
    }
}

/// `prefix + detail`, the message of a failed join step.
pub open spec fn join_failure(r: JoinNext, attach: bool, prefix: Seq<char>, detail: Seq<char>) -> bool {
    r matches JoinNext::Done(e) && is_error(e, join_fail_code(attach), prefix + detail)
}

fn join_failed(attach: bool, prefix: &str, detail: String) -> (r: JoinNext)
    ensures
        join_failure(r, attach, prefix@, detail@),
{
    let mut m = String::from_str(prefix);
    m.append(detail.as_str());
    if attach {
        JoinNext::Done(err_owned("attach_failed", m))
    } else {
        JoinNext::Done(err_owned("join_failed", m))
    }
}

/// One step of a connection's join: from where it stands and what the store
/// answered, the next state and what happens next. A reserved name is
/// refused at once; a join with an endpoint and without takeover first
/// counts the endpoint's active sessions and fails on a conflict; the
/// session is created in takeover mode only with an endpoint; every failed
/// store step fails the join with `join_failed`.
pub fn join_step(st: JoinState, ev: JoinEvent) -> (r: (JoinState, JoinNext))
    ensures
        ev matches JoinEvent::Start ==> r.0 == st && if !st.attach && is_reserved_name(st.name@) {
            r.1 matches JoinNext::Done(e) && is_error(
                e,
                "reserved_name"@,
                "'"@ + st.name@ + "' 是保留名称，不能注册为 participant"@,
            )
        } else {
            r.1 == JoinNext::RegisterWorkspace
        },
        ev matches JoinEvent::WorkspaceRegistered(Err(m)) ==> r.0 == st && join_failure(r.1, st.attach, "注册 workspace 失败: "@, m@),
        ev matches JoinEvent::WorkspaceRegistered(Ok(w)) ==> r.0 == (JoinState { workspace_id: w, ..st }) && if spec_needs_conflict_check(
            st.endpoint_key@,
            st.takeover,
        ) {
            r.1 == JoinNext::CountActiveOnEndpoint
        } else {
            r.1 == JoinNext::LookupParticipant
        },
        ev matches JoinEvent::ActiveOnEndpoint(Err(m)) ==> r.0 == st && join_failure(r.1, st.attach, "查询 endpoint 冲突失败: "@, m@),
        ev matches JoinEvent::ActiveOnEndpoint(Ok(n)) ==> r.0 == st && if n == 0 {
            r.1 == JoinNext::LookupParticipant
        } else {
            r.1 matches JoinNext::Done(e) && is_error(
                e,
                "session_conflict"@,
                "endpoint "@ + st.endpoint_key@ + " 上已有 "@ + decimal(n as nat)
                    + " 个 active session；如要接管请重试并设置 takeover=true"@,
            )
        },
        ev matches JoinEvent::ParticipantFound(Err(m)) ==> r.0 == st && join_failure(r.1, st.attach, "查询 participant 失败: "@, m@),
        ev matches JoinEvent::ParticipantFound(Ok(None)) ==> r.0 == st && if st.attach {
            r.1 matches JoinNext::Done(e) && is_error(
                e,
                "participant_not_found"@,
                "participant '"@ + st.name@ + "' 不存在，请先用 join 注册"@,
            )
        } else {
            r.1 == JoinNext::RegisterParticipant
        },
        ev matches JoinEvent::ParticipantFound(Ok(Some(p))) ==> r.0 == (JoinState { participant_id: p, ..st }) && r.1
            == JoinNext::CreateSession(spec_session_mode(st.endpoint_key@, st.takeover)),
        ev matches JoinEvent::ParticipantRegistered(Err(m)) ==> r.0 == st && join_failure(r.1, st.attach, "注册 participant 失败: "@, m@),
        ev matches JoinEvent::ParticipantRegistered(Ok(p)) ==> r.0 == (JoinState { participant_id: p, ..st }) && r.1
            == JoinNext::CreateSession(spec_session_mode(st.endpoint_key@, st.takeover)),
        ev matches JoinEvent::SessionCreated(Err(m)) ==> r.0 == st && join_failure(r.1, st.attach, "创建 session 失败: "@, m@),
        ev matches JoinEvent::SessionCreated(Ok((sid, tok))) ==> r.0 == st && (r.1 matches JoinNext::Done(
            ServerMsg::Joined { workspace_id, participant_id, session_id, token },
        ) && workspace_id@ == st.workspace_id@ && participant_id@ == st.participant_id@ && session_id == sid && token
            == tok),
{
    match ev {
        JoinEvent::Start => {
            if st.attach {
                return (st, JoinNext::RegisterWorkspace);
            }
            match crate::sessions::check_reserved_name(st.name.as_str()) {
                Err(e) => (st, JoinNext::Done(e)),
                Ok(()) => (st, JoinNext::RegisterWorkspace),
            }
        },
        JoinEvent::WorkspaceRegistered(Err(m)) => {
            let a = st.attach;
            (st, join_failed(a, "注册 workspace 失败: ", m))
        },
        JoinEvent::WorkspaceRegistered(Ok(w)) => {
            let check = crate::sessions::needs_conflict_check(st.endpoint_key.as_str(), st.takeover);
            let next = JoinState { workspace_id: w, ..st };
            if check {
                (next, JoinNext::CountActiveOnEndpoint)
            } else {
                (next, JoinNext::LookupParticipant)
            }
        },
        JoinEvent::ActiveOnEndpoint(Err(m)) => {
            let a = st.attach;
            (st, join_failed(a, "查询 endpoint 冲突失败: ", m))
        },
        JoinEvent::ActiveOnEndpoint(Ok(n)) => {
            match crate::sessions::conflict_check(st.endpoint_key.as_str(), n) {
                Err(e) => (st, JoinNext::Done(e)),
                Ok(()) => (st, JoinNext::LookupParticipant),
            }
        },
        JoinEvent::ParticipantFound(Err(m)) => {
            let a = st.attach;
            (st, join_failed(a, "查询 participant 失败: ", m))
        },
        JoinEvent::ParticipantFound(Ok(None)) => {
            if st.attach {
                let mut m = String::from_str("participant '");
                m.append(st.name.as_str());
                m.append("' 不存在，请先用 join 注册");
                (st, JoinNext::Done(err_owned("participant_not_found", m)))
            } else {
                (st, JoinNext::RegisterParticipant)
            }
        },
        JoinEvent::ParticipantFound(Ok(Some(p))) => {
            let mode = crate::sessions::session_mode(st.endpoint_key.as_str(), st.takeover);
            (JoinState { participant_id: p, ..st }, JoinNext::CreateSession(mode))
        },
        JoinEvent::ParticipantRegistered(Err(m)) => {
            let a = st.attach;
            (st, join_failed(a, "注册 participant 失败: ", m))
        },
        JoinEvent::ParticipantRegistered(Ok(p)) => {
            let mode = crate::sessions::session_mode(st.endpoint_key.as_str(), st.takeover);
            (JoinState { participant_id: p, ..st }, JoinNext::CreateSession(mode))
        },
        JoinEvent::SessionCreated(Err(m)) => {
            let a = st.attach;
            (st, join_failed(a, "创建 session 失败: ", m))
        },
        JoinEvent::SessionCreated(Ok((sid, tok))) => {
            let reply = ServerMsg::Joined {
                workspace_id: String::from_str(st.workspace_id.as_str()),
                participant_id: String::from_str(st.participant_id.as_str()),
                session_id: sid,
                token: tok,
            };
            (st, JoinNext::Done(reply))
        },
    }
}

/// One inbox item a long poll returns: its message id and delivery status,
/// and the item itself.
#[derive(Debug)]
pub struct PollItem<I> {
    pub id: String,
    pub status: String,
    pub item: I,
}

/// The reply of a long poll.
#[derive(Debug)]
pub struct PollReply<I> {
    pub empty: bool,
    pub timed_out: bool,
    pub limit: u32,
    pub timeout_ms: u64,
    pub messages: Vec<PollItem<I>>,
}

/// The ids of the returned items still pending, in order.
pub open spec fn spec_poll_pending<I>(items: Seq<PollItem<I>>) -> Seq<Seq<char>>
    decreases items.len(),
{
    if items.len() == 0 {
        Seq::empty()
    } else {
        spec_poll_pending(items.drop_last()) + if items.last().status@ == "pending"@ {
            seq![items.last().id@]
        } else {
            Seq::<Seq<char>>::empty()
        }
    }
}

/// The inbox query of one look of a long poll: the participant's items
/// under the filter, at most the normalized limit.
pub fn poll_query(participant_id: &str, filter: &str, limit: u32) -> (r: crate::mem::SqlQuery)
    ensures
        r.sql@ == crate::inbox::inbox_select() + crate::inbox::spec_filter_clause(Some(filter@))
            + crate::inbox::inbox_order(),
        crate::mem::params_view(r.params@) == seq![
            crate::mem::ParamView::Text(participant_id@),
            crate::mem::ParamView::Int(spec_poll_limit(limit) as int),
        ],
{
    let (_, l) = crate::waiters::normalize_poll_params(0, limit);
    crate::inbox::inbox_query(participant_id, Some(filter), l)
}

/// The reply of a long poll from the items one look found, and the ids to
/// mark delivered: the returned items that were pending. The reply echoes
/// the normalized limit and timeout; it is empty exactly when no item came.
pub fn poll_reply<I>(timeout_ms: u64, limit: u32, items: Vec<PollItem<I>>, timed_out: bool) -> (r: (PollReply<I>, Vec<String>))
    ensures
        r.0.limit == spec_poll_limit(limit),
        r.0.timeout_ms == spec_poll_timeout(timeout_ms),
        r.0.empty == (items@.len() == 0),
        r.0.timed_out == timed_out,
        r.0.messages == items,
        crate::text::string_views(r.1@) == spec_poll_pending(items@),
{
    let (t, l) = crate::waiters::normalize_poll_params(timeout_ms, limit);
    let mut mark: Vec<String> = Vec::new();
    let mut i: usize = 0;
    assert(items@.take(0) =~= Seq::<PollItem<I>>::empty());
    while i < items.len()
        invariant
            i <= items@.len(),
            crate::text::string_views(mark@) == spec_poll_pending(items@.take(i as int)),
        decreases items@.len() - i,
    {
        assert(items@.take(i + 1).drop_last() =~= items@.take(i as int));
        let ghost before = crate::text::string_views(mark@);
        if str_eq(items[i].status.as_str(), "pending") {
            mark.push(String::from_str(items[i].id.as_str()));
            assert(crate::text::string_views(mark@) =~= before + seq![items@[i as int].id@]);
        } else {
            assert(before + Seq::<Seq<char>>::empty() =~= before);
        }
        i = i + 1;
    }
    assert(items@.take(items@.len() as int) =~= items@);
    let empty = items.len() == 0;
    (PollReply { empty, timed_out, limit: l, timeout_ms: t, messages: items }, mark)
}

/// What looking up the message a reply answers found.
#[derive(Debug)]
pub struct ApprovalTarget {
    pub content_type: String,
    pub sender_name: String,
    pub conversation_id: String,
}

/// The approval response a reply stores: from the replier to the asker, the
/// reason as body, in reply to the request and in its conversation, with
/// the choice as its metadata.
#[derive(Debug)]
pub struct ApprovalResponse {
    pub from: String,
    pub to: String,
    pub body: String,
    pub content_type: String,
    pub reply_to: String,
    pub conversation_id: String,
    pub choice: String,
}

/// Plans the reply to an approval request: only an approval request can be
/// replied to.
pub fn reply_plan(
    msg_id: &str,
    replier: String,
    found: Result<Option<ApprovalTarget>, String>,
    choice: String,
    reason: String,
) -> (r: Result<ApprovalResponse, ServerMsg>)
    ensures
        found matches Err(m) ==> (r matches Err(e) && is_error(e, "lookup_failed"@, m@)),
        found matches Ok(None) ==> (r matches Err(e) && is_error(e, "message_not_found"@, "消息不存在: "@ + msg_id@)),
        found matches Ok(Some(t)) ==> (t.content_type@ != "approval_request"@ ==> (r matches Err(e) && is_error(
            e,
            "not_approval_request"@,
            "消息 "@ + msg_id@ + " 不是审批请求"@,
        ))),
        found matches Ok(Some(t)) ==> (t.content_type@ == "approval_request"@ ==> (r matches Ok(a) && a.from == replier
            && a.to == t.sender_name && a.body == reason && a.content_type@ == "approval_response"@ && a.reply_to@
            == msg_id@ && a.conversation_id == t.conversation_id && a.choice == choice)),
{
    match found {
        Err(m) => Err(err_owned("lookup_failed", m)),
        Ok(None) => {
            let mut m = String::from_str("消息不存在: ");
            m.append(msg_id);
            Err(err_owned("message_not_found", m))
        },
        Ok(Some(t)) => {
            if !str_eq(t.content_type.as_str(), "approval_request") {
                let mut m = String::from_str("消息 ");
                m.append(msg_id);
                m.append(" 不是审批请求");
                return Err(err_owned("not_approval_request", m));
            }
            Ok(ApprovalResponse {
                from: replier,
                to: t.sender_name,
                body: reason,
                content_type: String::from_str("approval_response"),
                reply_to: String::from_str(msg_id),
                conversation_id: t.conversation_id,
                choice,
            })
        },
    }
}

/// The end of a reply, once storing the response succeeded or failed: on
/// success every waiter of the request is taken out of the registry, to be
/// woken with the choice and reason, and the reply is `replied`; on failure
/// nothing is woken and the reply is `reply_failed`.
pub fn reply_finish<T>(asks: &mut PendingAsks<T>, msg_id: &str, persisted: Result<(), String>) -> (r: (Vec<T>, ServerMsg))
    requires
        old(asks).wf(),
    ensures
        final(asks).wf(),
        persisted matches Err(m) ==> final(asks).view() == old(asks).view() && r.0@.len() == 0 && is_error(
            r.1,
            "reply_failed"@,
            m@,
        ),
        persisted is Ok ==> final(asks).view() == old(asks).view().remove(msg_id@) && r.0@ == spec_waiters_of(
            old(asks).view(),
            msg_id@,
        ).map_values(|w: (Seq<char>, T)| w.1) && (r.1 matches ServerMsg::Replied { msg_id: id, status } && id@
            == msg_id@ && status@ == "replied"@),
{
    match persisted {
        Err(m) => (Vec::new(), err_owned("reply_failed", m)),
        Ok(()) => {
            let woken = asks.take_all(msg_id);
            (woken, ServerMsg::Replied { msg_id: String::from_str(msg_id), status: String::from_str("replied") })
        },
    }
}

} // verus!
