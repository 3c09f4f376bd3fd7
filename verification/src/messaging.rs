//! Decisions of the message and human-inbox handlers: error codes, content
//! types, defaults, and which side of a conversation is written locally.

use vstd::prelude::*;
use crate::proto::{ServerMsg, err, err_owned, is_error, auth_error};
use crate::text::{str_eq, eq_ignore_ascii_case_spec};
use crate::pathname::is_absolute_spec;

verus! {

/// The routing failures that replies tell apart.
#[derive(Debug)]
pub enum RoutingErrorKind {
    MessageNotFound,
    MessageIdTooShort,
    MessageIdAmbiguous,
    Other,
}

/// The error code of a routing failure.
pub open spec fn spec_routing_error_code(k: RoutingErrorKind) -> Seq<char> {
    match k {
        RoutingErrorKind::MessageNotFound => "message_not_found"@,
        RoutingErrorKind::MessageIdTooShort => "message_id_too_short"@,
        RoutingErrorKind::MessageIdAmbiguous => "message_id_ambiguous"@,
        RoutingErrorKind::Other => "msg_failed"@,
    }
}

/// The error code of a routing failure.
pub fn routing_error_code(k: &RoutingErrorKind) -> (r: &'static str)
    ensures
        r@ == spec_routing_error_code(*k),
{
    match k {
        RoutingErrorKind::MessageNotFound => "message_not_found",
        RoutingErrorKind::MessageIdTooShort => "message_id_too_short",
        RoutingErrorKind::MessageIdAmbiguous => "message_id_ambiguous",
        RoutingErrorKind::Other => "msg_failed",
    }
}

/// The reply for a routing failure.
pub fn routing_error_msg(k: &RoutingErrorKind, message: String) -> (r: ServerMsg)
    ensures
        is_error(r, spec_routing_error_code(*k), message@),
{
    err_owned(routing_error_code(k), message)
}

/// The failures of the human inbox that replies tell apart.
#[derive(Debug)]
pub enum HumanErrorKind {
    MessageNotFound,
    AlreadyResolved,
    SelectOnlyRequiresChoice,
    InvalidChoice,
    AgentNotFound,
    ReceiptInconclusive,
    SingleChoiceOnly,
    Other,
}

/// The error code of a human-inbox failure.
pub open spec fn spec_human_error_code(k: HumanErrorKind) -> Seq<char> {
    match k {
        HumanErrorKind::MessageNotFound => "message_not_found"@,
        HumanErrorKind::AlreadyResolved => "already_resolved"@,
        HumanErrorKind::SelectOnlyRequiresChoice => "select_only_requires_choice"@,
        HumanErrorKind::InvalidChoice => "invalid_choice"@,
        HumanErrorKind::AgentNotFound => "agent_not_found"@,
        HumanErrorKind::ReceiptInconclusive => "receipt_inconclusive"@,
        HumanErrorKind::SingleChoiceOnly => "single_choice_only"@,
        HumanErrorKind::Other => "human_failed"@,
    }
}

/// The reply for a human-inbox failure.
pub fn human_error_msg(k: &HumanErrorKind, message: String) -> (r: ServerMsg)
    ensures
        is_error(r, spec_human_error_code(*k), message@),
{
    let code = match k {
        HumanErrorKind::MessageNotFound => "message_not_found",
        HumanErrorKind::AlreadyResolved => "already_resolved",
        HumanErrorKind::SelectOnlyRequiresChoice => "select_only_requires_choice",
        HumanErrorKind::InvalidChoice => "invalid_choice",
        HumanErrorKind::AgentNotFound => "agent_not_found",
        HumanErrorKind::ReceiptInconclusive => "receipt_inconclusive",
        HumanErrorKind::SingleChoiceOnly => "single_choice_only",
        HumanErrorKind::Other => "human_failed",
    };
    err_owned(code, message)
}

/// The surface a human reply is attributed to when none is given.
pub fn default_human_surface() -> (r: String)
    ensures
        r@ == "api"@,
{
    String::from_str("api")
}

/// The choices of a human reply: the list, then the single-choice field
/// when given.
pub fn merge_choices(choices: Vec<String>, choice: Option<String>) -> (r: Vec<String>)
    ensures
        choice matches Some(c) ==> r@ == choices@.push(c),
        choice is None ==> r@ == choices@,
{
    let mut choices = choices;
    if let Some(c) = choice {
        choices.push(c);
    }
    choices
}

/// The content type of an ask: an approval request when choices are
/// offered, plain text otherwise.
pub fn ask_content_type(option_count: usize) -> (r: &'static str)
    ensures
        option_count == 0 ==> r@ == "text"@,
        option_count > 0 ==> r@ == "approval_request"@,
{
    if option_count == 0 {
        "text"
    } else {
        "approval_request"
    }
}

/// The `all` query flag of an inbox listing: present and `true` in any ASCII
/// case.
pub fn inbox_all_flag(value: Option<&str>) -> (r: bool)
    ensures
        r == (value matches Some(v) && eq_ignore_ascii_case_spec(v@, "true"@)),
{
    match value {
        Some(v) => crate::text::eq_ignore_ascii_case(v, "true"),
        None => false,
    }
}

/// Notifications are on unless explicitly turned off.
pub fn notify_enabled(notify: Option<bool>) -> (r: bool)
    ensures
        r == (notify != Some(false)),
{
    match notify {
        Some(b) => b,
        None => true,
    }
}

/// A status change is recorded in history only when the status changed.
pub fn status_change_recorded(old_status: &str, new_status: &str) -> (r: bool)
    ensures
        r == (old_status@ != new_status@),
{
    !str_eq(old_status, new_status)
}

/// Messages to the human mailbox are fanned out to the human surfaces.
pub fn fans_out_to_human(to_address: &str, human_address: &str) -> (r: bool)
    ensures
        r == (to_address@ == human_address@),
{
    str_eq(to_address, human_address)
}

/// The reply when reading finds no unread message.
pub fn inbox_empty_for_read() -> (r: ServerMsg)
    ensures
        is_error(r, "inbox_empty"@, "当前 inbox 没有可查看的消息"@),
{
    err("inbox_empty", "当前 inbox 没有可查看的消息")
}

/// The reply when marking done finds no open message.
pub fn inbox_empty_for_done() -> (r: ServerMsg)
    ensures
        is_error(r, "inbox_empty"@, "当前 inbox 没有可标记完成的消息"@),
{
    err("inbox_empty", "当前 inbox 没有可标记完成的消息")
}

/// The reply when a referenced message does not exist.
pub fn message_not_found() -> (r: ServerMsg)
    ensures
        is_error(r, "message_not_found"@, "消息不存在"@),
{
    err("message_not_found", "消息不存在")
}

/// Where a participant's local workspace is, from what the daemon knows of
/// it: the workspace root recorded on its mailbox when that is absolute and
/// the session file there holds the participant's address; otherwise the
/// daemon's own workspace when its session file there holds that address;
/// otherwise nowhere (remote, human or unregistered).
pub open spec fn spec_participant_root(
    address: Seq<char>,
    mailbox_root: Seq<char>,
    root_session_address: Option<Seq<char>>,
    daemon_root: Seq<char>,
    daemon_session_address: Option<Seq<char>>,
) -> Option<Seq<char>> {
    if mailbox_root.len() > 0 && is_absolute_spec(mailbox_root) && root_session_address == Some(address) {
        Some(mailbox_root)
    } else if daemon_session_address == Some(address) {
        Some(daemon_root)
    } else {
        None
    }
}

/// Where a participant's local workspace is found: under the mailbox's
/// recorded root when that root is absolute and its session file holds the
/// address; otherwise under the daemon's root whenever the session file
/// there holds the address, whatever the mailbox recorded (empty, relative,
/// or a root whose session file holds another address); otherwise nowhere.
/// A root found is always one whose session file holds the address.
pub proof fn lemma_root_falls_back_to_daemon(
    address: Seq<char>,
    mailbox_root: Seq<char>,
    root_session_address: Option<Seq<char>>,
    daemon_root: Seq<char>,
    daemon_session_address: Option<Seq<char>>,
)
    ensures
        mailbox_root.len() > 0 && is_absolute_spec(mailbox_root) && root_session_address == Some(address)
            ==> spec_participant_root(address, mailbox_root, root_session_address, daemon_root, daemon_session_address)
            == Some(mailbox_root),
        !(mailbox_root.len() > 0 && is_absolute_spec(mailbox_root) && root_session_address == Some(address))
            && daemon_session_address == Some(address) ==> spec_participant_root(
            address,
            mailbox_root,
            root_session_address,
            daemon_root,
            daemon_session_address,
        ) == Some(daemon_root),
        daemon_session_address == Some(address) ==> forall|other_root: Seq<char>, other_session: Option<Seq<char>>|
            other_session != Some(address) ==> #[trigger] spec_participant_root(
                address,
                other_root,
                other_session,
                daemon_root,
                daemon_session_address,
            ) == Some(daemon_root),
        spec_participant_root(address, mailbox_root, root_session_address, daemon_root, daemon_session_address) matches Some(
            root,
        ) ==> (root == mailbox_root && root_session_address == Some(address)) || (root == daemon_root
            && daemon_session_address == Some(address)),
        root_session_address != Some(address) && daemon_session_address != Some(address) ==> spec_participant_root(
            address,
            mailbox_root,
            root_session_address,
            daemon_root,
            daemon_session_address,
        ) is None,
{
}

/// Chooses a participant's local workspace (see `spec_participant_root`).
/// `root_session_address` is the address in the session file under the
/// mailbox's recorded root (when that root is absolute and the file reads),
/// `daemon_session_address` the one under the daemon's own root.
pub fn participant_root(
    address: &str,
    mailbox_root: &str,
    root_session_address: Option<&str>,
    daemon_root: &str,
    daemon_session_address: Option<&str>,
) -> (r: Option<String>)
    ensures
        crate::json::opt_str_view(r) == spec_participant_root(
            address@,
            mailbox_root@,
            crate::mem::ov(root_session_address),
            daemon_root@,
            crate::mem::ov(daemon_session_address),
        ),
        mailbox_root@.len() > 0 && is_absolute_spec(mailbox_root@) && crate::mem::ov(root_session_address) == Some(
            address@,
        ) ==> crate::json::opt_str_view(r) == Some(mailbox_root@),
        !(mailbox_root@.len() > 0 && is_absolute_spec(mailbox_root@) && crate::mem::ov(root_session_address) == Some(
            address@,
        )) && crate::mem::ov(daemon_session_address) == Some(address@) ==> crate::json::opt_str_view(r) == Some(
            daemon_root@,
        ),
        crate::mem::ov(root_session_address) != Some(address@) && crate::mem::ov(daemon_session_address) != Some(
            address@,
        ) ==> r is None,
{
    proof {
        lemma_root_falls_back_to_daemon(
            address@,
            mailbox_root@,
            crate::mem::ov(root_session_address),
            daemon_root@,
            crate::mem::ov(daemon_session_address),
        );
    }
    if !crate::text::is_empty(mailbox_root) && crate::pathname::is_absolute(mailbox_root) {
        if let Some(a) = root_session_address {
            if str_eq(a, address) {
                return Some(String::from_str(mailbox_root));
            }
        }
    }
    if let Some(a) = daemon_session_address {
        if str_eq(a, address) {
            return Some(String::from_str(daemon_root));
        }
    }
    None
}

/// A peer's intro: the one in its local session file when that file holds
/// its address, else the mailbox's.
pub fn peer_intro(peer_address: &str, session: Option<(&str, &str)>, mailbox_intro: &str) -> (r: String)
    ensures
        session matches Some((a, intro)) ==> (a@ == peer_address@ ==> r@ == intro@),
        !(session matches Some((a, _)) && a@ == peer_address@) ==> r@ == mailbox_intro@,
{
    if let Some((a, intro)) = session {
        if str_eq(a, peer_address) {
            return String::from_str(intro);
        }
    }
    String::from_str(mailbox_intro)
}

/// Checks a human token against the human mailbox: the header must be
/// present and the session's address must be the human mailbox's.
pub fn human_token_present(token: Option<&str>) -> (r: Result<(), ServerMsg>)
    ensures
        token is None ==> (r matches Err(e) && is_error(e, "auth_failed"@, "缺少 X-AgTalk-Human-Token"@)),
        token is Some ==> r is Ok,
{
    match token {
        Some(_) => Ok(()),
        None => Err(auth_error(String::from_str("缺少 X-AgTalk-Human-Token"))),
    }
}

/// A human session must belong to the human mailbox of the database.
pub fn human_address_matches(session_address: &str, human_address: &str) -> (r: Result<(), ServerMsg>)
    ensures
        session_address@ == human_address@ ==> r is Ok,
        session_address@ != human_address@ ==> (r matches Err(e) && is_error(
            e,
            "auth_failed"@,
            "human session 与 mailbox 不一致，请重启 daemon 重新颁发"@,
        )),
{
    if str_eq(session_address, human_address) {
        Ok(())
    } else {
        Err(auth_error(String::from_str("human session 与 mailbox 不一致，请重启 daemon 重新颁发")))
    }
}

/// A delivery acknowledgement needs a non-blank surface.
pub fn check_ack_surface(surface: &str) -> (r: Result<(), ServerMsg>)
    ensures
        crate::text::trim_spec(surface@, Seq::empty()) ==> (r matches Err(e) && is_error(
            e,
            "invalid_surface"@,
            "surface 不能为空"@,
        )),
        !crate::text::trim_spec(surface@, Seq::empty()) ==> r is Ok,
{
    let t = crate::text::trim(surface);
    proof {
        lemma_trim_unique(surface@, t@);
    }
    if crate::text::is_empty(t.as_str()) {
        Err(err("invalid_surface", "surface 不能为空"))
    } else {
        Ok(())
    }
}

proof fn lemma_trim_unique(s: Seq<char>, t: Seq<char>)
    requires
        crate::text::trim_spec(s, t),
    ensures
        crate::text::trim_spec(s, Seq::empty()) <==> t.len() == 0,
{
    let (lo, hi) = choose|lo: int, hi: int| #[trigger] crate::text::is_trim_of(s, lo, hi) && t == s.subrange(lo, hi);
    if crate::text::trim_spec(s, Seq::empty()) {
        let (lo2, hi2) = choose|lo2: int, hi2: int| #[trigger] crate::text::is_trim_of(s, lo2, hi2) && Seq::<char>::empty()
            == s.subrange(lo2, hi2);
        assert(s.subrange(lo2, hi2).len() == 0);
        assert(lo2 == hi2);
        if lo < hi {
            assert(!crate::text::is_whitespace_spec(s[lo]));
            assert(crate::text::is_whitespace_spec(s[lo]));
        }
    }
    if t.len() == 0 {
        assert(crate::text::is_trim_of(s, lo, hi) && Seq::<char>::empty() == s.subrange(lo, hi));
    }
}

/// The reply when a delivery acknowledgement finds no delivery row.
pub fn delivery_not_found(message_id: &str, surface: &str) -> (r: ServerMsg)
    ensures
        is_error(r, "delivery_not_found"@, "delivery 不存在: "@ + message_id@ + " / "@ + surface@),
{
    let mut m = String::from_str("delivery 不存在: ");
    m.append(message_id);
    m.append(" / ");
    m.append(surface);
    err_owned("delivery_not_found", m)
}

/// Marking done from the human inbox goes through the idempotent receipt
/// path exactly when both a surface and an external event id are given.
pub fn done_uses_receipt(surface: &Option<String>, external_event_id: &Option<String>) -> (r: bool)
    ensures
        r == (surface is Some && external_event_id is Some),
{
    surface.is_some() && external_event_id.is_some()
}

/// The message ids among polled items whose delivery is still pending, in
/// order: they are marked delivered.
pub open spec fn spec_pending_ids(items: Seq<(String, String)>) -> Seq<Seq<char>>
    decreases items.len(),
{
    if items.len() == 0 {
        Seq::empty()
    } else {
        spec_pending_ids(items.drop_last()) + if items.last().1@ == "pending"@ {
            seq![items.last().0@]
        } else {
            Seq::<Seq<char>>::empty()
        }
    }
}

/// Selects the pending deliveries among polled items, given as
/// (message id, delivery status).
pub fn pending_ids(items: &Vec<(String, String)>) -> (r: Vec<String>)
    ensures
        crate::text::string_views(r@) == spec_pending_ids(items@),
{
    let mut out: Vec<String> = Vec::new();
    let mut i: usize = 0;
    assert(items@.take(0) =~= Seq::<(String, String)>::empty());
    while i < items.len()
        invariant
            i <= items@.len(),
            crate::text::string_views(out@) == spec_pending_ids(items@.take(i as int)),
        decreases items@.len() - i,
    {
        assert(items@.take(i + 1).drop_last() =~= items@.take(i as int));
        let ghost before = crate::text::string_views(out@);
        if str_eq(items[i].1.as_str(), "pending") {
            out.push(String::from_str(items[i].0.as_str()));
            assert(crate::text::string_views(out@) =~= before + seq![items@[i as int].0@]);
        } else {
            assert(before + Seq::<Seq<char>>::empty() =~= before);
        }
        i = i + 1;
    }
    assert(items@.take(items@.len() as int) =~= items@);
    out
}

/// The `LIKE` pattern that finds the ids starting with `prefix`.
pub fn prefix_pattern(prefix: &str) -> (r: String)
    ensures
        r@ == prefix@ + "%"@,
{
    let mut p = String::from_str(prefix);
    p.append("%");
    p
}

/// Resolves a message id that may be a prefix: an exact match wins;
/// otherwise the single id it prefixes (of at most two looked at), none when
/// it prefixes none, an error when it prefixes several.
pub fn resolve_message_prefix(msg_id: &str, exact: Option<String>, matches: Vec<String>) -> (r: Result<Option<String>, String>)
    ensures
        exact matches Some(e) ==> r == Ok::<Option<String>, String>(Some(e)),
        exact is None && matches@.len() == 0 ==> r == Ok::<Option<String>, String>(None),
        exact is None && matches@.len() == 1 ==> r == Ok::<Option<String>, String>(Some(matches@[0])),
        exact is None && matches@.len() > 1 ==> (r matches Err(m) && m@ == "消息 ID 前缀不唯一: "@ + msg_id@),
{
    if let Some(e) = exact {
        return Ok(Some(e));
    }
    let n = matches.len();
    if n == 0 {
        return Ok(None);
    }
    if n == 1 {
        let mut matches = matches;
        return Ok(matches.pop());
    }
    let mut m = String::from_str("消息 ID 前缀不唯一: ");
    m.append(msg_id);
    Err(m)
}

/// Resolves an attachment id that may be a prefix: an exact match wins;
/// otherwise exactly one id must start with it.
pub fn resolve_attachment_prefix(attachment_id: &str, exact: Option<String>, matches: Vec<String>) -> (r: Result<String, String>)
    ensures
        exact matches Some(e) ==> r == Ok::<String, String>(e),
        exact is None && matches@.len() == 0 ==> (r matches Err(m) && m@ == "附件不存在: "@ + attachment_id@),
        exact is None && matches@.len() == 1 ==> r == Ok::<String, String>(matches@[0]),
        exact is None && matches@.len() > 1 ==> (r matches Err(m) && m@ == "附件 ID 前缀不唯一: "@ + attachment_id@),
{
    if let Some(e) = exact {
        return Ok(e);
    }
    let n = matches.len();
    if n == 1 {
        let mut matches = matches;
        return Ok(matches.pop().unwrap());
    }
    if n == 0 {
        let mut m = String::from_str("附件不存在: ");
        m.append(attachment_id);
        return Err(m);
    }
    let mut m = String::from_str("附件 ID 前缀不唯一: ");
    m.append(attachment_id);
    Err(m)
}

/// The members of a new conversation: the sender, then each recipient not
/// already a member, in order.
pub open spec fn spec_members(sender: Seq<char>, recipients: Seq<Seq<char>>) -> Seq<Seq<char>>
    decreases recipients.len(),
{
    if recipients.len() == 0 {
        seq![sender]
    } else {
        let m = spec_members(sender, recipients.drop_last());
        if m.contains(recipients.last()) {
            m
        } else {
            m.push(recipients.last())
        }
    }
}

/// Lists the members of a new conversation (see `spec_members`), from the
/// sender's id and the ids of the recipients that were found.
pub fn conversation_members(sender_id: &str, recipient_ids: &Vec<String>) -> (r: Vec<String>)
    ensures
        crate::text::string_views(r@) == spec_members(sender_id@, crate::text::string_views(recipient_ids@)),
{
    let mut out: Vec<String> = Vec::new();
    out.push(String::from_str(sender_id));
    let ghost rs = crate::text::string_views(recipient_ids@);
    let mut i: usize = 0;
    assert(rs.take(0) =~= Seq::<Seq<char>>::empty());
    assert(crate::text::string_views(out@) =~= seq![sender_id@]);
    while i < recipient_ids.len()
        invariant
            i <= recipient_ids@.len(),
            rs == crate::text::string_views(recipient_ids@),
            crate::text::string_views(out@) == spec_members(sender_id@, rs.take(i as int)),
        decreases recipient_ids@.len() - i,
    {
        assert(rs.take(i + 1).drop_last() =~= rs.take(i as int));
        assert(rs.take(i + 1).last() == recipient_ids@[i as int]@);
        let ghost before = crate::text::string_views(out@);
        if !crate::text::contains_str(&out, recipient_ids[i].as_str()) {
            out.push(String::from_str(recipient_ids[i].as_str()));
            assert(crate::text::string_views(out@) =~= before.push(recipient_ids@[i as int]@));
        }
        i = i + 1;
    }
    assert(rs.take(rs.len() as int) =~= rs);
    out
}

/// The members of a new conversation never repeat, begin with the sender,
/// and include every recipient.
pub proof fn lemma_members_distinct(sender: Seq<char>, recipients: Seq<Seq<char>>)
    ensures
        spec_members(sender, recipients).no_duplicates(),
        spec_members(sender, recipients).len() > 0,
        spec_members(sender, recipients)[0] == sender,
        forall|i: int| 0 <= i < recipients.len() ==> spec_members(sender, recipients).contains(#[trigger] recipients[i]),
    decreases recipients.len(),
{
    if recipients.len() > 0 {
        let rest = recipients.drop_last();
        lemma_members_distinct(sender, rest);
        let m = spec_members(sender, rest);
        let x = recipients.last();
        if !m.contains(x) {
            let mx = m.push(x);
            assert forall|a: int, b: int| 0 <= a < mx.len() && 0 <= b < mx.len() && a != b implies mx[a] != mx[b] by {
                if a < m.len() && b < m.len() {
                } else if a == m.len() as int {
                    assert(m.contains(mx[b]) || b == a);
                } else {
                    assert(m.contains(mx[a]));
                }
            }
            assert forall|i: int| 0 <= i < recipients.len() implies mx.contains(#[trigger] recipients[i]) by {
                if i < rest.len() {
                    assert(rest[i] == recipients[i]);
                    assert(m.contains(rest[i]));
                    let k = choose|k: int| 0 <= k < m.len() && m[k] == rest[i];
                    assert(mx[k] == m[k]);
                } else {
                    assert(mx[m.len() as int] == x);
                }
            }
        } else {
            assert forall|i: int| 0 <= i < recipients.len() implies m.contains(#[trigger] recipients[i]) by {
                if i < rest.len() {
                    assert(rest[i] == recipients[i]);
                }
            }
        }
    }
}

/// The title of a new conversation: the recipients' names joined by `, `.
pub fn conversation_title(to_names: &Vec<String>) -> (r: String)
    ensures
        r@ == crate::text::join_spec(crate::text::string_views(to_names@), ", "@),
{
    crate::text::join(to_names, ", ")
}

/// The kind of a new conversation: the requested one, `direct` by default.
pub fn conversation_kind(kind: Option<&str>) -> (r: String)
    ensures
        r@ == match kind {
            Some(k) => k@,
            None => "direct"@,
        },
{
    match kind {
        Some(k) => String::from_str(k),
        None => String::from_str("direct"),
    }
}

/// The message an ask sends to the human mailbox: the question as body, an
/// approval request when choices are offered (plain text otherwise), and the
/// choices, recommendation and selection rules as its metadata.
#[derive(Debug)]
pub struct AskSend {
    pub to: String,
    pub to_name: String,
    pub from: String,
    pub from_name: String,
    pub body: String,
    pub content_type: String,
    pub choices: Vec<String>,
    pub recommended: Option<String>,
    pub single: bool,
    pub select_only: bool,
    pub notify: bool,
}

/// Plans an ask, once the human mailbox was ensured (`human`: its address,
/// or why it could not be had, which fails the ask with `ask_failed`).
pub fn plan_ask(
    human: Result<String, String>,
    human_name: &str,
    from_address: &str,
    from_name: &str,
    message: String,
    options: crate::requests::AskOptions,
    notify: bool,
) -> (r: Result<AskSend, ServerMsg>)
    ensures
        human matches Err(m) ==> (r matches Err(e) && is_error(e, "ask_failed"@, m@)),
        human matches Ok(h) ==> (r matches Ok(a) && {
            &&& a.to == h
            &&& a.to_name@ == human_name@
            &&& a.from@ == from_address@
            &&& a.from_name@ == from_name@
            &&& a.body == message
            &&& (options.options@.len() == 0 ==> a.content_type@ == "text"@)
            &&& (options.options@.len() > 0 ==> a.content_type@ == "approval_request"@)
            &&& a.choices == options.options
            &&& a.recommended == options.recommended
            &&& a.single == options.single
            &&& a.select_only == options.select_only
            &&& a.notify == notify
        }),
{
    let to = match human {
        Ok(h) => h,
        Err(m) => {
            return Err(err_owned("ask_failed", m));
        },
    };
    let content_type = String::from_str(ask_content_type(options.options.len()));
    Ok(AskSend {
        to,
        to_name: String::from_str(human_name),
        from: String::from_str(from_address),
        from_name: String::from_str(from_name),
        body: message,
        content_type,
        choices: options.options,
        recommended: options.recommended,
        single: options.single,
        select_only: options.select_only,
        notify,
    })
}

/// The reply to an ask, from the outcome of sending it (the message id, or
/// why the send failed).
pub fn ask_reply(sent: Result<String, String>) -> (r: ServerMsg)
    ensures
        sent matches Ok(id) ==> r == (ServerMsg::AskResult { message_id: id }),
        sent matches Err(m) ==> is_error(r, "ask_failed"@, m@),
{
    match sent {
        Ok(id) => ServerMsg::AskResult { message_id: id },
        Err(m) => err_owned("ask_failed", m),
    }
}

/// The delivery status of a message to one recipient.
#[derive(Debug)]
pub enum DeliveryStatus {
    Pending,
    Delivered,
    Read,
    Done,
}

impl DeliveryStatus {
    /// The stored name.
    pub open spec fn spec_name(&self) -> Seq<char> {
        match self {
            DeliveryStatus::Pending => "pending"@,
            DeliveryStatus::Delivered => "delivered"@,
            DeliveryStatus::Read => "read"@,
            DeliveryStatus::Done => "done"@,
        }
    }

    /// The stored name.
    pub fn as_str(&self) -> (r: &'static str)
        ensures
            r@ == self.spec_name(),
    {
        match self {
            DeliveryStatus::Pending => "pending",
            DeliveryStatus::Delivered => "delivered",
            DeliveryStatus::Read => "read",
            DeliveryStatus::Done => "done",
        }
    }
}

/// A delivery after the recipient's poll picked it up: a pending one
/// becomes delivered, any other stays.
pub open spec fn spec_after_delivery(s: DeliveryStatus) -> DeliveryStatus {
    if s == DeliveryStatus::Pending {
        DeliveryStatus::Delivered
    } else {
        s
    }
}

/// A delivery after the recipient read it: read, unless it was done.
pub open spec fn spec_after_read(s: DeliveryStatus) -> DeliveryStatus {
    if s == DeliveryStatus::Done {
        DeliveryStatus::Done
    } else {
        DeliveryStatus::Read
    }
}

/// A delivery after the recipient marked it done.
pub open spec fn spec_after_done(s: DeliveryStatus) -> DeliveryStatus {
    DeliveryStatus::Done
}

/// Reads a stored delivery status.
pub fn parse_delivery_status(s: &str) -> (r: Option<DeliveryStatus>)
    ensures
        r matches Some(d) ==> d.spec_name() == s@,
        r is None ==> !(s@ == "pending"@ || s@ == "delivered"@ || s@ == "read"@ || s@ == "done"@),
{
    if str_eq(s, "pending") {
        Some(DeliveryStatus::Pending)
    } else if str_eq(s, "delivered") {
        Some(DeliveryStatus::Delivered)
    } else if str_eq(s, "read") {
        Some(DeliveryStatus::Read)
    } else if str_eq(s, "done") {
        Some(DeliveryStatus::Done)
    } else {
        None
    }
}

/// The status after a poll delivered the message (see `spec_after_delivery`).
pub fn after_delivery(s: &DeliveryStatus) -> (r: DeliveryStatus)
    ensures
        r == spec_after_delivery(*s),
{
    match s {
        DeliveryStatus::Pending => DeliveryStatus::Delivered,
        DeliveryStatus::Delivered => DeliveryStatus::Delivered,
        DeliveryStatus::Read => DeliveryStatus::Read,
        DeliveryStatus::Done => DeliveryStatus::Done,
    }
}

/// The status after a read (see `spec_after_read`).
pub fn after_read(s: &DeliveryStatus) -> (r: DeliveryStatus)
    ensures
        r == spec_after_read(*s),
{
    match s {
        DeliveryStatus::Done => DeliveryStatus::Done,
        _ => DeliveryStatus::Read,
    }
}

/// Done is final: neither a read nor a later delivery undoes it; reading
/// twice is reading once; no step leads back to pending.
pub proof fn lemma_delivery_status_monotone(s: DeliveryStatus)
    ensures
        spec_after_read(DeliveryStatus::Done) == DeliveryStatus::Done,
        spec_after_delivery(DeliveryStatus::Done) == DeliveryStatus::Done,
        spec_after_read(spec_after_read(s)) == spec_after_read(s),
        spec_after_done(spec_after_done(s)) == spec_after_done(s),
        spec_after_delivery(s) != DeliveryStatus::Pending,
        spec_after_read(s) != DeliveryStatus::Pending,
{
}

/// A status-history record of a message: its change and the reason.
#[derive(Debug)]
pub struct HistoryRecord {
    pub message_id: String,
    pub old_status: String,
    pub new_status: String,
    pub reason: String,
}

/// A record as the specification sees it.
pub open spec fn record_view(h: HistoryRecord) -> (Seq<char>, Seq<char>, Seq<char>, Seq<char>) {
    (h.message_id@, h.old_status@, h.new_status@, h.reason@)
}

/// What a read selects without an id: the deliveries not yet read.
pub open spec fn is_unread(s: DeliveryStatus) -> bool {
    s == DeliveryStatus::Pending || s == DeliveryStatus::Delivered
}

/// What a done selects without an id: the deliveries not yet done.
pub open spec fn is_open(s: DeliveryStatus) -> bool {
    s != DeliveryStatus::Done
}

/// The history a read of these deliveries records: one `msg.read` record
/// for each whose status the read changes.
pub open spec fn spec_read_history(items: Seq<(String, DeliveryStatus)>) -> Seq<(Seq<char>, Seq<char>, Seq<char>, Seq<char>)>
    decreases items.len(),
{
    if items.len() == 0 {
        Seq::empty()
    } else {
        let (id, st) = items.last();
        spec_read_history(items.drop_last()) + if spec_after_read(st) != st {
            seq![(id@, st.spec_name(), spec_after_read(st).spec_name(), "msg.read"@)]
        } else {
            Seq::empty()
        }
    }
}

fn history_record(id: &str, old: &DeliveryStatus, new: &DeliveryStatus, reason: &str) -> (r: HistoryRecord)
    ensures
        record_view(r) == (id@, old.spec_name(), new.spec_name(), reason@),
{
    HistoryRecord {
        message_id: String::from_str(id),
        old_status: String::from_str(old.as_str()),
        new_status: String::from_str(new.as_str()),
        reason: String::from_str(reason),
    }
}

fn same_status(a: &DeliveryStatus, b: &DeliveryStatus) -> (r: bool)
    ensures
        r == (*a == *b),
{
    match (a, b) {
        (DeliveryStatus::Pending, DeliveryStatus::Pending) => true,
        (DeliveryStatus::Delivered, DeliveryStatus::Delivered) => true,
        (DeliveryStatus::Read, DeliveryStatus::Read) => true,
        (DeliveryStatus::Done, DeliveryStatus::Done) => true,
        _ => false,
    }
}

/// A read without an id, from the unread deliveries found: an empty inbox
/// is `inbox_empty`; otherwise every found message is marked read and the
/// changes are recorded in the reader's history.
pub fn read_unread_plan(unread: &Vec<(String, DeliveryStatus)>) -> (r: Result<(Vec<String>, Vec<HistoryRecord>), ServerMsg>)
    ensures
        unread@.len() == 0 ==> (r matches Err(e) && is_error(e, "inbox_empty"@, "当前 inbox 没有可查看的消息"@)),
        unread@.len() > 0 ==> (r matches Ok((ids, hist)) && crate::text::string_views(ids@) == unread@.map_values(
            |p: (String, DeliveryStatus)| p.0@,
        ) && hist@.map_values(|h: HistoryRecord| record_view(h)) == spec_read_history(unread@)),
{
    if unread.len() == 0 {
        return Err(inbox_empty_for_read());
    }
    let mut ids: Vec<String> = Vec::new();
    let mut hist: Vec<HistoryRecord> = Vec::new();
    let mut i: usize = 0;
    while i < unread.len()
        invariant
            i <= unread@.len(),
            crate::text::string_views(ids@) == unread@.take(i as int).map_values(|p: (String, DeliveryStatus)| p.0@),
            hist@.map_values(|h: HistoryRecord| record_view(h)) == spec_read_history(unread@.take(i as int)),
        decreases unread@.len() - i,
    {
        let ghost ids0 = ids@;
        let ghost h0 = hist@.map_values(|h: HistoryRecord| record_view(h));
        assert(unread@.take(i + 1) =~= unread@.take(i as int).push(unread@[i as int]));
        assert(unread@.take(i + 1).drop_last() =~= unread@.take(i as int));
        let (id, st) = (&unread[i].0, &unread[i].1);
        ids.push(String::from_str(id.as_str()));
        assert(crate::text::string_views(ids@) =~= crate::text::string_views(ids0).push(id@));
        let next = after_read(st);
        if !same_status(&next, st) {
            hist.push(history_record(id.as_str(), st, &next, "msg.read"));
            assert(hist@.map_values(|h: HistoryRecord| record_view(h)) =~= h0 + seq![
                (id@, st.spec_name(), next.spec_name(), "msg.read"@),
            ]);
        } else {
            assert(h0 + Seq::<(Seq<char>, Seq<char>, Seq<char>, Seq<char>)>::empty() =~= h0);
        }
        i = i + 1;
    }
    assert(unread@.take(unread@.len() as int) =~= unread@);
    Ok((ids, hist))
}

/// A done, from the message it targets and its delivery status: the one
/// named by id, or (`implicit`) the newest not-done one, which is marked
/// read first. Without a target the reply is `inbox_empty` (implicit) or
/// `message_not_found`. The target is marked done; the change is recorded in
/// history as `msg.done` unless it was already done.
pub fn done_plan(target: Option<(String, DeliveryStatus)>, implicit: bool) -> (r: Result<(String, Option<HistoryRecord>), ServerMsg>)
    ensures
        target is None && implicit ==> (r matches Err(e) && is_error(e, "inbox_empty"@, "当前 inbox 没有可标记完成的消息"@)),
        target is None && !implicit ==> (r matches Err(e) && is_error(e, "message_not_found"@, "消息不存在"@)),
        target matches Some((id, st)) ==> ({
            let old = if implicit { spec_after_read(st) } else { st };
            r matches Ok((mid, rec)) && mid == id && if old == DeliveryStatus::Done {
                rec is None
            } else {
                rec matches Some(h) && record_view(h) == (id@, old.spec_name(), "done"@, "msg.done"@)
            }
        }),
{
    match target {
        None => {
            if implicit {
                Err(inbox_empty_for_done())
            } else {
                Err(message_not_found())
            }
        },
        Some((id, st)) => {
            let old = if implicit { after_read(&st) } else { st };
            let rec = match old {
                DeliveryStatus::Done => None,
                _ => Some(history_record(id.as_str(), &old, &DeliveryStatus::Done, "msg.done")),
            };
            Ok((id, rec))
        },
    }
}

/// Reading twice records once: a read leaves nothing that a later read
/// without an id selects, and reading again changes nothing. Marking done
/// twice records once: a done delivery is selected by no later done without
/// an id, and a second done on it records nothing.
pub proof fn lemma_read_done_twice(s: DeliveryStatus)
    ensures
        !is_unread(spec_after_read(s)),
        spec_after_read(spec_after_read(s)) == spec_after_read(s),
        !is_open(spec_after_done(s)),
        spec_after_done(s) == DeliveryStatus::Done,
{
}

/// What follows a sent message: the message it replies to is marked read by
/// the sender; the new message is marked delivered when a transport
/// delivered it or a notification reached the recipient; and how the
/// notification went (attempted, delivered, the error).
#[derive(Debug)]
pub struct SendOutcome {
    pub mark_read: Option<String>,
    pub mark_delivered: bool,
    pub notify_attempted: bool,
    pub notify_delivered: bool,
    pub notify_error: Option<String>,
}

/// The follow-up of a sent message, from what it replies to, whether a
/// transport delivered it, and the notification's outcome (`None`: not
/// attempted).
pub fn send_outcome(reply_to: Option<String>, transport_delivered: bool, notified: Option<Result<(), String>>) -> (r: SendOutcome)
    ensures
        r.mark_read == reply_to,
        r.notify_attempted == notified is Some,
        r.notify_delivered == (notified matches Some(Ok(()))),
        r.mark_delivered == (transport_delivered || r.notify_delivered),
        notified matches Some(Err(e)) ==> r.notify_error == Some(e),
        !(notified matches Some(Err(_))) ==> r.notify_error is None,
{
    let (attempted, delivered, error) = match notified {
        None => (false, false, None),
        Some(Ok(())) => (true, true, None),
        Some(Err(e)) => (true, false, Some(e)),
    };
    SendOutcome {
        mark_read: reply_to,
        mark_delivered: transport_delivered || delivered,
        notify_attempted: attempted,
        notify_delivered: delivered,
        notify_error: error,
    }
}

} // verus!
