//! Agent identities: notify channel summaries, pid anchoring, notify channel
//! resolution, leaving, and the cleanup report of stale identities.

use vstd::prelude::*;
use crate::proto::{ServerMsg, CleanupItem, err_owned, is_error};
use crate::text::{eq_ignore_ascii_case_spec, starts_with_spec, str_eq, decimal, before_first};

verus! {

/// The summary of a notify channel: `none` for none or empty, `zellij` /
/// `tmux` (lower-cased) for those, a `plugin:` channel as it is, `unknown`
/// for anything else.
pub open spec fn spec_notify_summary(channel: Seq<char>) -> Seq<char> {
    if eq_ignore_ascii_case_spec(channel, "none"@) || channel.len() == 0 {
        "none"@
    } else if eq_ignore_ascii_case_spec(channel, "zellij"@) {
        "zellij"@
    } else if eq_ignore_ascii_case_spec(channel, "tmux"@) {
        "tmux"@
    } else if starts_with_spec(channel, "plugin:"@) {
        channel
    } else {
        "unknown"@
    }
}

/// A channel can notify: it is neither `none` (in any case) nor empty.
pub open spec fn spec_notify_ready(channel: Seq<char>) -> bool {
    !eq_ignore_ascii_case_spec(channel, "none"@) && channel.len() > 0
}

/// Summarizes a notify channel (see `spec_notify_summary`).
pub fn notify_summary(channel: &str) -> (r: String)
    ensures
        r@ == spec_notify_summary(channel@),
{
    if crate::text::eq_ignore_ascii_case(channel, "none") || crate::text::is_empty(channel) {
        return String::from_str("none");
    }
    if crate::text::eq_ignore_ascii_case(channel, "zellij") {
        return String::from_str("zellij");
    }
    if crate::text::eq_ignore_ascii_case(channel, "tmux") {
        return String::from_str("tmux");
    }
    if crate::text::starts_with(channel, "plugin:") {
        return String::from_str(channel);
    }
    String::from_str("unknown")
}

/// Whether a notify channel can notify (see `spec_notify_ready`).
pub fn notify_ready(channel: &str) -> (r: bool)
    ensures
        r == spec_notify_ready(channel@),
{
    !crate::text::eq_ignore_ascii_case(channel, "none") && !crate::text::is_empty(channel)
}

/// A channel is ready exactly when its summary is not `none`.
pub proof fn lemma_ready_iff_summary_not_none(channel: Seq<char>)
    ensures
        spec_notify_ready(channel) <==> spec_notify_summary(channel) != "none"@,
{
    reveal_strlit("none");
    reveal_strlit("zellij");
    reveal_strlit("tmux");
    reveal_strlit("unknown");
    reveal_strlit("plugin:");
    if spec_notify_ready(channel) && starts_with_spec(channel, "plugin:"@) {
        assert(channel.subrange(0, 7)[0] == 'p');
        assert(channel[0] == 'p');
        if channel == "none"@ {
            assert(eq_ignore_ascii_case_spec(channel, "none"@));
        }
    }
    assert("zellij"@.len() != "none"@.len());
    assert("tmux"@[0] != "none"@[0]);
    assert("unknown"@.len() != "none"@.len());
}

/// Checks a joining agent's pid anchor against the process table: the start
/// time it claims must be non-zero and match the one the OS reports for the
/// pid (`None` when no such process exists).
pub fn validate_pid(start_time: u64, os_start_time: Option<u64>) -> (r: Result<(), String>)
    ensures
        start_time == 0 ==> (r matches Err(m) && m@ == "start_time 不可能为 0（进程可能已退出或 sysinfo 读不到）"@),
        start_time != 0 && os_start_time is None ==> (r matches Err(m) && m@ == "进程不存在"@),
        start_time != 0 && os_start_time == Some(0u64) ==> (r matches Err(m) && m@
            == "OS 返回 start_time=0，进程状态异常"@),
        os_start_time matches Some(t) ==> (start_time != 0 && t != 0 && t != start_time ==> (r matches Err(m)
            && m@ == "PID start_time 不匹配（可能已被 OS 复用）"@)),
        r is Ok <==> (start_time != 0 && os_start_time == Some(start_time)),
{
    if start_time == 0 {
        return Err(String::from_str("start_time 不可能为 0（进程可能已退出或 sysinfo 读不到）"));
    }
    let os_start = match os_start_time {
        Some(t) => t,
        None => {
            return Err(String::from_str("进程不存在"));
        },
    };
    if os_start == 0 {
        return Err(String::from_str("OS 返回 start_time=0，进程状态异常"));
    }
    if os_start != start_time {
        return Err(String::from_str("PID start_time 不匹配（可能已被 OS 复用）"));
    }
    Ok(())
}

/// How a requested notify channel is resolved.
#[derive(Debug)]
pub enum NotifyPlan {
    /// No notification (`none`, or an unknown channel).
    NoChannel,
    /// A plugin channel with the endpoint the client discovered.
    PluginWithEndpoint { name: String },
    /// A plugin channel whose endpoint the daemon must discover.
    PluginDiscover { name: String },
    /// Detect the channel automatically.
    AutoDetect,
}

/// Resolves a requested notify channel: `none` (any case) means none;
/// `plugin:<name>` uses the client's endpoint when given, else daemon-side
/// discovery; `auto` (any case) detects; anything else falls back to none.
pub fn notify_plan(notify: &str, has_endpoint: bool) -> (r: NotifyPlan)
    ensures
        eq_ignore_ascii_case_spec(notify@, "none"@) ==> r == NotifyPlan::NoChannel,
        !eq_ignore_ascii_case_spec(notify@, "none"@) && starts_with_spec(notify@, "plugin:"@) ==> (has_endpoint
            ==> (r matches NotifyPlan::PluginWithEndpoint { name } && name@ == notify@.subrange(7, notify@.len() as int))),
        !eq_ignore_ascii_case_spec(notify@, "none"@) && starts_with_spec(notify@, "plugin:"@) ==> (!has_endpoint
            ==> (r matches NotifyPlan::PluginDiscover { name } && name@ == notify@.subrange(7, notify@.len() as int))),
        !eq_ignore_ascii_case_spec(notify@, "none"@) && !starts_with_spec(notify@, "plugin:"@)
            && eq_ignore_ascii_case_spec(notify@, "auto"@) ==> r == NotifyPlan::AutoDetect,
        !eq_ignore_ascii_case_spec(notify@, "none"@) && !starts_with_spec(notify@, "plugin:"@)
            && !eq_ignore_ascii_case_spec(notify@, "auto"@) ==> r == NotifyPlan::NoChannel,
{
    proof {
        reveal_strlit("plugin:");
    }
    if crate::text::eq_ignore_ascii_case(notify, "none") {
        return NotifyPlan::NoChannel;
    }
    match crate::text::strip_prefix(notify, "plugin:") {
        Some(name) => {
            if has_endpoint {
                return NotifyPlan::PluginWithEndpoint { name };
            } else {
                return NotifyPlan::PluginDiscover { name };
            }
        },
        None => {},
    }
    if crate::text::eq_ignore_ascii_case(notify, "auto") {
        return NotifyPlan::AutoDetect;
    }
    NotifyPlan::NoChannel
}

/// What daemon-side endpoint discovery found for a plugin channel.
#[derive(Debug)]
pub enum DiscoverOutcome {
    /// The channel name is not a known plugin.
    UnknownChannel,
    /// An endpoint that is ready.
    Ready,
    /// An endpoint that is not ready, with the plugin's message.
    NotReady(String),
    /// Discovery found nothing.
    Empty,
    /// Discovery failed, with this message.
    Failed(String),
}

/// The join error for a discovery that found no usable endpoint.
pub fn discover_result(plugin_name: &str, outcome: &DiscoverOutcome) -> (r: Result<(), String>)
    ensures
        *outcome == DiscoverOutcome::Ready ==> r is Ok,
        *outcome == DiscoverOutcome::UnknownChannel ==> (r matches Err(m) && m@ == "plugin:"@ + plugin_name@ + " 通道无效"@),
        *outcome == DiscoverOutcome::Empty ==> (r matches Err(m) && m@ == "plugin:"@ + plugin_name@ + " discover 返回空"@),
        outcome matches DiscoverOutcome::NotReady(msg) ==> (r matches Err(m) && m@ == "plugin:"@ + plugin_name@
            + " discover 未就绪: "@ + msg@),
        outcome matches DiscoverOutcome::Failed(msg) ==> (r matches Err(m) && m@ == "plugin:"@ + plugin_name@
            + " discover 失败: "@ + msg@),
{
    let mut m = String::from_str("plugin:");
    m.append(plugin_name);
    match outcome {
        DiscoverOutcome::Ready => { return Ok(()) },
        DiscoverOutcome::UnknownChannel => {
            m.append(" 通道无效");
        },
        DiscoverOutcome::Empty => {
            m.append(" discover 返回空");
        },
        DiscoverOutcome::NotReady(msg) => {
            m.append(" discover 未就绪: ");
            m.append(msg.as_str());
        },
        DiscoverOutcome::Failed(msg) => {
            m.append(" discover 失败: ");
            m.append(msg.as_str());
        },
    }
    Err(m)
}

/// A mailbox as the cleanup sees it.
#[derive(Debug)]
pub struct MailboxRecord {
    pub name: String,
    pub address: String,
    pub left: bool,
}

/// A local session file as the cleanup sees it: its name and address.
#[derive(Debug)]
pub struct SessionRecord {
    pub name: String,
    pub address: String,
}

/// The address of the session file named `name`, if there is one.
pub open spec fn session_address(sessions: Seq<SessionRecord>, name: Seq<char>) -> Option<Seq<char>>
    decreases sessions.len(),
{
    if sessions.len() == 0 {
        None
    } else if sessions.last().name@ == name {
        Some(sessions.last().address@)
    } else {
        session_address(sessions.drop_last(), name)
    }
}

/// The last mailbox with the address, if any (addresses index mailboxes).
pub open spec fn mailbox_at(mailboxes: Seq<MailboxRecord>, address: Seq<char>) -> Option<MailboxRecord>
    decreases mailboxes.len(),
{
    if mailboxes.len() == 0 {
        None
    } else if mailboxes.last().address@ == address {
        Some(mailboxes.last())
    } else {
        mailbox_at(mailboxes.drop_last(), address)
    }
}

/// A mailbox is stale when it is active but no session file of its name
/// holds its address.
pub open spec fn is_stale_mailbox(mb: MailboxRecord, sessions: Seq<SessionRecord>) -> bool {
    !mb.left && session_address(sessions, mb.name@) != Some(mb.address@)
}

/// A session file is stale when no active mailbox of its name has its
/// address.
pub open spec fn is_stale_session(s: SessionRecord, mailboxes: Seq<MailboxRecord>) -> bool {
    !(mailbox_at(mailboxes, s.address@) matches Some(mb) && !mb.left && mb.name@ == s.name@)
}

/// A cleanup item as the specification sees it: name, address, reason.
pub open spec fn item_view(i: CleanupItem) -> (Seq<char>, Seq<char>, Seq<char>) {
    (i.name@, i.address@, i.reason@)
}

/// The stale mailboxes, in mailbox order.
pub open spec fn spec_stale_mailboxes(mailboxes: Seq<MailboxRecord>, sessions: Seq<SessionRecord>) -> Seq<
    (Seq<char>, Seq<char>, Seq<char>),
>
    decreases mailboxes.len(),
{
    if mailboxes.len() == 0 {
        Seq::empty()
    } else {
        spec_stale_mailboxes(mailboxes.drop_last(), sessions) + if is_stale_mailbox(mailboxes.last(), sessions) {
            seq![(mailboxes.last().name@, mailboxes.last().address@, "stale_mailbox"@)]
        } else {
            Seq::empty()
        }
    }
}

/// The stale session files, in session order.
pub open spec fn spec_stale_sessions(sessions: Seq<SessionRecord>, mailboxes: Seq<MailboxRecord>) -> Seq<
    (Seq<char>, Seq<char>, Seq<char>),
>
    decreases sessions.len(),
{
    if sessions.len() == 0 {
        Seq::empty()
    } else {
        spec_stale_sessions(sessions.drop_last(), mailboxes) + if is_stale_session(sessions.last(), mailboxes) {
            seq![(sessions.last().name@, sessions.last().address@, "stale_session"@)]
        } else {
            Seq::empty()
        }
    }
}

fn find_session_address(sessions: &Vec<SessionRecord>, name: &str) -> (r: Option<String>)
    ensures
        crate::json::opt_str_view(r) == session_address(sessions@, name@),
{
    let mut i: usize = sessions.len();
    assert(sessions@.take(i as int) =~= sessions@);
    while i > 0
        invariant
            i <= sessions@.len(),
            session_address(sessions@, name@) == session_address(sessions@.take(i as int), name@),
        decreases i,
    {
        assert(sessions@.take(i as int).drop_last() =~= sessions@.take(i - 1));
        if str_eq(sessions[i - 1].name.as_str(), name) {
            return Some(String::from_str(sessions[i - 1].address.as_str()));
        }
        i = i - 1;
    }
    assert(sessions@.take(0) =~= Seq::<SessionRecord>::empty());
    None
}

fn find_mailbox(mailboxes: &Vec<MailboxRecord>, address: &str) -> (r: Option<usize>)
    ensures
        r matches Some(i) ==> i < mailboxes@.len() && mailbox_at(mailboxes@, address@) == Some(mailboxes@[i as int]),
        r is None ==> mailbox_at(mailboxes@, address@) is None,
{
    let mut i: usize = mailboxes.len();
    assert(mailboxes@.take(i as int) =~= mailboxes@);
    while i > 0
        invariant
            i <= mailboxes@.len(),
            mailbox_at(mailboxes@, address@) == mailbox_at(mailboxes@.take(i as int), address@),
        decreases i,
    {
        assert(mailboxes@.take(i as int).drop_last() =~= mailboxes@.take(i - 1));
        if str_eq(mailboxes[i - 1].address.as_str(), address) {
            return Some(i - 1);
        }
        i = i - 1;
    }
    assert(mailboxes@.take(0) =~= Seq::<MailboxRecord>::empty());
    None
}

fn item(name: &str, address: &str, reason: &str) -> (r: CleanupItem)
    ensures
        item_view(r) == (name@, address@, reason@),
{
    CleanupItem { name: String::from_str(name), address: String::from_str(address), reason: String::from_str(reason) }
}

fn stale_mailbox_items(mailboxes: &Vec<MailboxRecord>, sessions: &Vec<SessionRecord>) -> (r: Vec<CleanupItem>)
    ensures
        r@.map_values(|i: CleanupItem| item_view(i)) == spec_stale_mailboxes(mailboxes@, sessions@),
{
    let mut out: Vec<CleanupItem> = Vec::new();
    let mut i: usize = 0;
    assert(mailboxes@.take(0) =~= Seq::<MailboxRecord>::empty());
    while i < mailboxes.len()
        invariant
            i <= mailboxes@.len(),
            out@.map_values(|i: CleanupItem| item_view(i)) == spec_stale_mailboxes(mailboxes@.take(i as int), sessions@),
        decreases mailboxes@.len() - i,
    {
        assert(mailboxes@.take(i + 1).drop_last() =~= mailboxes@.take(i as int));
        let ghost before = out@.map_values(|i: CleanupItem| item_view(i));
        let mb = &mailboxes[i];
        let stale = !mb.left && match find_session_address(sessions, mb.name.as_str()) {
            Some(a) => !str_eq(a.as_str(), mb.address.as_str()),
            None => true,
        };
        if stale {
            out.push(item(mb.name.as_str(), mb.address.as_str(), "stale_mailbox"));
            assert(out@.map_values(|i: CleanupItem| item_view(i)) =~= before + seq![
                (mailboxes@[i as int].name@, mailboxes@[i as int].address@, "stale_mailbox"@),
            ]);
        } else {
            assert(out@.map_values(|i: CleanupItem| item_view(i)) =~= before + Seq::<
                (Seq<char>, Seq<char>, Seq<char>),
            >::empty());
        }
        i = i + 1;
    }
    assert(mailboxes@.take(mailboxes@.len() as int) =~= mailboxes@);
    out
}

fn stale_session_items(mailboxes: &Vec<MailboxRecord>, sessions: &Vec<SessionRecord>) -> (r: Vec<CleanupItem>)
    ensures
        r@.map_values(|i: CleanupItem| item_view(i)) == spec_stale_sessions(sessions@, mailboxes@),
{
    let mut out: Vec<CleanupItem> = Vec::new();
    let mut j: usize = 0;
    assert(sessions@.take(0) =~= Seq::<SessionRecord>::empty());
    while j < sessions.len()
        invariant
            j <= sessions@.len(),
            out@.map_values(|i: CleanupItem| item_view(i)) == spec_stale_sessions(sessions@.take(j as int), mailboxes@),
        decreases sessions@.len() - j,
    {
        assert(sessions@.take(j + 1).drop_last() =~= sessions@.take(j as int));
        let ghost before = out@.map_values(|i: CleanupItem| item_view(i));
        let s = &sessions[j];
        let live = match find_mailbox(mailboxes, s.address.as_str()) {
            Some(k) => !mailboxes[k].left && str_eq(mailboxes[k].name.as_str(), s.name.as_str()),
            None => false,
        };
        if !live {
            out.push(item(s.name.as_str(), s.address.as_str(), "stale_session"));
            assert(out@.map_values(|i: CleanupItem| item_view(i)) =~= before + seq![
                (sessions@[j as int].name@, sessions@[j as int].address@, "stale_session"@),
            ]);
        } else {
            assert(out@.map_values(|i: CleanupItem| item_view(i)) =~= before + Seq::<
                (Seq<char>, Seq<char>, Seq<char>),
            >::empty());
        }
        j = j + 1;
    }
    assert(sessions@.take(sessions@.len() as int) =~= sessions@);
    out
}

/// The stale identities of a workspace: first the stale mailboxes (active in
/// the database, but without a session file of their name holding their
/// address), then the stale session files (without an active mailbox of
/// their name at their address).
pub fn stale_identities(mailboxes: &Vec<MailboxRecord>, sessions: &Vec<SessionRecord>) -> (r: Vec<CleanupItem>)
    ensures
        r@.map_values(|i: CleanupItem| item_view(i)) == spec_stale_mailboxes(mailboxes@, sessions@)
            + spec_stale_sessions(sessions@, mailboxes@),
{
    let mut out = stale_mailbox_items(mailboxes, sessions);
    let mut rest = stale_session_items(mailboxes, sessions);
    let ghost a = out@;
    let ghost b = rest@;
    out.append(&mut rest);
    assert(out@.map_values(|i: CleanupItem| item_view(i)) =~= a.map_values(|i: CleanupItem| item_view(i))
        + b.map_values(|i: CleanupItem| item_view(i)));
    out
}

/// A pid anchor that the cleanup removed.
#[derive(Debug)]
pub struct PidAnchor {
    pub pid: u32,
    pub name: String,
}

/// The cleanup items of removed pid anchors: named `<name> (pid <pid>)`,
/// with the address of the session file of that name (empty if none).
pub open spec fn spec_anchor_items(anchors: Seq<PidAnchor>, sessions: Seq<SessionRecord>, reason: Seq<char>) -> Seq<
    (Seq<char>, Seq<char>, Seq<char>),
>
    decreases anchors.len(),
{
    if anchors.len() == 0 {
        Seq::empty()
    } else {
        let a = anchors.last();
        spec_anchor_items(anchors.drop_last(), sessions, reason) + seq![
            (
                a.name@ + " (pid "@ + decimal(a.pid as nat) + ")"@,
                crate::sessions::or_empty(session_address(sessions, a.name@)),
                reason,
            ),
        ]
    }
}

/// Reports removed pid anchors (see `spec_anchor_items`).
pub fn anchor_items(anchors: &Vec<PidAnchor>, sessions: &Vec<SessionRecord>, reason: &str) -> (r: Vec<CleanupItem>)
    ensures
        r@.map_values(|i: CleanupItem| item_view(i)) == spec_anchor_items(anchors@, sessions@, reason@),
{
    let mut out: Vec<CleanupItem> = Vec::new();
    let mut i: usize = 0;
    assert(anchors@.take(0) =~= Seq::<PidAnchor>::empty());
    while i < anchors.len()
        invariant
            i <= anchors@.len(),
            out@.map_values(|i: CleanupItem| item_view(i)) == spec_anchor_items(anchors@.take(i as int), sessions@, reason@),
        decreases anchors@.len() - i,
    {
        assert(anchors@.take(i + 1).drop_last() =~= anchors@.take(i as int));
        let ghost before = out@.map_values(|i: CleanupItem| item_view(i));
        let a = &anchors[i];
        let mut name = String::from_str(a.name.as_str());
        name.append(" (pid ");
        let p = crate::decimal::u32_to_decimal(a.pid);
        name.append(p.as_str());
        name.append(")");
        let address = match find_session_address(sessions, a.name.as_str()) {
            Some(addr) => addr,
            None => String::new(),
        };
        out.push(CleanupItem { name, address, reason: String::from_str(reason) });
        assert(out@.map_values(|i: CleanupItem| item_view(i)) =~= before + seq![
            item_view(out@[out@.len() - 1]),
        ]);
        i = i + 1;
    }
    assert(anchors@.take(anchors@.len() as int) =~= anchors@);
    out
}

/// The pid anchors whose name has no session file: they point at nothing.
pub open spec fn spec_stale_anchors(anchors: Seq<PidAnchor>, sessions: Seq<SessionRecord>) -> Seq<PidAnchor>
    decreases anchors.len(),
{
    if anchors.len() == 0 {
        Seq::empty()
    } else {
        spec_stale_anchors(anchors.drop_last(), sessions) + if session_address(sessions, anchors.last().name@) is None {
            seq![anchors.last()]
        } else {
            Seq::<PidAnchor>::empty()
        }
    }
}

/// What a cleanup of a workspace reports and removes. The report lists the
/// stale mailboxes, then the stale session files, then the stale pid anchors.
/// A dry run removes nothing. An executed cleanup marks the stale mailboxes
/// left, removes the stale session files and the stale pid anchors, and also
/// checks the remaining anchors for dead processes.
#[derive(Debug)]
pub struct CleanupPlan {
    pub items: Vec<CleanupItem>,
    pub mark_left: Vec<String>,
    pub remove_sessions: Vec<String>,
    pub remove_anchor_pids: Vec<u32>,
    pub check_dead_anchors: bool,
}

fn addresses_of(items: &Vec<CleanupItem>) -> (r: Vec<String>)
    ensures
        crate::text::string_views(r@) == items@.map_values(|i: CleanupItem| i.address@),
{
    let mut out: Vec<String> = Vec::new();
    let mut i: usize = 0;
    while i < items.len()
        invariant
            i <= items@.len(),
            crate::text::string_views(out@) == items@.take(i as int).map_values(|i: CleanupItem| i.address@),
        decreases items@.len() - i,
    {
        let ghost before = out@;
        out.push(String::from_str(items[i].address.as_str()));
        assert(items@.take(i + 1) =~= items@.take(i as int).push(items@[i as int]));
        assert(crate::text::string_views(out@) =~= crate::text::string_views(before).push(items@[i as int].address@));
        assert(crate::text::string_views(out@) =~= items@.take(i + 1).map_values(|i: CleanupItem| i.address@));
        i = i + 1;
    }
    assert(items@.take(items@.len() as int) =~= items@);
    out
}

fn names_of(items: &Vec<CleanupItem>) -> (r: Vec<String>)
    ensures
        crate::text::string_views(r@) == items@.map_values(|i: CleanupItem| i.name@),
{
    let mut out: Vec<String> = Vec::new();
    let mut i: usize = 0;
    while i < items.len()
        invariant
            i <= items@.len(),
            crate::text::string_views(out@) == items@.take(i as int).map_values(|i: CleanupItem| i.name@),
        decreases items@.len() - i,
    {
        let ghost before = out@;
        out.push(String::from_str(items[i].name.as_str()));
        assert(items@.take(i + 1) =~= items@.take(i as int).push(items@[i as int]));
        assert(crate::text::string_views(out@) =~= crate::text::string_views(before).push(items@[i as int].name@));
        assert(crate::text::string_views(out@) =~= items@.take(i + 1).map_values(|i: CleanupItem| i.name@));
        i = i + 1;
    }
    assert(items@.take(items@.len() as int) =~= items@);
    out
}

fn stale_anchor_list(anchors: Vec<PidAnchor>, sessions: &Vec<SessionRecord>) -> (r: Vec<PidAnchor>)
    ensures
        r@ == spec_stale_anchors(anchors@, sessions@),
{
    let ghost orig = anchors@;
    let mut rest = anchors;
    let mut kept: Vec<PidAnchor> = Vec::new();
    let mut i: usize = 0;
    assert(orig.take(0) =~= Seq::<PidAnchor>::empty());
    assert(orig.skip(0) =~= orig);
    assert(orig.len() == rest.len());
    while rest.len() > 0
        invariant
            i <= orig.len(),
            orig.len() <= usize::MAX,
            rest@ == orig.skip(i as int),
            kept@ == spec_stale_anchors(orig.take(i as int), sessions@),
        decreases rest@.len(),
    {
        let a = rest.remove(0);
        assert(a == orig[i as int]);
        assert(orig.take(i + 1).drop_last() =~= orig.take(i as int));
        assert(orig.take(i + 1).last() == orig[i as int]);
        assert(rest@ =~= orig.skip(i + 1));
        assert(i < orig.len());
        let ghost before = kept@;
        let named = find_session_address(sessions, a.name.as_str()).is_some();
        if !named {
            kept.push(a);
            assert(kept@ =~= before + seq![orig[i as int]]);
        } else {
            assert(before + Seq::<PidAnchor>::empty() =~= before);
        }
        i = i + 1;
    }
    assert(orig.take(i as int) =~= orig);
    kept
}

fn pids_of(anchors: &Vec<PidAnchor>) -> (r: Vec<u32>)
    ensures
        r@ == anchors@.map_values(|a: PidAnchor| a.pid),
{
    let mut out: Vec<u32> = Vec::new();
    let mut i: usize = 0;
    while i < anchors.len()
        invariant
            i <= anchors@.len(),
            out@ == anchors@.take(i as int).map_values(|a: PidAnchor| a.pid),
        decreases anchors@.len() - i,
    {
        out.push(anchors[i].pid);
        assert(anchors@.take(i + 1) =~= anchors@.take(i as int).push(anchors@[i as int]));
        assert(out@ =~= anchors@.take(i + 1).map_values(|a: PidAnchor| a.pid));
        i = i + 1;
    }
    assert(anchors@.take(anchors@.len() as int) =~= anchors@);
    out
}

/// Plans the cleanup of a workspace (see `CleanupPlan`) from its mailboxes,
/// its session files and its pid anchors.
pub fn cleanup_plan(
    execute: bool,
    mailboxes: &Vec<MailboxRecord>,
    sessions: &Vec<SessionRecord>,
    anchors: Vec<PidAnchor>,
) -> (r: CleanupPlan)
    ensures
        r.items@.map_values(|i: CleanupItem| item_view(i)) == spec_stale_mailboxes(mailboxes@, sessions@)
            + spec_stale_sessions(sessions@, mailboxes@) + spec_anchor_items(
            spec_stale_anchors(anchors@, sessions@),
            sessions@,
            "stale_pid_anchor"@,
        ),
        !execute ==> r.mark_left@.len() == 0 && r.remove_sessions@.len() == 0 && r.remove_anchor_pids@.len() == 0
            && !r.check_dead_anchors,
        execute ==> crate::text::string_views(r.mark_left@) == spec_stale_mailboxes(mailboxes@, sessions@).map_values(
            |t: (Seq<char>, Seq<char>, Seq<char>)| t.1,
        ),
        execute ==> crate::text::string_views(r.remove_sessions@) == spec_stale_sessions(sessions@, mailboxes@).map_values(
            |t: (Seq<char>, Seq<char>, Seq<char>)| t.0,
        ),
        execute ==> r.remove_anchor_pids@ == spec_stale_anchors(anchors@, sessions@).map_values(|a: PidAnchor| a.pid),
        execute ==> r.check_dead_anchors,
{
    let mut items = stale_mailbox_items(mailboxes, sessions);
    let mut session_items = stale_session_items(mailboxes, sessions);
    let stale = stale_anchor_list(anchors, sessions);
    let mut anchor_list = anchor_items(&stale, sessions, "stale_pid_anchor");
    let (mark_left, remove_sessions, remove_anchor_pids) = if execute {
        (addresses_of(&items), names_of(&session_items), pids_of(&stale))
    } else {
        (Vec::new(), Vec::new(), Vec::new())
    };
    let ghost a = items@;
    let ghost b = session_items@;
    let ghost c = anchor_list@;
    assert(a.map_values(|i: CleanupItem| i.address@) =~= a.map_values(|i: CleanupItem| item_view(i)).map_values(
        |t: (Seq<char>, Seq<char>, Seq<char>)| t.1,
    ));
    assert(b.map_values(|i: CleanupItem| i.name@) =~= b.map_values(|i: CleanupItem| item_view(i)).map_values(
        |t: (Seq<char>, Seq<char>, Seq<char>)| t.0,
    ));
    items.append(&mut session_items);
    items.append(&mut anchor_list);
    assert(items@.map_values(|i: CleanupItem| item_view(i)) =~= a.map_values(|i: CleanupItem| item_view(i))
        + b.map_values(|i: CleanupItem| item_view(i)) + c.map_values(|i: CleanupItem| item_view(i)));
    CleanupPlan { items, mark_left, remove_sessions, remove_anchor_pids, check_dead_anchors: execute }
}

/// The cleanup report: a dry run unless `execute`; nothing is skipped.
pub fn cleanup_result(execute: bool, removed: Vec<CleanupItem>) -> (r: ServerMsg)
    ensures
        r matches ServerMsg::CleanupResult { dry_run, removed: rm, skipped } && dry_run == !execute && rm == removed
            && skipped@.len() == 0,
{
    ServerMsg::CleanupResult { dry_run: !execute, removed, skipped: Vec::new() }
}

/// The identity a leave by address ends, from what looking the address up
/// found (the mailbox's name): the daemon's own workspace holds its files.
pub fn leave_by_address(address: String, found: Result<Option<String>, String>, daemon_root: &str) -> (r: Result<(String, String, String), ServerMsg>)
    ensures
        found matches Ok(Some(n)) ==> (r matches Ok((a, name, root)) && a == address && name == n && root@ == daemon_root@),
        found matches Ok(None) ==> (r matches Err(e) && is_error(e, "leave_failed"@, "address 不存在或已离开: "@ + address@)),
        found matches Err(m) ==> (r matches Err(e) && is_error(e, "leave_failed"@, m@)),
{
    match found {
        Ok(Some(n)) => Ok((address, n, String::from_str(daemon_root))),
        Ok(None) => {
            let mut m = String::from_str("address 不存在或已离开: ");
            m.append(address.as_str());
            Err(err_owned("leave_failed", m))
        },
        Err(m) => Err(err_owned("leave_failed", m)),
    }
}

/// What leaving an identity changes: the mailbox at `address` is marked
/// left, the session file of `name` under `workspace_root` is removed only
/// on a purge, and the pid anchors of `name` are removed. No other mailbox,
/// session file or anchor is touched.
#[derive(Debug)]
pub struct LeavePlan {
    pub mark_left: String,
    pub workspace_root: String,
    pub name: String,
    pub remove_session_file: bool,
    pub remove_anchors_of: String,
}

/// Plans leaving the identity `(address, name)` of `workspace_root`.
pub fn leave_plan(address: String, name: String, workspace_root: String, purge: bool) -> (r: LeavePlan)
    ensures
        r.mark_left == address,
        r.workspace_root == workspace_root,
        r.name == name,
        r.remove_session_file == purge,
        r.remove_anchors_of@ == name@,
{
    let anchors_of = String::from_str(name.as_str());
    LeavePlan { mark_left: address, workspace_root, name, remove_session_file: purge, remove_anchors_of: anchors_of }
}

/// The reply to leaving: the session file is reported removed only when a
/// purge removed it.
pub fn leave_reply(address: String, name: String, purge: bool, session_removed: bool) -> (r: ServerMsg)
    ensures
        r == (ServerMsg::IdentityLeft { address, name, removed_session: purge && session_removed, purge }),
{
    ServerMsg::IdentityLeft { address, name, removed_session: purge && session_removed, purge }
}

/// A default agent name: `agent-` and eight lowercase hexadecimal digits.
pub open spec fn is_default_agent_name(n: Seq<char>) -> bool {
    &&& n.len() == 14
    &&& n.subrange(0, 6) == "agent-"@
    &&& forall|i: int| 6 <= i < 14 ==> is_lower_hex(#[trigger] n[i])
}

/// The name a joining agent gets: the requested one, else `agent-` and a
/// short random id (the first group of a fresh UUID).
pub fn join_name(requested: Option<String>) -> (r: String)
    ensures
        requested matches Some(n) ==> r == n,
        requested is None ==> is_default_agent_name(r@),
{
    match requested {
        Some(n) => n,
        None => {
            let mut s = String::from_str("agent-");
            let id = short_id();
            s.append(id.as_str());
            proof {
                reveal_strlit("agent-");
                assert(s@.subrange(0, 6) =~= "agent-"@);
                assert forall|i: int| 6 <= i < 14 implies is_lower_hex(#[trigger] s@[i]) by {
                    assert(s@[i] == id@[i - 6]);
                }
            }
            s
        },
    }
}

/// What a join does with the agent's mailbox.
#[derive(Debug)]
pub enum JoinAction {
    /// The agent's session file exists: its mailbox at this address is
    /// revived and updated.
    Revive { address: String },
    /// No session file: a new mailbox is created.
    Create,
}

/// The address a join revives (`None`: a mailbox is created).
pub open spec fn join_action_view(a: JoinAction) -> Option<Seq<char>> {
    match a {
        JoinAction::Revive { address } => Some(address@),
        JoinAction::Create => None,
    }
}

/// The intro a join records: the requested one, else the existing session
/// file's, else empty.
pub open spec fn spec_join_intro(requested: Option<Seq<char>>, existing: Option<Seq<char>>) -> Seq<char> {
    match requested {
        Some(i) => i,
        None => crate::sessions::or_empty(existing),
    }
}

/// Chooses what a join does with the mailbox: the mailbox at the address of
/// the agent's existing session file is revived; without one a mailbox is
/// created.
pub fn join_action(existing_address: Option<String>) -> (r: JoinAction)
    ensures
        join_action_view(r) == crate::json::opt_str_view(existing_address),
        existing_address matches Some(a) ==> r == (JoinAction::Revive { address: a }),
{
    match existing_address {
        Some(a) => JoinAction::Revive { address: a },
        None => JoinAction::Create,
    }
}

/// The intro a join records: the requested one, else the one of the agent's
/// existing session file, else empty.
pub fn join_intro(requested: Option<String>, existing: Option<String>) -> (r: String)
    ensures
        r@ == spec_join_intro(crate::json::opt_str_view(requested), crate::json::opt_str_view(existing)),
        requested matches Some(i) ==> r == i,
{
    match requested {
        Some(i) => i,
        None => match existing {
            Some(e) => e,
            None => String::new(),
        },
    }
}

/// What a join finds in the agent's existing session file.
#[derive(Debug)]
pub struct SessionFileView {
    pub address: String,
    pub intro: String,
    pub created_at: String,
}

/// What a join carries out: the mailbox action, the intro and notify channel
/// recorded, and the creation time kept from an existing session file
/// (`None`: the time of this join).
#[derive(Debug)]
pub struct JoinPlan {
    pub name: String,
    pub action: JoinAction,
    pub intro: String,
    pub notify_channel: String,
    pub notify_ready: bool,
    pub created_at: Option<String>,
}

/// A session file as the specification sees it: address, intro, creation time.
pub open spec fn session_file_view(f: SessionFileView) -> (Seq<char>, Seq<char>, Seq<char>) {
    (f.address@, f.intro@, f.created_at@)
}

/// What a join keeps and records: the revived address (`None`: create), the
/// intro, and the kept creation time (`None`: now).
pub open spec fn spec_join_outcome(
    existing: Option<(Seq<char>, Seq<char>, Seq<char>)>,
    intro: Option<Seq<char>>,
) -> (Option<Seq<char>>, Seq<char>, Option<Seq<char>>) {
    match existing {
        Some((address, old_intro, created_at)) => (
            Some(address),
            spec_join_intro(intro, Some(old_intro)),
            Some(created_at),
        ),
        None => (None, spec_join_intro(intro, None), None),
    }
}

/// The view of a join plan: as in `spec_join_outcome`.
pub open spec fn join_plan_view(p: JoinPlan) -> (Option<Seq<char>>, Seq<char>, Option<Seq<char>>) {
    (join_action_view(p.action), p.intro@, crate::json::opt_str_view(p.created_at))
}

/// Plans a join once the pid anchor was checked (`pid_check`), the agent's
/// name chosen, its session file read (`existing`) and the requested notify
/// channel resolved (`notify`). A failed pid check is an authentication
/// failure; a notify channel that cannot be resolved fails the join.
pub fn plan_join(
    pid_check: Result<(), String>,
    name: String,
    intro: Option<String>,
    existing: Option<SessionFileView>,
    notify: Result<String, String>,
) -> (r: Result<JoinPlan, ServerMsg>)
    ensures
        pid_check matches Err(m) ==> (r matches Err(e) && is_error(e, "auth_failed"@, m@)),
        pid_check is Ok ==> (notify matches Err(m) ==> (r matches Err(e) && is_error(e, "join_failed"@, m@))),
        r is Ok <==> (pid_check is Ok && notify is Ok),
        r matches Ok(p) ==> {
            &&& p.name == name
            &&& join_plan_view(p) == spec_join_outcome(
                match existing {
                    Some(f) => Some(session_file_view(f)),
                    None => None,
                },
                crate::json::opt_str_view(intro),
            )
            &&& p.notify_channel == notify.unwrap()
            &&& p.notify_ready == spec_notify_ready(notify.unwrap()@)
        },
{
    match pid_check {
        Err(m) => {
            return Err(crate::proto::auth_error(m));
        },
        Ok(()) => {},
    }
    let channel = match notify {
        Ok(c) => c,
        Err(m) => {
            return Err(err_owned("join_failed", m));
        },
    };
    let ready = notify_ready(channel.as_str());
    match existing {
        Some(f) => {
            let intro = join_intro(intro, Some(f.intro));
            Ok(JoinPlan {
                name,
                action: JoinAction::Revive { address: f.address },
                intro,
                notify_channel: channel,
                notify_ready: ready,
                created_at: Some(f.created_at),
            })
        },
        None => {
            let intro = join_intro(intro, None);
            Ok(JoinPlan {
                name,
                action: JoinAction::Create,
                intro,
                notify_channel: channel,
                notify_ready: ready,
                created_at: None,
            })
        },
    }
}

/// Joining is idempotent: after a join wrote the agent's session file with
/// an address, an intro and a creation time, joining again revives the
/// mailbox at that same address and keeps the creation time; the intro is
/// the new one if given, else it stays.
pub proof fn lemma_rejoin_keeps_identity(
    address: Seq<char>,
    intro: Seq<char>,
    created_at: Seq<char>,
    new_intro: Option<Seq<char>>,
)
    ensures
        spec_join_outcome(Some((address, intro, created_at)), new_intro).0 == Some(address),
        spec_join_outcome(Some((address, intro, created_at)), new_intro).2 == Some(created_at),
        new_intro is None ==> spec_join_outcome(Some((address, intro, created_at)), new_intro).1 == intro,
        new_intro matches Some(i) ==> spec_join_outcome(Some((address, intro, created_at)), new_intro).1 == i,
{
}

/// The identity reply of a join.
pub fn identity_reply(
    address: String,
    name: String,
    intro: String,
    notify_channel: String,
    notify_ready: bool,
    workspace_root: String,
) -> (r: ServerMsg)
    ensures
        r == (ServerMsg::Identity {
            address,
            name,
            intro,
            notify_channel,
            notify_ready,
            workspace_root,
            notify_diagnostics: r->Identity_notify_diagnostics,
        }),
        r->Identity_notify_diagnostics@.len() == 0,
{
    ServerMsg::Identity {
        address,
        name,
        intro,
        notify_channel,
        notify_ready,
        workspace_root,
        notify_diagnostics: Vec::new(),
    }
}

/// A hexadecimal digit, in either case.
pub open spec fn is_hex_digit(c: char) -> bool {
    ('0' <= c && c <= '9') || ('a' <= c && c <= 'f') || ('A' <= c && c <= 'F')
}

/// 36 characters: `-` at positions 8, 13, 18 and 23, hex digits elsewhere.
pub open spec fn is_hyphenated_form(s: Seq<char>) -> bool {
    &&& s.len() == 36
    &&& forall|i: int|
        0 <= i < 36 ==> if i == 8 || i == 13 || i == 18 || i == 23 {
            #[trigger] s[i] == '-'
        } else {
            is_hex_digit(s[i])
        }
}

/// The texts that `uuid::Uuid::try_parse` accepts: 32 hex digits; the
/// hyphenated form; the hyphenated form in braces; or the hyphenated form
/// after a `urn:uuid:` prefix in any ASCII case.
pub open spec fn uuid_text_parses(s: Seq<char>) -> bool {
    ||| (s.len() == 32 && forall|i: int| 0 <= i < 32 ==> is_hex_digit(#[trigger] s[i]))
    ||| is_hyphenated_form(s)
    ||| (s.len() == 38 && s[0] == '{' && s[37] == '}' && is_hyphenated_form(s.subrange(1, 37)))
    ||| (s.len() == 45 && eq_ignore_ascii_case_spec(s.subrange(0, 9), "urn:uuid:"@) && is_hyphenated_form(
        s.subrange(9, 45),
    ))
}

/// Calls `uuid::Uuid::try_parse`, which succeeds exactly on the texts of
/// `uuid_text_parses`.
#[verifier::external_body]
fn uuid_try_parse_ok(s: &str) -> (r: bool)
    ensures
        r == uuid_text_parses(s@),
{
    uuid::Uuid::try_parse(s).is_ok()
}

/// Whether a target names a mailbox by UUID address rather than by name.
pub fn is_uuid(s: &str) -> (r: bool)
    ensures
        r == uuid_text_parses(s@),
{
    uuid_try_parse_ok(s)
}

/// A lowercase hexadecimal digit.
pub open spec fn is_lower_hex(c: char) -> bool {
    ('0' <= c && c <= '9') || ('a' <= c && c <= 'f')
}

/// The hyphenated lowercase text form of a UUID: 36 characters, `-` at
/// positions 8, 13, 18 and 23, lowercase hex digits elsewhere.
pub open spec fn is_hyphenated_uuid_text(s: Seq<char>) -> bool {
    &&& s.len() == 36
    &&& forall|i: int|
        0 <= i < 36 ==> if i == 8 || i == 13 || i == 18 || i == 23 {
            #[trigger] s[i] == '-'
        } else {
            is_lower_hex(s[i])
        }
}

/// Calls `uuid::Uuid::new_v4()` and renders it with `to_string`, which
/// writes the hyphenated lowercase form. Which UUID comes out is random and
/// not stated.
#[verifier::external_body]
fn new_uuid_text() -> (r: String)
    ensures
        is_hyphenated_uuid_text(r@),
{
    uuid::Uuid::new_v4().to_string()
}

/// A short random identifier: the first group of a fresh UUID, eight
/// lowercase hexadecimal digits.
pub fn short_id() -> (r: String)
    ensures
        r@.len() == 8,
        forall|i: int| 0 <= i < 8 ==> is_lower_hex(#[trigger] r@[i]),
{
    let u = new_uuid_text();
    proof {
        let t = u@;
        assert forall|j: int| 0 <= j < 8 implies t[j] != '-' by {
            assert(is_lower_hex(t[j]));
        }
        assert(t[8] == '-');
        lemma_before_first(t, 8);
    }
    first_segment(u.as_str())
}

/// The part of `s` before its first `-` (all of `s` without one).
pub fn first_segment(s: &str) -> (r: String)
    ensures
        r@ == before_first(s@, '-'),
{
    let n = s.unicode_len();
    let mut i: usize = 0;
    while i < n && s.get_char(i) != '-'
        invariant
            n == s@.len(),
            i <= n,
            forall|j: int| 0 <= j < i ==> s@[j] != '-',
        decreases n - i,
    {
        i = i + 1;
    }
    proof {
        lemma_before_first(s@, i as int);
    }
    String::from_str(s.substring_char(0, i))
}

proof fn lemma_before_first(s: Seq<char>, i: int)
    requires
        0 <= i <= s.len(),
        forall|j: int| 0 <= j < i ==> s[j] != '-',
        i == s.len() || s[i] == '-',
    ensures
        before_first(s, '-') == s.subrange(0, i),
    decreases s.len(),
{
    if s.len() > 0 && i > 0 {
        lemma_before_first(s.drop_first(), i - 1);
        assert(s.subrange(0, i) =~= seq![s[0]] + s.drop_first().subrange(0, i - 1));
    } else if s.len() > 0 {
        assert(s.subrange(0, 0) =~= Seq::<char>::empty());
    } else {
        assert(s.subrange(0, 0) =~= s);
    }
}

} // verus!
