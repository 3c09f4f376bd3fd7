//! The inbox to-do view: which deliveries a filter selects, how a message's
//! body is presented, how it is ranked, and which actions it offers.

use vstd::prelude::*;
use crate::text::{str_eq, truncate_chars_spec};
use crate::mem::{SqlQuery, SqlParam, ParamView, params_view};

verus! {

/// Who sent an inbox item.
#[derive(Debug)]
pub struct InboxSender {
    pub id: String,
    pub name: String,
    pub kind: String,
    pub intro: String,
}

/// How an inbox item's body is shown.
#[derive(Debug)]
pub struct InboxMessageContent {
    pub mode: String,
    pub body: String,
    pub truncated: bool,
    pub size: usize,
}

/// An attachment of an inbox item.
#[derive(Debug)]
pub struct InboxAttachment {
    pub id: String,
    pub role: String,
    pub filename: String,
    pub content_type: String,
    pub size: usize,
}

/// The SQL condition that an inbox filter adds.
pub open spec fn spec_filter_clause(filter: Option<Seq<char>>) -> Seq<char> {
    match filter {
        Some(f) => if f == "unread"@ {
            "AND mr.status IN ('pending', 'delivered')"@
        } else if f == "pending"@ {
            "AND mr.status = 'pending'"@
        } else if f == "action_required"@ {
            "AND m.content_type IN ('approval_request', 'question', 'task') AND mr.status != 'done'"@
        } else {
            "AND mr.status != 'done'"@
        },
        None => "AND mr.status != 'done'"@,
    }
}

/// The SQL condition of an inbox filter: `unread` (pending or delivered),
/// `pending`, `action_required` (approvals, questions and tasks not done);
/// `all`, none or any other value select every delivery not done.
pub fn filter_clause(filter: Option<&str>) -> (r: &'static str)
    ensures
        r@ == spec_filter_clause(match filter {
            Some(f) => Some(f@),
            None => None,
        }),
{
    match filter {
        Some(f) => {
            if str_eq(f, "unread") {
                "AND mr.status IN ('pending', 'delivered')"
            } else if str_eq(f, "pending") {
                "AND mr.status = 'pending'"
            } else if str_eq(f, "action_required") {
                "AND m.content_type IN ('approval_request', 'question', 'task') AND mr.status != 'done'"
            } else {
                "AND mr.status != 'done'"
            }
        },
        None => "AND mr.status != 'done'",
    }
}

/// The columns and joins of an inbox listing, up to the filter.
pub open spec fn inbox_select() -> Seq<char> {
    "SELECT mr.message_id, mr.status, mr.delivered_at, mr.read_at, mr.done_at, mr.read_by_session_id, mr.done_by_session_id, m.sender_id, p2.name as sender_name, p2.type as sender_type, p2.intro as sender_intro, m.body, m.content_type, m.metadata FROM message_recipients mr JOIN messages m ON mr.message_id = m.id JOIN participants p2 ON m.sender_id = p2.id WHERE mr.recipient_id = ? "@
}

/// The order of an inbox listing: items that need an action first, then
/// the newest first; limited.
pub open spec fn inbox_order() -> Seq<char> {
    " ORDER BY (m.content_type IN ('approval_request', 'question', 'task')) DESC, m.created_at DESC LIMIT ?"@
}

/// The SQL of a participant's inbox listing: its deliveries selected by the
/// filter, action items first, newest first, at most `limit`.
pub fn inbox_query(participant_id: &str, filter: Option<&str>, limit: u32) -> (r: SqlQuery)
    ensures
        r.sql@ == inbox_select() + spec_filter_clause(crate::mem::ov(filter)) + inbox_order(),
        params_view(r.params@) == seq![ParamView::Text(participant_id@), ParamView::Int(limit as int)],
{
    let mut sql = String::from_str(
        "SELECT mr.message_id, mr.status, mr.delivered_at, mr.read_at, mr.done_at, mr.read_by_session_id, mr.done_by_session_id, m.sender_id, p2.name as sender_name, p2.type as sender_type, p2.intro as sender_intro, m.body, m.content_type, m.metadata FROM message_recipients mr JOIN messages m ON mr.message_id = m.id JOIN participants p2 ON m.sender_id = p2.id WHERE mr.recipient_id = ? ",
    );
    sql.append(filter_clause(filter));
    sql.append(
        " ORDER BY (m.content_type IN ('approval_request', 'question', 'task')) DESC, m.created_at DESC LIMIT ?",
    );
    let mut params: Vec<SqlParam> = Vec::new();
    params.push(SqlParam::Text(String::from_str(participant_id)));
    params.push(SqlParam::Int(limit as i64));
    let r = SqlQuery { sql, params };
    assert(params_view(r.params@) =~= seq![ParamView::Text(participant_id@), ParamView::Int(limit as int)]);
    r
}

/// Whether one of the attachments holds the message's full body.
pub open spec fn has_full_body(atts: Seq<InboxAttachment>) -> bool {
    exists|i: int| 0 <= i < atts.len() && #[trigger] atts[i].role@ == "full_body"@
}

/// The size of the first full-body attachment, if any.
pub open spec fn first_full_body_size(atts: Seq<InboxAttachment>) -> Option<usize>
    decreases atts.len(),
{
    if atts.len() == 0 {
        None
    } else if atts[0].role@ == "full_body"@ {
        Some(atts[0].size)
    } else {
        first_full_body_size(atts.drop_first())
    }
}

/// The byte size of the whole body: the full-body attachment's size when
/// the body was split off, else the stored body's size.
pub open spec fn spec_body_size(body_bytes: nat, atts: Seq<InboxAttachment>) -> nat {
    match first_full_body_size(atts) {
        Some(s) => s as nat,
        None => body_bytes,
    }
}

/// How a body is shown: a split-off body, or one above the attachment
/// threshold, only as its summary; one within the inline limit in full; one
/// in between as a preview cut to `preview_chars` characters.
pub open spec fn spec_present(
    body: Seq<char>,
    body_bytes: nat,
    atts: Seq<InboxAttachment>,
    inline_limit: nat,
    attachment_threshold: nat,
    preview_chars: nat,
) -> (Seq<char>, Seq<char>, bool, nat) {
    let size = spec_body_size(body_bytes, atts);
    if has_full_body(atts) {
        ("summary"@, body, true, size)
    } else if size <= inline_limit {
        ("full"@, body, false, size)
    } else if size <= attachment_threshold {
        ("preview"@, truncate_chars_spec(body, preview_chars), true, size)
    } else {
        ("summary"@, body, true, size)
    }
}

fn full_body_size(atts: &Vec<InboxAttachment>) -> (r: Option<usize>)
    ensures
        r == first_full_body_size(atts@),
        r is Some <==> has_full_body(atts@),
{
    let mut i: usize = 0;
    assert(atts@.skip(0) =~= atts@);
    while i < atts.len()
        invariant
            i <= atts@.len(),
            first_full_body_size(atts@) == first_full_body_size(atts@.skip(i as int)),
            forall|j: int| 0 <= j < i ==> atts@[j].role@ != "full_body"@,
        decreases atts@.len() - i,
    {
        assert(atts@.skip(i as int).drop_first() =~= atts@.skip(i + 1));
        if str_eq(atts[i].role.as_str(), "full_body") {
            return Some(atts[i].size);
        }
        i = i + 1;
    }
    assert(atts@.skip(i as int).len() == 0);
    None
}

/// Presents an item's body (see `spec_present`).
pub fn present_content(
    body: &str,
    atts: &Vec<InboxAttachment>,
    inline_limit: usize,
    attachment_threshold: usize,
    preview_chars: usize,
) -> (r: InboxMessageContent)
    ensures
        (r.mode@, r.body@, r.truncated, r.size as nat) == spec_present(
            body@,
            body.len() as nat,
            atts@,
            inline_limit as nat,
            attachment_threshold as nat,
            preview_chars as nat,
        ),
{
    let full = full_body_size(atts);
    let size = match full {
        Some(s) => s,
        None => body.len(),
    };
    if full.is_some() {
        InboxMessageContent {
            mode: String::from_str("summary"),
            body: String::from_str(body),
            truncated: true,
            size,
        }
    } else if size <= inline_limit {
        InboxMessageContent { mode: String::from_str("full"), body: String::from_str(body), truncated: false, size }
    } else if size <= attachment_threshold {
        InboxMessageContent {
            mode: String::from_str("preview"),
            body: crate::text::truncate_chars(body, preview_chars),
            truncated: true,
            size,
        }
    } else {
        InboxMessageContent {
            mode: String::from_str("summary"),
            body: String::from_str(body),
            truncated: true,
            size,
        }
    }
}

/// How a sent message's body is stored: a body above the attachment
/// threshold (in bytes) is kept as its preview, cut to `preview_chars`
/// characters, and split off into a `full_body` attachment (the flag);
/// any other body is stored as it is.
pub fn store_body(body: &str, attachment_threshold: usize, preview_chars: usize) -> (r: (String, bool))
    ensures
        body.len() > attachment_threshold ==> r.0@ == truncate_chars_spec(body@, preview_chars as nat) && r.1,
        body.len() <= attachment_threshold ==> r.0@ == body@ && !r.1,
{
    if body.len() > attachment_threshold {
        (crate::text::truncate_chars(body, preview_chars), true)
    } else {
        (String::from_str(body), false)
    }
}

/// The attachment that keeps a split-off body.
#[derive(Debug)]
pub struct AttachmentPlan {
    pub role: String,
    pub filename: String,
    pub content_type: String,
    pub size: usize,
}

/// What sending a message stores: its body (cut to a preview when split
/// off), one delivery row of status `pending` for each recipient found, and
/// for a body above the attachment threshold a `full_body` attachment
/// holding the whole body.
#[derive(Debug)]
pub struct MessagePlan {
    pub stored_body: String,
    pub recipients: Vec<String>,
    pub recipient_status: String,
    pub full_body: Option<AttachmentPlan>,
}

/// Plans storing the message `msg_id` with this body for the recipients
/// that were found (their participant ids, in order).
pub fn message_plan(
    msg_id: &str,
    body: &str,
    attachment_threshold: usize,
    preview_chars: usize,
    recipient_ids: Vec<String>,
) -> (r: MessagePlan)
    ensures
        r.recipients == recipient_ids,
        r.recipient_status@ == "pending"@,
        body.len() > attachment_threshold ==> r.stored_body@ == truncate_chars_spec(body@, preview_chars as nat) && (
        r.full_body matches Some(a) && a.role@ == "full_body"@ && a.filename@ == "message-"@ + msg_id@ + ".md"@
            && a.content_type@ == "text/markdown"@ && a.size == body.len()),
        body.len() <= attachment_threshold ==> r.stored_body@ == body@ && r.full_body is None,
{
    let (stored_body, split) = store_body(body, attachment_threshold, preview_chars);
    let full_body = if split {
        let mut filename = String::from_str("message-");
        filename.append(msg_id);
        filename.append(".md");
        Some(AttachmentPlan {
            role: String::from_str("full_body"),
            filename,
            content_type: String::from_str("text/markdown"),
            size: body.len(),
        })
    } else {
        None
    };
    MessagePlan { stored_body, recipients: recipient_ids, recipient_status: String::from_str("pending"), full_body }
}

/// Approvals, questions and tasks need an action.
pub open spec fn is_action_type(content_type: Seq<char>) -> bool {
    content_type == "approval_request"@ || content_type == "question"@ || content_type == "task"@
}

/// The kind, priority and action flag of an item, from its content type.
pub open spec fn spec_classify(content_type: Seq<char>) -> (Seq<char>, Seq<char>, bool) {
    if content_type == "approval_request"@ {
        ("approval"@, "high"@, true)
    } else if content_type == "question"@ {
        ("question"@, "high"@, true)
    } else if content_type == "task"@ {
        ("task"@, "high"@, true)
    } else {
        ("message"@, "normal"@, false)
    }
}

/// Classifies an item by content type (see `spec_classify`).
pub fn classify(content_type: &str) -> (r: (String, String, bool))
    ensures
        (r.0@, r.1@, r.2) == spec_classify(content_type@),
{
    if str_eq(content_type, "approval_request") {
        (String::from_str("approval"), String::from_str("high"), true)
    } else if str_eq(content_type, "question") {
        (String::from_str("question"), String::from_str("high"), true)
    } else if str_eq(content_type, "task") {
        (String::from_str("task"), String::from_str("high"), true)
    } else {
        (String::from_str("message"), String::from_str("normal"), false)
    }
}

/// Only approvals, questions and tasks are high priority, and exactly they
/// require an action.
pub proof fn lemma_priority_matches_action(content_type: Seq<char>)
    ensures
        spec_classify(content_type).2 <==> is_action_type(content_type),
        spec_classify(content_type).1 == "high"@ <==> is_action_type(content_type),
{
    reveal_strlit("high");
    reveal_strlit("normal");
    assert("high"@[0] != "normal"@[0]);
}

/// The actions an item offers: always `detail` and `reply`; `done` while not
/// done; `approve` and `reject` for an approval request not done; and
/// `attachment` when the body was split off.
pub open spec fn spec_actions(content_type: Seq<char>, status: Seq<char>, atts: Seq<InboxAttachment>) -> Seq<Seq<char>> {
    let base = seq!["detail"@, "reply"@];
    let with_done = if status != "done"@ { base.push("done"@) } else { base };
    let with_approval = if content_type == "approval_request"@ && status != "done"@ {
        with_done.push("approve"@).push("reject"@)
    } else {
        with_done
    };
    if has_full_body(atts) {
        with_approval.push("attachment"@)
    } else {
        with_approval
    }
}

/// The actions an item offers (see `spec_actions`).
pub fn derive_actions(content_type: &str, status: &str, atts: &Vec<InboxAttachment>) -> (r: Vec<String>)
    ensures
        crate::text::string_views(r@) == spec_actions(content_type@, status@, atts@),
{
    let mut actions: Vec<String> = Vec::new();
    actions.push(String::from_str("detail"));
    actions.push(String::from_str("reply"));
    let not_done = !str_eq(status, "done");
    if not_done {
        actions.push(String::from_str("done"));
    }
    if str_eq(content_type, "approval_request") && not_done {
        actions.push(String::from_str("approve"));
        actions.push(String::from_str("reject"));
    }
    if full_body_size(atts).is_some() {
        actions.push(String::from_str("attachment"));
    }
    assert(crate::text::string_views(actions@) =~= spec_actions(content_type@, status@, atts@));
    actions
}

/// The offered actions never repeat, begin with `detail` and `reply`, and
/// offer `done` exactly while the item is not done.
pub proof fn lemma_actions_well_formed(content_type: Seq<char>, status: Seq<char>, atts: Seq<InboxAttachment>)
    ensures
        spec_actions(content_type, status, atts).no_duplicates(),
        spec_actions(content_type, status, atts)[0] == "detail"@,
        spec_actions(content_type, status, atts)[1] == "reply"@,
        spec_actions(content_type, status, atts).contains("done"@) <==> status != "done"@,
        spec_actions(content_type, status, atts).contains("approve"@) <==> (content_type == "approval_request"@
            && status != "done"@),
        spec_actions(content_type, status, atts).contains("attachment"@) <==> has_full_body(atts),
{
    reveal_strlit("detail");
    reveal_strlit("reply");
    reveal_strlit("done");
    reveal_strlit("approve");
    reveal_strlit("reject");
    reveal_strlit("attachment");
    let a = spec_actions(content_type, status, atts);
    let d = status != "done"@;
    let ap = content_type == "approval_request"@ && d;
    assert(a.len() >= 2);
    assert("detail"@.len() == 6 && "reply"@.len() == 5 && "done"@.len() == 4 && "approve"@.len() == 7);
    assert("reject"@.len() == 6 && "attachment"@.len() == 10);
    assert("detail"@[0] != "reject"@[0]);
    assert forall|i: int| 0 <= i < a.len() && (a[i] == "done"@) implies d && i == 2 by {
        if !d || i != 2 {
            assert(a[i].len() != 4);
        }
    }
    assert forall|i: int| 0 <= i < a.len() && (a[i] == "approve"@) implies ap by {
        if !ap {
            assert(a[i].len() != 7);
        }
    }
    if d {
        assert(a[2] == "done"@);
    }
    if ap {
        assert(a[3] == "approve"@);
    }
    if has_full_body(atts) {
        assert(a[a.len() - 1] == "attachment"@);
    }
    assert forall|i: int| 0 <= i < a.len() && (a[i] == "attachment"@) implies has_full_body(atts) by {
        if !has_full_body(atts) {
            assert(a[i].len() != 10);
        }
    }
    assert forall|i: int, j: int| 0 <= i < a.len() && 0 <= j < a.len() && i != j implies a[i] != a[j] by {
        if a[i].len() == a[j].len() {
            assert(a[i][0] != a[j][0]);
        }
    }
}

} // verus!
