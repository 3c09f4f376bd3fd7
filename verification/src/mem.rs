//! The long-term memory: target resolution, status summaries, error codes,
//! scopes and the SQL of its searches and listings.

use vstd::prelude::*;
use crate::proto::{ServerMsg, err_owned, is_error};
use crate::text::{decimal, str_eq};

verus! {

/// `<status>: <summary>` with trailing `:` and spaces removed.
pub open spec fn spec_status_summary_text(status: Seq<char>, summary: Seq<char>) -> Seq<char> {
    trim_end_colon_space(status + ": "@ + summary)
}

/// `s` without its trailing `:` and ` ` characters.
pub open spec fn trim_end_colon_space(s: Seq<char>) -> Seq<char>
    decreases s.len(),
{
    if s.len() > 0 && (s.last() == ':' || s.last() == ' ') {
        trim_end_colon_space(s.drop_last())
    } else {
        s
    }
}

/// The one-line plan status that the memory index keeps (see
/// `spec_status_summary_text`).
pub fn status_summary_text(status: &str, summary: &str) -> (r: String)
    ensures
        r@ == spec_status_summary_text(status@, summary@),
{
    let mut full = String::from_str(status);
    full.append(": ");
    full.append(summary);
    let s = full.as_str();
    let mut end: usize = s.unicode_len();
    assert(s@.take(end as int) =~= s@);
    while end > 0 && (s.get_char(end - 1) == ':' || s.get_char(end - 1) == ' ')
        invariant
            end <= s@.len(),
            trim_end_colon_space(s@) == trim_end_colon_space(s@.take(end as int)),
        decreases end,
    {
        assert(s@.take(end as int).drop_last() =~= s@.take(end - 1));
        end = end - 1;
    }
    String::from_str(s.substring_char(0, end))
}

/// The kinds of memory error that replies tell apart.
#[derive(Debug)]
pub enum MemErrorKind {
    InvalidStatus,
    Other,
}

/// The reply for a memory error: `invalid_status` for an invalid plan
/// status, `mem_error` otherwise.
pub fn mem_error_msg(kind: MemErrorKind, message: String) -> (r: ServerMsg)
    ensures
        kind == MemErrorKind::InvalidStatus ==> is_error(r, "invalid_status"@, message@),
        kind == MemErrorKind::Other ==> is_error(r, "mem_error"@, message@),
{
    match kind {
        MemErrorKind::InvalidStatus => err_owned("invalid_status", message),
        MemErrorKind::Other => err_owned("mem_error", message),
    }
}

/// A mailbox of the memory index: its address and name.
#[derive(Debug)]
pub struct IndexEntry {
    pub address: String,
    pub name: String,
}

/// A target must be given.
pub fn require_target(target: Option<&str>) -> (r: Result<&str, ServerMsg>)
    ensures
        target is None ==> (r matches Err(e) && is_error(e, "missing_target"@, "缺少 target 参数"@)),
        target matches Some(t) ==> r == Ok::<&str, ServerMsg>(t),
{
    match target {
        Some(t) => Ok(t),
        None => Err(crate::proto::err("missing_target", "缺少 target 参数")),
    }
}

/// Resolves a target given by address, from the index entry of that
/// address if any.
pub fn resolve_by_address(target: &str, found: Option<IndexEntry>) -> (r: Result<(String, String), ServerMsg>)
    ensures
        found matches Some(e) ==> r == Ok::<(String, String), ServerMsg>((e.address, e.name)),
        found is None ==> (r matches Err(e) && is_error(e, "not_found"@, "未找到 address "@ + target@ + " 的记忆"@)),
{
    match found {
        Some(e) => Ok((e.address, e.name)),
        None => {
            let mut m = String::from_str("未找到 address ");
            m.append(target);
            m.append(" 的记忆");
            Err(err_owned("not_found", m))
        },
    }
}

/// Resolves a target given by name, from the index entries of that name:
/// exactly one must match.
pub fn resolve_by_name(target: &str, found: Vec<IndexEntry>) -> (r: Result<(String, String), ServerMsg>)
    ensures
        found@.len() == 1 ==> r == Ok::<(String, String), ServerMsg>((found@[0].address, found@[0].name)),
        found@.len() == 0 ==> (r matches Err(e) && is_error(e, "not_found"@, "未找到 name "@ + target@ + " 的记忆"@)),
        found@.len() > 1 ==> (r matches Err(e) && is_error(
            e,
            "ambiguous"@,
            "name "@ + target@ + " 对应 "@ + decimal(found@.len()) + " 个候选，请用 address 指定"@,
        )),
{
    let n = found.len();
    if n == 0 {
        let mut m = String::from_str("未找到 name ");
        m.append(target);
        m.append(" 的记忆");
        return Err(err_owned("not_found", m));
    }
    if n == 1 {
        let mut found = found;
        let e = found.pop().unwrap();
        return Ok((e.address, e.name));
    }
    let mut m = String::from_str("name ");
    m.append(target);
    m.append(" 对应 ");
    let c = crate::decimal::u64_to_decimal(n as u64);
    m.append(c.as_str());
    m.append(" 个候选，请用 address 指定");
    Err(err_owned("ambiguous", m))
}

/// The topic a memory pack reports: the requested one, or `all`.
pub fn pack_topic_label(topic: String) -> (r: String)
    ensures
        topic@.len() == 0 ==> r@ == "all"@,
        topic@.len() > 0 ==> r == topic,
{
    if crate::text::is_empty(topic.as_str()) {
        String::from_str("all")
    } else {
        topic
    }
}

/// The memory pack reply.
pub fn pack_reply(topic: String, markdown: String) -> (r: ServerMsg)
    ensures
        r matches ServerMsg::MemPack { topic: t, markdown: m } && m == markdown && (topic@.len() == 0 ==> t@
            == "all"@) && (topic@.len() > 0 ==> t == topic),
{
    ServerMsg::MemPack { topic: pack_topic_label(topic), markdown }
}

/// The scope of a memory space: `workspace` within a workspace, else `global`.
pub fn space_scope(in_workspace: bool) -> (r: &'static str)
    ensures
        in_workspace ==> r@ == "workspace"@,
        !in_workspace ==> r@ == "global"@,
{
    if in_workspace {
        "workspace"
    } else {
        "global"
    }
}

/// What a memory id or prefix resolves to, from the ids it prefixes (at most
/// two are looked at).
pub fn resolve_prefix_matches(id_or_prefix: &str, matches: Vec<String>) -> (r: Result<String, String>)
    ensures
        matches@.len() == 1 ==> r == Ok::<String, String>(matches@[0]),
        matches@.len() == 0 ==> (r matches Err(m) && m@ == "memory 不存在: "@ + id_or_prefix@),
        matches@.len() > 1 ==> (r matches Err(m) && m@ == "memory ID 前缀 '"@ + id_or_prefix@
            + "' 匹配到多个结果，请提供更完整的前缀"@),
{
    let n = matches.len();
    if n == 1 {
        let mut matches = matches;
        return Ok(matches.pop().unwrap());
    }
    if n == 0 {
        let mut m = String::from_str("memory 不存在: ");
        m.append(id_or_prefix);
        return Err(m);
    }
    let mut m = String::from_str("memory ID 前缀 '");
    m.append(id_or_prefix);
    m.append("' 匹配到多个结果，请提供更完整的前缀");
    Err(m)
}

/// A prefix shorter than four bytes is refused before any lookup.
pub fn check_prefix_length(id_or_prefix: &str) -> (r: Result<(), String>)
    ensures
        id_or_prefix.len() < 4 ==> (r matches Err(m) && m@ == "memory ID 前缀过短，至少提供 4 位字符"@),
        id_or_prefix.len() >= 4 ==> r is Ok,
{
    if id_or_prefix.len() < 4 {
        Err(String::from_str("memory ID 前缀过短，至少提供 4 位字符"))
    } else {
        Ok(())
    }
}

/// A bound SQL parameter.
#[derive(Debug)]
pub enum SqlParam {
    Text(String),
    Int(i64),
}

/// A parameter as the specification sees it.
pub enum ParamView {
    Text(Seq<char>),
    Int(int),
}

/// The view of a parameter.
pub open spec fn param_view(p: SqlParam) -> ParamView {
    match p {
        SqlParam::Text(s) => ParamView::Text(s@),
        SqlParam::Int(i) => ParamView::Int(i as int),
    }
}

/// The views of a parameter list.
pub open spec fn params_view(ps: Seq<SqlParam>) -> Seq<ParamView> {
    ps.map_values(|p: SqlParam| param_view(p))
}

/// A parameterized SQL query.
#[derive(Debug)]
pub struct SqlQuery {
    pub sql: String,
    pub params: Vec<SqlParam>,
}

/// `n` placeholders separated by `, `.
pub open spec fn placeholders(n: nat) -> Seq<char>
    decreases n,
{
    if n == 0 {
        Seq::empty()
    } else if n == 1 {
        "?"@
    } else {
        placeholders((n - 1) as nat) + ", ?"@
    }
}

/// The columns of a memory item row.
pub open spec fn item_columns() -> Seq<char> {
    "SELECT i.id, i.space_id, s.scope, s.workspace_id, i.type, i.title, i.content, i.summary, i.status, i.confidence, i.importance, i.created_by, i.updated_by, i.created_at, i.updated_at"@
}

/// The scope condition shared by searches and listings: only the global
/// space for `global`; only the workspace's space for another scope (when a
/// workspace is known); without a scope, the workspace's and the global one.
pub open spec fn spec_scope_clause(scope: Option<Seq<char>>, workspace_id: Option<Seq<char>>) -> (Seq<char>, Seq<ParamView>) {
    match scope {
        Some(sc) => if sc == "global"@ {
            (" AND s.scope = 'global'"@, Seq::empty())
        } else {
            match workspace_id {
                Some(w) => (" AND s.workspace_id = ?"@, seq![ParamView::Text(w)]),
                None => (Seq::empty(), Seq::empty()),
            }
        },
        None => match workspace_id {
            Some(w) => (" AND (s.workspace_id = ? OR s.scope = 'global')"@, seq![ParamView::Text(w)]),
            None => (Seq::empty(), Seq::empty()),
        },
    }
}

/// The view of an optional string argument.
pub open spec fn ov(o: Option<&str>) -> Option<Seq<char>> {
    match o {
        Some(s) => Some(s@),
        None => None,
    }
}

/// The full-text search of memory items.
pub open spec fn spec_search_query(
    workspace_id: Option<Seq<char>>,
    query: Option<Seq<char>>,
    topic_ids: Seq<Seq<char>>,
    item_type: Option<Seq<char>>,
    scope: Option<Seq<char>>,
    status: Seq<char>,
    limit: u32,
) -> (Seq<char>, Seq<ParamView>) {
    let (from, p1) = match query {
        Some(q) => (
            ", rank FROM mem_items_fts f JOIN mem_items i ON i.rowid = f.rowid JOIN mem_spaces s ON i.space_id = s.id WHERE f.mem_items_fts MATCH ? AND i.status = ?"@,
            seq![ParamView::Text(q), ParamView::Text(status)],
        ),
        None => (" FROM mem_items i JOIN mem_spaces s ON i.space_id = s.id WHERE i.status = ?"@, seq![ParamView::Text(status)]),
    };
    let (sc, p2) = spec_scope_clause(scope, workspace_id);
    let (ty, p3) = match item_type {
        Some(t) => (" AND i.type = ?"@, seq![ParamView::Text(t)]),
        None => (Seq::empty(), Seq::empty()),
    };
    let (tp, p4) = if topic_ids.len() > 0 {
        (
            " AND i.id IN (SELECT mem_id FROM mem_item_topics WHERE topic_id IN ("@ + placeholders(topic_ids.len())
                + "))"@,
            topic_ids.map_values(|t: Seq<char>| ParamView::Text(t)),
        )
    } else {
        (Seq::empty(), Seq::empty())
    };
    let order = if query is Some {
        " ORDER BY rank ASC, i.importance DESC, i.updated_at DESC LIMIT ?"@
    } else {
        " ORDER BY i.importance DESC, i.updated_at DESC LIMIT ?"@
    };
    (item_columns() + from + sc + ty + tp + order, p1 + p2 + p3 + p4 + seq![ParamView::Int(limit as int)])
}

fn text_param(s: &str) -> (r: SqlParam)
    ensures
        param_view(r) == ParamView::Text(s@),
{
    SqlParam::Text(String::from_str(s))
}

fn push_scope_clause(q: &mut SqlQuery, scope: Option<&str>, workspace_id: Option<&str>)
    ensures
        final(q).sql@ == old(q).sql@ + spec_scope_clause(ov(scope), ov(workspace_id)).0,
        params_view(final(q).params@) == params_view(old(q).params@) + spec_scope_clause(ov(scope), ov(workspace_id)).1,
{
    let ghost p0 = params_view(q.params@);
    match scope {
        Some(sc) => {
            if str_eq(sc, "global") {
                q.sql.append(" AND s.scope = 'global'");
                assert(params_view(q.params@) =~= p0 + Seq::<ParamView>::empty());
            } else {
                match workspace_id {
                    Some(w) => {
                        q.sql.append(" AND s.workspace_id = ?");
                        q.params.push(text_param(w));
                        assert(params_view(q.params@) =~= p0 + seq![ParamView::Text(w@)]);
                    },
                    None => {
                        assert(q.sql@ =~= q.sql@ + Seq::<char>::empty());
                        assert(params_view(q.params@) =~= p0 + Seq::<ParamView>::empty());
                    },
                }
            }
        },
        None => match workspace_id {
            Some(w) => {
                q.sql.append(" AND (s.workspace_id = ? OR s.scope = 'global')");
                q.params.push(text_param(w));
                assert(params_view(q.params@) =~= p0 + seq![ParamView::Text(w@)]);
            },
            None => {
                assert(q.sql@ =~= q.sql@ + Seq::<char>::empty());
                assert(params_view(q.params@) =~= p0 + Seq::<ParamView>::empty());
            },
        },
    }
}

fn push_type_clause(q: &mut SqlQuery, item_type: Option<&str>)
    ensures
        item_type matches Some(t) ==> final(q).sql@ == old(q).sql@ + " AND i.type = ?"@ && params_view(final(q).params@)
            == params_view(old(q).params@) + seq![ParamView::Text(t@)],
        item_type is None ==> *final(q) == *old(q),
{
    if let Some(t) = item_type {
        let ghost p0 = params_view(q.params@);
        q.sql.append(" AND i.type = ?");
        q.params.push(text_param(t));
        assert(params_view(q.params@) =~= p0 + seq![ParamView::Text(t@)]);
    }
}

/// The SQL of a memory search: full-text matching when a query is given
/// (ranked first), the status (default `active`), the scope, the type and
/// the topics (any of them), most important and most recent first, limited.
pub fn search_query(
    workspace_id: Option<&str>,
    query: Option<&str>,
    topic_ids: &Vec<String>,
    item_type: Option<&str>,
    scope: Option<&str>,
    status: Option<&str>,
    limit: u32,
) -> (r: SqlQuery)
    ensures
        (r.sql@, params_view(r.params@)) == spec_search_query(
            ov(workspace_id),
            ov(query),
            crate::text::string_views(topic_ids@),
            ov(item_type),
            ov(scope),
            match status {
                Some(s) => s@,
                None => "active"@,
            },
            limit,
        ),
{
    let status = match status {
        Some(s) => s,
        None => "active",
    };
    let mut q = SqlQuery {
        sql: String::from_str(
            "SELECT i.id, i.space_id, s.scope, s.workspace_id, i.type, i.title, i.content, i.summary, i.status, i.confidence, i.importance, i.created_by, i.updated_by, i.created_at, i.updated_at",
        ),
        params: Vec::new(),
    };
    match query {
        Some(text) => {
            q.sql.append(
                ", rank FROM mem_items_fts f JOIN mem_items i ON i.rowid = f.rowid JOIN mem_spaces s ON i.space_id = s.id WHERE f.mem_items_fts MATCH ? AND i.status = ?",
            );
            q.params.push(text_param(text));
            q.params.push(text_param(status));
        },
        None => {
            q.sql.append(" FROM mem_items i JOIN mem_spaces s ON i.space_id = s.id WHERE i.status = ?");
            q.params.push(text_param(status));
        },
    }
    let ghost p1 = params_view(q.params@);
    let ghost s1 = q.sql@;
    push_scope_clause(&mut q, scope, workspace_id);
    let ghost s2 = q.sql@;
    let ghost p2 = params_view(q.params@);
    push_type_clause(&mut q, item_type);
    let ghost s3 = q.sql@;
    let ghost p3 = params_view(q.params@);
    if topic_ids.len() > 0 {
        q.sql.append(" AND i.id IN (SELECT mem_id FROM mem_item_topics WHERE topic_id IN (");
        let mut k: usize = 0;
        let ghost sql_before = q.sql@;
        let ghost ids = crate::text::string_views(topic_ids@);
        while k < topic_ids.len()
            invariant
                k <= topic_ids@.len(),
                ids == crate::text::string_views(topic_ids@),
                q.sql@ == sql_before + placeholders(k as nat),
                params_view(q.params@) == p3 + ids.take(k as int).map_values(|t: Seq<char>| ParamView::Text(t)),
            decreases topic_ids@.len() - k,
        {
            let ghost pk = params_view(q.params@);
            if k == 0 {
                q.sql.append("?");
            } else {
                q.sql.append(", ?");
            }
            q.params.push(text_param(topic_ids[k].as_str()));
            assert(params_view(q.params@) =~= pk.push(ParamView::Text(ids[k as int])));
            assert(ids.take(k + 1).map_values(|t: Seq<char>| ParamView::Text(t)) =~= ids.take(k as int).map_values(
                |t: Seq<char>| ParamView::Text(t),
            ).push(ParamView::Text(ids[k as int])));
            proof {
                if k == 0 {
                    assert(placeholders(1) == "?"@);
                    assert(Seq::<char>::empty() + "?"@ =~= "?"@);
                }
            }
            k = k + 1;
        }
        q.sql.append("))");
        assert(ids.take(ids.len() as int) =~= ids);
    }
    let ghost s4 = q.sql@;
    let ghost p4 = params_view(q.params@);
    if query.is_some() {
        q.sql.append(" ORDER BY rank ASC, i.importance DESC, i.updated_at DESC LIMIT ?");
    } else {
        q.sql.append(" ORDER BY i.importance DESC, i.updated_at DESC LIMIT ?");
    }
    q.params.push(SqlParam::Int(limit as i64));
    proof {
        let (want_sql, want_params) = spec_search_query(
            ov(workspace_id),
            ov(query),
            crate::text::string_views(topic_ids@),
            ov(item_type),
            ov(scope),
            status@,
            limit,
        );
        assert(params_view(q.params@) =~= p4.push(ParamView::Int(limit as int)));
        assert(q.sql@ =~= want_sql);
        assert(params_view(q.params@) =~= want_params);
    }
    q
}

/// The listing of memory items.
pub open spec fn spec_list_query(
    workspace_id: Option<Seq<char>>,
    topic_id: Option<Seq<char>>,
    item_type: Option<Seq<char>>,
    scope: Option<Seq<char>>,
    status: Seq<char>,
    limit: u32,
) -> (Seq<char>, Seq<ParamView>) {
    let (wh, p1) = if status == "all"@ {
        (" FROM mem_items i JOIN mem_spaces s ON i.space_id = s.id WHERE 1=1"@, Seq::<ParamView>::empty())
    } else {
        (" FROM mem_items i JOIN mem_spaces s ON i.space_id = s.id WHERE i.status = ?"@, seq![ParamView::Text(status)])
    };
    let (sc, p2) = spec_scope_clause(scope, workspace_id);
    let (ty, p3) = match item_type {
        Some(t) => (" AND i.type = ?"@, seq![ParamView::Text(t)]),
        None => (Seq::empty(), Seq::empty()),
    };
    let (tp, p4) = match topic_id {
        Some(t) => (" AND i.id IN (SELECT mem_id FROM mem_item_topics WHERE topic_id = ?)"@, seq![ParamView::Text(t)]),
        None => (Seq::empty(), Seq::empty()),
    };
    (
        item_columns() + wh + sc + ty + tp + " ORDER BY i.updated_at DESC LIMIT ?"@,
        p1 + p2 + p3 + p4 + seq![ParamView::Int(limit as int)],
    )
}

/// The SQL of a memory listing: by status (`all` for any), scope, type and
/// topic, most recently updated first, limited.
pub fn list_query(
    workspace_id: Option<&str>,
    topic_id: Option<&str>,
    item_type: Option<&str>,
    scope: Option<&str>,
    status: &str,
    limit: u32,
) -> (r: SqlQuery)
    ensures
        (r.sql@, params_view(r.params@)) == spec_list_query(
            ov(workspace_id),
            ov(topic_id),
            ov(item_type),
            ov(scope),
            status@,
            limit,
        ),
{
    let mut q = SqlQuery {
        sql: String::from_str(
            "SELECT i.id, i.space_id, s.scope, s.workspace_id, i.type, i.title, i.content, i.summary, i.status, i.confidence, i.importance, i.created_by, i.updated_by, i.created_at, i.updated_at",
        ),
        params: Vec::new(),
    };
    if str_eq(status, "all") {
        q.sql.append(" FROM mem_items i JOIN mem_spaces s ON i.space_id = s.id WHERE 1=1");
    } else {
        q.sql.append(" FROM mem_items i JOIN mem_spaces s ON i.space_id = s.id WHERE i.status = ?");
        q.params.push(text_param(status));
    }
    push_scope_clause(&mut q, scope, workspace_id);
    push_type_clause(&mut q, item_type);
    let ghost p3 = params_view(q.params@);
    if let Some(t) = topic_id {
        q.sql.append(" AND i.id IN (SELECT mem_id FROM mem_item_topics WHERE topic_id = ?)");
        q.params.push(text_param(t));
        assert(params_view(q.params@) =~= p3 + seq![ParamView::Text(t@)]);
    }
    let ghost p4 = params_view(q.params@);
    q.sql.append(" ORDER BY i.updated_at DESC LIMIT ?");
    q.params.push(SqlParam::Int(limit as i64));
    proof {
        let (want_sql, want_params) = spec_list_query(ov(workspace_id), ov(topic_id), ov(item_type), ov(scope), status@, limit);
        assert(params_view(q.params@) =~= p4.push(ParamView::Int(limit as int)));
        assert(q.sql@ =~= want_sql);
        assert(params_view(q.params@) =~= want_params);
    }
    q
}

/// The listing of memory topics.
pub open spec fn spec_topics_query(workspace_id: Option<Seq<char>>, status: Option<Seq<char>>) -> (Seq<char>, Seq<ParamView>) {
    let base = "SELECT t.id, t.space_id, t.parent_id, t.slug, t.title, t.summary, t.aliases, t.status, t.priority, t.created_at, t.updated_at FROM mem_topics t JOIN mem_spaces s ON t.space_id = s.id"@;
    let (ws, p1) = match workspace_id {
        Some(w) => (" WHERE s.workspace_id = ?"@, seq![ParamView::Text(w)]),
        None => (" WHERE s.workspace_id IS NULL"@, Seq::<ParamView>::empty()),
    };
    let (st, p2) = match status {
        Some(x) => (" AND t.status = ?"@, seq![ParamView::Text(x)]),
        None => (Seq::empty(), Seq::empty()),
    };
    (base + ws + st + " ORDER BY t.slug"@, p1 + p2)
}

/// The SQL of a topic listing: the workspace's topics (the global ones
/// without a workspace), optionally of one status, by slug.
pub fn topics_query(workspace_id: Option<&str>, status: Option<&str>) -> (r: SqlQuery)
    ensures
        (r.sql@, params_view(r.params@)) == spec_topics_query(ov(workspace_id), ov(status)),
{
    let mut q = SqlQuery {
        sql: String::from_str(
            "SELECT t.id, t.space_id, t.parent_id, t.slug, t.title, t.summary, t.aliases, t.status, t.priority, t.created_at, t.updated_at FROM mem_topics t JOIN mem_spaces s ON t.space_id = s.id",
        ),
        params: Vec::new(),
    };
    match workspace_id {
        Some(w) => {
            q.sql.append(" WHERE s.workspace_id = ?");
            q.params.push(text_param(w));
        },
        None => {
            q.sql.append(" WHERE s.workspace_id IS NULL");
        },
    }
    let ghost p1 = params_view(q.params@);
    if let Some(x) = status {
        q.sql.append(" AND t.status = ?");
        q.params.push(text_param(x));
        assert(params_view(q.params@) =~= p1 + seq![ParamView::Text(x@)]);
    }
    q.sql.append(" ORDER BY t.slug");
    proof {
        let (want_sql, want_params) = spec_topics_query(ov(workspace_id), ov(status));
        assert(q.sql@ =~= want_sql);
        assert(params_view(q.params@) =~= want_params);
    }
    q
}

/// Every placeholder of a search has its parameter: the query holds as many
/// `?` as parameters are bound.
pub proof fn lemma_search_placeholders_match(n: nat)
    ensures
        count_marks(placeholders(n)) == n,
    decreases n,
{
    reveal_strlit("?");
    reveal_strlit(", ?");
    if n == 1 {
        assert(count_marks("?"@) == count_marks("?"@.drop_last()) + 1);
        assert("?"@.drop_last() =~= Seq::<char>::empty());
    } else if n > 1 {
        lemma_search_placeholders_match((n - 1) as nat);
        lemma_count_marks_concat(placeholders((n - 1) as nat), ", ?"@);
        let t = ", ?"@;
        assert(t.drop_last() =~= seq![',', ' ']);
        assert(seq![',', ' '].drop_last() =~= seq![',']);
        assert(seq![','].drop_last() =~= Seq::<char>::empty());
        assert(count_marks(Seq::<char>::empty()) == 0);
        assert(seq![','].last() == ',');
        assert(count_marks(seq![',']) == 0);
        assert(count_marks(seq![',', ' ']) == 0);
        assert(t.last() == '?');
        assert(count_marks(t) == 1);
    }
}

/// The number of `?` in `s`.
pub open spec fn count_marks(s: Seq<char>) -> nat
    decreases s.len(),
{
    if s.len() == 0 {
        0
    } else {
        count_marks(s.drop_last()) + if s.last() == '?' {
            1nat
        } else {
            0nat
        }
    }
}

proof fn lemma_count_marks_concat(a: Seq<char>, b: Seq<char>)
    ensures
        count_marks(a + b) == count_marks(a) + count_marks(b),
    decreases b.len(),
{
    if b.len() == 0 {
        assert(a + b =~= a);
    } else {
        lemma_count_marks_concat(a, b.drop_last());
        assert((a + b).drop_last() =~= a + b.drop_last());
    }
}

} // verus!
