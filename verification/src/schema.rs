//! The SQL of the schema migration steps and of the version bookkeeping.

use vstd::prelude::*;

verus! {

/// Creates the table that records applied migrations.
pub const MIGRATIONS_TABLE: &'static str = "CREATE TABLE IF NOT EXISTS _migrations (version INTEGER PRIMARY KEY, applied_at REAL NOT NULL DEFAULT (unixepoch('subsec')))";

/// Reads the highest recorded migration (0 when none).
pub const VERSION_QUERY: &'static str = "SELECT COALESCE(MAX(version), 0) FROM _migrations";

/// Records a migration version (the one bound parameter).
pub const RECORD_VERSION: &'static str = "INSERT OR REPLACE INTO _migrations(version) VALUES (?1)";

/// The base schema (step 1).
pub const SCHEMA_V1: &'static str = r#"
CREATE TABLE IF NOT EXISTS _migrations (
    version INTEGER PRIMARY KEY,
    applied_at REAL NOT NULL DEFAULT (unixepoch('subsec'))
);

CREATE TABLE IF NOT EXISTS system_mailboxes (
    role TEXT PRIMARY KEY,
    address TEXT NOT NULL UNIQUE REFERENCES mailboxes(address)
);

CREATE TABLE IF NOT EXISTS mailboxes (
    address TEXT PRIMARY KEY,
    name TEXT NOT NULL,
    intro TEXT NOT NULL DEFAULT '',
    workspace TEXT NOT NULL DEFAULT '',
    created_at REAL NOT NULL DEFAULT (unixepoch('subsec'))
);

CREATE TABLE IF NOT EXISTS event_sequences (
    address TEXT PRIMARY KEY REFERENCES mailboxes(address),
    last_event_id INTEGER NOT NULL DEFAULT 0
);

CREATE TABLE IF NOT EXISTS messages (
    id TEXT PRIMARY KEY,
    to_address TEXT NOT NULL REFERENCES mailboxes(address),
    from_address TEXT NOT NULL REFERENCES mailboxes(address),
    body TEXT NOT NULL,
    content_type TEXT NOT NULL DEFAULT 'text',
    reply_to_id TEXT REFERENCES messages(id),
    metadata TEXT NOT NULL DEFAULT '{}',
    event_id INTEGER NOT NULL,
    status TEXT NOT NULL DEFAULT 'pending',
    created_at REAL NOT NULL DEFAULT (unixepoch('subsec')),
    UNIQUE(to_address, event_id)
);

CREATE TABLE IF NOT EXISTS message_status_log (
    id INTEGER PRIMARY KEY AUTOINCREMENT,
    message_id TEXT NOT NULL REFERENCES messages(id),
    old_status TEXT,
    new_status TEXT NOT NULL,
    changed_at REAL NOT NULL DEFAULT (unixepoch('subsec'))
);

CREATE INDEX IF NOT EXISTS idx_messages_to_address ON messages(to_address);
CREATE INDEX IF NOT EXISTS idx_messages_event_id ON messages(to_address, event_id);
CREATE INDEX IF NOT EXISTS idx_messages_reply_to ON messages(reply_to_id);
"#;

/// Migration step 2.
pub const MIGRATE_V2: &'static str = r#"
ALTER TABLE mailboxes ADD COLUMN left_at REAL DEFAULT NULL;
CREATE INDEX IF NOT EXISTS idx_mailboxes_left_at ON mailboxes(left_at);
"#;

/// Migration step 3.
pub const MIGRATE_V3: &'static str = r#"
ALTER TABLE messages ADD COLUMN to_name TEXT NOT NULL DEFAULT '';
ALTER TABLE messages ADD COLUMN from_name TEXT NOT NULL DEFAULT '';
"#;

/// Migration step 4.
pub const MIGRATE_V4: &'static str = r#"
CREATE TABLE IF NOT EXISTS browser_sessions (
    address TEXT PRIMARY KEY REFERENCES mailboxes(address),
    token TEXT NOT NULL,
    name TEXT NOT NULL,
    created_at REAL NOT NULL DEFAULT (unixepoch('subsec'))
);
CREATE INDEX IF NOT EXISTS idx_browser_sessions_token ON browser_sessions(token);
"#;

/// Migration step 5.
pub const MIGRATE_V5: &'static str = r#"
CREATE TABLE IF NOT EXISTS mem_index (
    address TEXT PRIMARY KEY REFERENCES mailboxes(address),
    name TEXT NOT NULL,
    workspace TEXT NOT NULL DEFAULT '',
    memory_path TEXT NOT NULL,
    plan_updated_at REAL NOT NULL DEFAULT 0,
    status_summary TEXT NOT NULL DEFAULT '',
    public_topics TEXT NOT NULL DEFAULT ''
);
CREATE INDEX IF NOT EXISTS idx_mem_index_name ON mem_index(name);
CREATE INDEX IF NOT EXISTS idx_mem_index_workspace ON mem_index(workspace);
"#;

/// Migration step 6.
pub const MIGRATE_V6: &'static str = r#"
ALTER TABLE mailboxes ADD COLUMN notify_channel TEXT NOT NULL DEFAULT '';
ALTER TABLE mailboxes ADD COLUMN notify_target TEXT NOT NULL DEFAULT '{}';
"#;

/// Migration step 7.
pub const MIGRATE_V7: &'static str = r#"
ALTER TABLE messages ADD COLUMN subject TEXT DEFAULT NULL;
"#;

/// Migration step 8.
pub const MIGRATE_V8: &'static str = r#"
ALTER TABLE mailboxes ADD COLUMN workspace_root TEXT NOT NULL DEFAULT '';
"#;

/// Migration step 9.
pub const MIGRATE_V9: &'static str = r#"
CREATE TABLE IF NOT EXISTS human_deliveries (
    id INTEGER PRIMARY KEY AUTOINCREMENT,
    message_id TEXT NOT NULL REFERENCES messages(id),
    surface TEXT NOT NULL,
    status TEXT NOT NULL DEFAULT 'pending',
    attempts INTEGER NOT NULL DEFAULT 0,
    external_ref TEXT DEFAULT NULL,
    error TEXT DEFAULT NULL,
    created_at REAL NOT NULL DEFAULT (unixepoch('subsec')),
    updated_at REAL NOT NULL DEFAULT (unixepoch('subsec')),
    UNIQUE(message_id, surface)
);
CREATE INDEX IF NOT EXISTS idx_human_deliveries_surface_status ON human_deliveries(surface, status);

CREATE TABLE IF NOT EXISTS human_action_receipts (
    surface TEXT NOT NULL,
    external_event_id TEXT NOT NULL,
    message_id TEXT DEFAULT NULL,
    action TEXT NOT NULL,
    created_at REAL NOT NULL DEFAULT (unixepoch('subsec')),
    PRIMARY KEY (surface, external_event_id)
);

CREATE TABLE IF NOT EXISTS approval_resolutions (
    request_message_id TEXT PRIMARY KEY REFERENCES messages(id),
    resolved_by TEXT NOT NULL,
    resolution TEXT NOT NULL,
    selected_choice TEXT DEFAULT NULL,
    response_message_id TEXT NOT NULL REFERENCES messages(id),
    created_at REAL NOT NULL DEFAULT (unixepoch('subsec'))
);
"#;

// V10：图工程运行时（见 docs/design_graph.md §5.2）。
// 幂等键 graph_run_id+node_key+attempt 用 UNIQUE 约束保证；version 为乐观锁。

/// Migration step 10.
pub const MIGRATE_V10: &'static str = r#"
CREATE TABLE IF NOT EXISTS graph_runs (
    id TEXT PRIMARY KEY,
    goal TEXT NOT NULL,
    spec_snapshot TEXT NOT NULL,
    compiled_graph TEXT NOT NULL,
    status TEXT NOT NULL DEFAULT 'draft',
    repository TEXT,
    base_revision TEXT,
    integration_target TEXT,
    created_at REAL NOT NULL DEFAULT (unixepoch('subsec')),
    started_at REAL,
    completed_at REAL,
    failure_reason TEXT
);

CREATE TABLE IF NOT EXISTS node_runs (
    id TEXT PRIMARY KEY,
    graph_run_id TEXT NOT NULL REFERENCES graph_runs(id),
    node_key TEXT NOT NULL,
    node_type TEXT NOT NULL,
    status TEXT NOT NULL DEFAULT 'pending',
    attempt INTEGER NOT NULL DEFAULT 1,
    participant_id TEXT,
    workspace_id TEXT,
    lease_token TEXT,
    lease_expires_at REAL,
    input_artifact_ids TEXT NOT NULL DEFAULT '[]',
    output_artifact_ids TEXT NOT NULL DEFAULT '[]',
    started_at REAL,
    heartbeat_at REAL,
    completed_at REAL,
    failure_type TEXT,
    failure_detail TEXT,
    verification_summary TEXT,
    version INTEGER NOT NULL DEFAULT 1,
    UNIQUE(graph_run_id, node_key, attempt)
);
CREATE INDEX IF NOT EXISTS idx_node_runs_graph ON node_runs(graph_run_id);

CREATE TABLE IF NOT EXISTS artifacts (
    id TEXT PRIMARY KEY,
    graph_run_id TEXT NOT NULL REFERENCES graph_runs(id),
    producer_node_run_id TEXT REFERENCES node_runs(id),
    artifact_type TEXT NOT NULL,
    schema_version TEXT NOT NULL,
    uri TEXT NOT NULL,
    checksum TEXT,
    metadata TEXT NOT NULL DEFAULT '{}',
    created_at REAL NOT NULL DEFAULT (unixepoch('subsec'))
);
CREATE INDEX IF NOT EXISTS idx_artifacts_run ON artifacts(graph_run_id);

CREATE TABLE IF NOT EXISTS workspaces (
    id TEXT PRIMARY KEY,
    graph_run_id TEXT NOT NULL REFERENCES graph_runs(id),
    owner_node_run_id TEXT REFERENCES node_runs(id),
    repository TEXT,
    base_revision TEXT,
    branch TEXT,
    path TEXT,
    status TEXT NOT NULL DEFAULT 'creating',
    dirty INTEGER NOT NULL DEFAULT 0,
    created_at REAL NOT NULL DEFAULT (unixepoch('subsec')),
    released_at REAL
);

CREATE TABLE IF NOT EXISTS verifications (
    id TEXT PRIMARY KEY,
    node_run_id TEXT NOT NULL REFERENCES node_runs(id),
    verifier_type TEXT NOT NULL,
    rule TEXT,
    expected TEXT,
    actual TEXT,
    status TEXT NOT NULL,
    evidence_artifact_id TEXT REFERENCES artifacts(id),
    started_at REAL,
    completed_at REAL
);
CREATE INDEX IF NOT EXISTS idx_verifications_node ON verifications(node_run_id);

CREATE TABLE IF NOT EXISTS graph_events (
    id INTEGER PRIMARY KEY AUTOINCREMENT,
    graph_run_id TEXT NOT NULL REFERENCES graph_runs(id),
    event_type TEXT NOT NULL,
    node_key TEXT,
    payload TEXT NOT NULL DEFAULT '{}',
    created_at REAL NOT NULL DEFAULT (unixepoch('subsec'))
);
CREATE INDEX IF NOT EXISTS idx_graph_events_run ON graph_events(graph_run_id);

CREATE TABLE IF NOT EXISTS graph_node_assignments (
    id TEXT PRIMARY KEY,
    node_run_id TEXT NOT NULL REFERENCES node_runs(id),
    message_id TEXT REFERENCES messages(id),
    kind TEXT NOT NULL,
    created_at REAL NOT NULL DEFAULT (unixepoch('subsec'))
);
CREATE INDEX IF NOT EXISTS idx_assignments_node ON graph_node_assignments(node_run_id);
"#;

// V11：workspaces 记录提交哈希（P1-2 worktree commit/merge 后可审计）。

/// Migration step 11.
pub const MIGRATE_V11: &'static str = r#"
ALTER TABLE workspaces ADD COLUMN commit_hash TEXT DEFAULT NULL;
"#;

} // verus!
