//! Schema migration planning: which numbered migration steps run on a
//! database, and the version recorded afterwards.

use vstd::prelude::*;
use crate::schema::{SCHEMA_V1, MIGRATE_V2, MIGRATE_V3, MIGRATE_V4, MIGRATE_V5, MIGRATE_V6, MIGRATE_V7, MIGRATE_V8, MIGRATE_V9, MIGRATE_V10, MIGRATE_V11};

verus! {

/// The schema version this build migrates to.
pub const CURRENT_VERSION: u32 = 11;

/// The schema version of the earlier single-file store.
pub const LEGACY_CURRENT_VERSION: u32 = 10;

/// The steps that run on a database at `version`: every step after it, up to
/// the current version, in order.
pub open spec fn spec_plan(version: u32) -> Seq<u32> {
    if version >= CURRENT_VERSION {
        Seq::empty()
    } else {
        Seq::new((CURRENT_VERSION - version) as nat, |i: int| (version + 1 + i) as u32)
    }
}

/// The version recorded after migrating: the current version is recorded,
/// and the recorded version is the largest ever recorded.
pub open spec fn spec_version_after(version: u32) -> u32 {
    if version >= CURRENT_VERSION {
        version
    } else {
        CURRENT_VERSION
    }
}

/// The migration steps for a database at `version` (see `spec_plan`).
pub fn migration_plan(version: u32) -> (r: Vec<u32>)
    ensures
        r@ == spec_plan(version),
{
    let mut out: Vec<u32> = Vec::new();
    if version >= CURRENT_VERSION {
        assert(out@ =~= spec_plan(version));
        return out;
    }
    let mut k: u32 = version + 1;
    while k <= CURRENT_VERSION
        invariant
            version < CURRENT_VERSION,
            version + 1 <= k <= CURRENT_VERSION + 1,
            out@.len() == k - version - 1,
            forall|i: int| 0 <= i < out@.len() ==> out@[i] == version + 1 + i,
        decreases CURRENT_VERSION + 1 - k,
    {
        out.push(k);
        k = k + 1;
    }
    assert(out@ =~= spec_plan(version));
    out
}

/// The version recorded after migrating (see `spec_version_after`).
pub fn version_after(version: u32) -> (r: u32)
    ensures
        r == spec_version_after(version),
{
    if version >= CURRENT_VERSION {
        version
    } else {
        CURRENT_VERSION
    }
}

/// The SQL of a migration step: the base schema for step 1, then one
/// batch for each later step up to the current version.
pub open spec fn spec_step_sql(step: u32) -> Option<&'static str> {
    if step == 1 {
        Some(SCHEMA_V1)
    } else if step == 2 {
        Some(MIGRATE_V2)
    } else if step == 3 {
        Some(MIGRATE_V3)
    } else if step == 4 {
        Some(MIGRATE_V4)
    } else if step == 5 {
        Some(MIGRATE_V5)
    } else if step == 6 {
        Some(MIGRATE_V6)
    } else if step == 7 {
        Some(MIGRATE_V7)
    } else if step == 8 {
        Some(MIGRATE_V8)
    } else if step == 9 {
        Some(MIGRATE_V9)
    } else if step == 10 {
        Some(MIGRATE_V10)
    } else if step == 11 {
        Some(MIGRATE_V11)
    } else {
        None
    }
}

/// The SQL of a migration step (see `spec_step_sql`); none outside the
/// steps that exist.
pub fn step_sql(step: u32) -> (r: Option<&'static str>)
    ensures
        r == spec_step_sql(step),
        r is Some <==> 1 <= step <= CURRENT_VERSION,
        step == 1 ==> r == Some(SCHEMA_V1),
        step == 2 ==> r == Some(MIGRATE_V2),
        step == 3 ==> r == Some(MIGRATE_V3),
        step == 4 ==> r == Some(MIGRATE_V4),
        step == 5 ==> r == Some(MIGRATE_V5),
        step == 6 ==> r == Some(MIGRATE_V6),
        step == 7 ==> r == Some(MIGRATE_V7),
        step == 8 ==> r == Some(MIGRATE_V8),
        step == 9 ==> r == Some(MIGRATE_V9),
        step == 10 ==> r == Some(MIGRATE_V10),
        step == 11 ==> r == Some(MIGRATE_V11),
{
    if step == 1 {
        Some(SCHEMA_V1)
    } else if step == 2 {
        Some(MIGRATE_V2)
    } else if step == 3 {
        Some(MIGRATE_V3)
    } else if step == 4 {
        Some(MIGRATE_V4)
    } else if step == 5 {
        Some(MIGRATE_V5)
    } else if step == 6 {
        Some(MIGRATE_V6)
    } else if step == 7 {
        Some(MIGRATE_V7)
    } else if step == 8 {
        Some(MIGRATE_V8)
    } else if step == 9 {
        Some(MIGRATE_V9)
    } else if step == 10 {
        Some(MIGRATE_V10)
    } else if step == 11 {
        Some(MIGRATE_V11)
    } else {
        None
    }
}

/// The migration steps that only add columns.
pub open spec fn is_column_step(k: u32) -> bool {
    k == 2 || k == 3 || k == 6 || k == 7 || k == 8 || k == 11
}

/// The steps that add columns run exactly their `ALTER TABLE` statements:
/// step 2 gives mailboxes `left_at`, step 3 gives messages `to_name` and
/// `from_name`, step 6 gives mailboxes their notify channel and target,
/// step 7 gives messages `subject`, step 8 gives mailboxes
/// `workspace_root`, and step 11 gives workspaces `commit_hash`. So these
/// steps run pairwise different SQL, and each column arrives with the
/// version that introduced it.
pub proof fn lemma_column_steps()
    ensures
        spec_step_sql(2) is Some && spec_step_sql(2).unwrap()@ == r#"
ALTER TABLE mailboxes ADD COLUMN left_at REAL DEFAULT NULL;
CREATE INDEX IF NOT EXISTS idx_mailboxes_left_at ON mailboxes(left_at);
"#@,
        spec_step_sql(3) is Some && spec_step_sql(3).unwrap()@ == r#"
ALTER TABLE messages ADD COLUMN to_name TEXT NOT NULL DEFAULT '';
ALTER TABLE messages ADD COLUMN from_name TEXT NOT NULL DEFAULT '';
"#@,
        spec_step_sql(6) is Some && spec_step_sql(6).unwrap()@ == r#"
ALTER TABLE mailboxes ADD COLUMN notify_channel TEXT NOT NULL DEFAULT '';
ALTER TABLE mailboxes ADD COLUMN notify_target TEXT NOT NULL DEFAULT '{}';
"#@,
        spec_step_sql(7) is Some && spec_step_sql(7).unwrap()@ == r#"
ALTER TABLE messages ADD COLUMN subject TEXT DEFAULT NULL;
"#@,
        spec_step_sql(8) is Some && spec_step_sql(8).unwrap()@ == r#"
ALTER TABLE mailboxes ADD COLUMN workspace_root TEXT NOT NULL DEFAULT '';
"#@,
        spec_step_sql(11) is Some && spec_step_sql(11).unwrap()@ == r#"
ALTER TABLE workspaces ADD COLUMN commit_hash TEXT DEFAULT NULL;
"#@,
        forall|a: u32, b: u32|
            is_column_step(a) && is_column_step(b) && a != b ==> #[trigger] spec_step_sql(a) != #[trigger] spec_step_sql(b),
{
    reveal_strlit(r#"
ALTER TABLE mailboxes ADD COLUMN left_at REAL DEFAULT NULL;
CREATE INDEX IF NOT EXISTS idx_mailboxes_left_at ON mailboxes(left_at);
"#);
    reveal_strlit(r#"
ALTER TABLE messages ADD COLUMN to_name TEXT NOT NULL DEFAULT '';
ALTER TABLE messages ADD COLUMN from_name TEXT NOT NULL DEFAULT '';
"#);
    reveal_strlit(r#"
ALTER TABLE mailboxes ADD COLUMN notify_channel TEXT NOT NULL DEFAULT '';
ALTER TABLE mailboxes ADD COLUMN notify_target TEXT NOT NULL DEFAULT '{}';
"#);
    reveal_strlit(r#"
ALTER TABLE messages ADD COLUMN subject TEXT DEFAULT NULL;
"#);
    reveal_strlit(r#"
ALTER TABLE mailboxes ADD COLUMN workspace_root TEXT NOT NULL DEFAULT '';
"#);
    reveal_strlit(r#"
ALTER TABLE workspaces ADD COLUMN commit_hash TEXT DEFAULT NULL;
"#);
}

/// Every step that a migration plan runs has its SQL.
pub proof fn lemma_planned_steps_have_sql(version: u32)
    ensures
        forall|i: int| 0 <= i < spec_plan(version).len() ==> spec_step_sql(#[trigger] spec_plan(version)[i]) is Some,
{
}

/// Migrating runs every missing step exactly once, in increasing order, and
/// migrating again runs nothing.
pub proof fn lemma_migration_idempotent(version: u32)
    ensures
        spec_plan(spec_version_after(version)).len() == 0,
        forall|i: int, j: int| 0 <= i < j < spec_plan(version).len() ==> spec_plan(version)[i] < spec_plan(version)[j],
        forall|k: u32| version < k <= CURRENT_VERSION ==> #[trigger] spec_plan(version).contains(k),
        forall|i: int| 0 <= i < spec_plan(version).len() ==> version < #[trigger] spec_plan(version)[i] <= CURRENT_VERSION,
        spec_version_after(version) >= CURRENT_VERSION,
{
    assert forall|k: u32| version < k <= CURRENT_VERSION implies #[trigger] spec_plan(version).contains(k) by {
        assert(spec_plan(version)[k - version - 1] == k);
    }
}

/// Whether the earlier store must create its base schema: only on a fresh
/// database (version 0).
pub fn legacy_needs_base_schema(user_version: u32) -> (r: bool)
    ensures
        r == (user_version < 1),
{
    user_version < 1
}

/// The `user_version` the earlier store sets, if it must raise it.
pub fn legacy_version_update(user_version: u32) -> (r: Option<u32>)
    ensures
        user_version < LEGACY_CURRENT_VERSION ==> r == Some(LEGACY_CURRENT_VERSION),
        user_version >= LEGACY_CURRENT_VERSION ==> r is None,
{
    if user_version < LEGACY_CURRENT_VERSION {
        Some(LEGACY_CURRENT_VERSION)
    } else {
        None
    }
}

} // verus!
