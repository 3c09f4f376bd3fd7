//! The node-run state machine of graph runs: which reports a node accepts in
//! which state, what a failed verification leads to, how runs are controlled
//! and patched, and where a ready node is dispatched.

use vstd::prelude::*;
use crate::proto::{ServerMsg, CleanupItem, err, err_owned, is_error};
use crate::text::{join, join_spec, string_views, str_eq, contains_str};

verus! {

/// The states of one attempt of a graph node.
#[derive(Debug)]
pub enum NodeRunStatus {
    Pending,
    Dispatched,
    Running,
    Verifying,
    Succeeded,
    Failed,
    TimedOut,
    Blocked,
    Cancelled,
}

impl NodeRunStatus {
    /// The stored name of the state.
    pub open spec fn spec_name(&self) -> Seq<char> {
        match self {
            NodeRunStatus::Pending => "pending"@,
            NodeRunStatus::Dispatched => "dispatched"@,
            NodeRunStatus::Running => "running"@,
            NodeRunStatus::Verifying => "verifying"@,
            NodeRunStatus::Succeeded => "succeeded"@,
            NodeRunStatus::Failed => "failed"@,
            NodeRunStatus::TimedOut => "timed_out"@,
            NodeRunStatus::Blocked => "blocked"@,
            NodeRunStatus::Cancelled => "cancelled"@,
        }
    }

    /// The stored name of the state.
    pub fn as_str(&self) -> (r: &'static str)
        ensures
            r@ == self.spec_name(),
    {
        match self {
            NodeRunStatus::Pending => "pending",
            NodeRunStatus::Dispatched => "dispatched",
            NodeRunStatus::Running => "running",
            NodeRunStatus::Verifying => "verifying",
            NodeRunStatus::Succeeded => "succeeded",
            NodeRunStatus::Failed => "failed",
            NodeRunStatus::TimedOut => "timed_out",
            NodeRunStatus::Blocked => "blocked",
            NodeRunStatus::Cancelled => "cancelled",
        }
    }

    /// A finished attempt: it takes no further transition.
    pub open spec fn spec_is_terminal(&self) -> bool {
        match self {
            NodeRunStatus::Succeeded | NodeRunStatus::Failed | NodeRunStatus::TimedOut
            | NodeRunStatus::Cancelled => true,
            _ => false,
        }
    }

    /// A finished attempt: it takes no further transition.
    #[verifier::when_used_as_spec(spec_is_terminal)]
    pub fn is_terminal(&self) -> (r: bool)
        ensures
            r == self.spec_is_terminal(),
    {
        match self {
            NodeRunStatus::Succeeded | NodeRunStatus::Failed | NodeRunStatus::TimedOut
            | NodeRunStatus::Cancelled => true,
            _ => false,
        }
    }
}

/// What a heartbeat does to a node in a state that accepts one.
#[derive(Debug)]
pub enum HeartbeatStep {
    /// The first heartbeat: dispatched → running.
    StartRunning,
    /// A later heartbeat: the lease of the running node is renewed.
    RenewLease,
}

/// `prefix + name + suffix`.
fn framed(prefix: &str, name: &str, suffix: &str) -> (r: String)
    ensures
        r@ == prefix@ + name@ + suffix@,
{
    let mut s = String::from_str(prefix);
    s.append(name);
    s.append(suffix);
    s
}

/// The error for a report that the node's state does not accept.
pub open spec fn invalid_state_msg(status: NodeRunStatus, what: Seq<char>) -> Seq<char> {
    "节点状态 "@ + status.spec_name() + what
}

/// A heartbeat is accepted from a dispatched node (which starts running) and
/// from a running node (whose lease is renewed), refused from every other state.
pub fn heartbeat_step(status: &NodeRunStatus) -> (r: Result<HeartbeatStep, ServerMsg>)
    ensures
        r is Ok <==> node_step(*status, NodeEvent::Heartbeat) is Some,
        *status == NodeRunStatus::Dispatched ==> r == Ok::<HeartbeatStep, ServerMsg>(HeartbeatStep::StartRunning),
        *status == NodeRunStatus::Running ==> r == Ok::<HeartbeatStep, ServerMsg>(HeartbeatStep::RenewLease),
        !(*status == NodeRunStatus::Dispatched || *status == NodeRunStatus::Running) ==> (r matches Err(e)
            && is_error(e, "graph_invalid_node_state"@, invalid_state_msg(*status, " 不能上报 heartbeat"@))),
{
    match status {
        NodeRunStatus::Dispatched => Ok(HeartbeatStep::StartRunning),
        NodeRunStatus::Running => Ok(HeartbeatStep::RenewLease),
        _ => Err(
            err_owned(
                "graph_invalid_node_state",
                framed("节点状态 ", status.as_str(), " 不能上报 heartbeat"),
            ),
        ),
    }
}

/// The node state after a heartbeat has been applied.
pub open spec fn spec_after_heartbeat(s: NodeRunStatus) -> Option<NodeRunStatus> {
    match s {
        NodeRunStatus::Dispatched => Some(NodeRunStatus::Running),
        NodeRunStatus::Running => Some(NodeRunStatus::Running),
        _ => None,
    }
}

/// What a submitted result does to a running node.
#[derive(Debug)]
pub enum ResultStep {
    /// The agent reported blockers: running → blocked, recorded with this
    /// failure type and detail.
    Block { failure_type: String, detail: String },
    /// The result goes to verification: running → verifying.
    Verify,
}

/// A result is accepted only from a running node. With blockers the node
/// blocks (failure type `semantic_blocker`, the blockers joined by `; `);
/// otherwise it goes on to verification.
pub fn result_step(status: &NodeRunStatus, blockers: &Vec<String>) -> (r: Result<ResultStep, ServerMsg>)
    ensures
        *status != NodeRunStatus::Running ==> (r matches Err(e) && is_error(
            e,
            "graph_invalid_node_state"@,
            invalid_state_msg(*status, " 不能提交结果"@),
        )),
        r matches Ok(ResultStep::Block { .. }) ==> node_step(*status, NodeEvent::ResultBlocked) == Some(
            NodeRunStatus::Blocked,
        ),
        r matches Ok(ResultStep::Verify) ==> node_step(*status, NodeEvent::ResultSubmitted) == Some(
            NodeRunStatus::Verifying,
        ),
        *status == NodeRunStatus::Running && blockers@.len() > 0 ==> (r matches Ok(ResultStep::Block { failure_type, detail })
            && failure_type@ == "semantic_blocker"@ && detail@ == join_spec(string_views(blockers@), "; "@)),
        *status == NodeRunStatus::Running && blockers@.len() == 0 ==> r matches Ok(ResultStep::Verify),
{
    match status {
        NodeRunStatus::Running => {
            if blockers.len() > 0 {
                Ok(ResultStep::Block { failure_type: String::from_str("semantic_blocker"), detail: join(blockers, "; ") })
            } else {
                Ok(ResultStep::Verify)
            }
        },
        _ => Err(
            err_owned("graph_invalid_node_state", framed("节点状态 ", status.as_str(), " 不能提交结果")),
        ),
    }
}

/// One check made while verifying a node's result.
#[derive(Debug)]
pub struct VerifyCheck {
    pub verifier_type: String,
    pub rule: String,
    pub status: String,
    pub detail: String,
}

/// What a failed verification leads to.
#[derive(Debug)]
pub enum FailureAction {
    /// Another node repairs this one: no retry, the repair is dispatched.
    Repair,
    /// The failure is retryable and attempts are left: a new attempt.
    Retry { next_attempt: u32 },
    /// The node stays failed.
    Fail,
}

/// The outcome of a failed verification.
#[derive(Debug)]
pub struct FailurePlan {
    pub failure_type: String,
    pub detail: String,
    pub action: FailureAction,
}

/// The detail of the first failed check, if any.
pub open spec fn first_failed_detail(checks: Seq<VerifyCheck>) -> Option<Seq<char>>
    decreases checks.len(),
{
    if checks.len() == 0 {
        None
    } else if checks[0].status@ == "failed"@ {
        Some(checks[0].detail@)
    } else {
        first_failed_detail(checks.drop_first())
    }
}

/// The failure type recorded for a failed verification.
pub open spec fn spec_failure_type(reported: Option<Seq<char>>) -> Seq<char> {
    match reported {
        Some(t) => t,
        None => "contract_violation"@,
    }
}

/// The failure detail recorded for a failed verification.
pub open spec fn spec_failure_detail(checks: Seq<VerifyCheck>) -> Seq<char> {
    match first_failed_detail(checks) {
        Some(d) => d,
        None => "验证未通过"@,
    }
}

/// What a failed verification leads to: repair when another node declares
/// itself the repairer; a retry when the failure type is retryable and the
/// attempt is below the maximum; else the node stays failed.
pub open spec fn spec_failure_action(
    failure_type: Seq<char>,
    retryable: Seq<Seq<char>>,
    attempt: u32,
    max_attempts: u32,
    has_repair: bool,
) -> FailureAction {
    if has_repair {
        FailureAction::Repair
    } else if attempt < max_attempts && retryable.contains(failure_type) {
        FailureAction::Retry { next_attempt: (attempt + 1) as u32 }
    } else {
        FailureAction::Fail
    }
}

fn first_failed(checks: &Vec<VerifyCheck>) -> (r: Option<String>)
    ensures
        r matches Some(d) ==> first_failed_detail(checks@) == Some(d@),
        r is None ==> first_failed_detail(checks@) is None,
{
    let mut i: usize = 0;
    assert(checks@.skip(0) =~= checks@);
    while i < checks.len()
        invariant
            i <= checks@.len(),
            first_failed_detail(checks@) == first_failed_detail(checks@.skip(i as int)),
        decreases checks@.len() - i,
    {
        assert(checks@.skip(i as int).drop_first() =~= checks@.skip(i + 1));
        if str_eq(checks[i].status.as_str(), "failed") {
            return Some(String::from_str(checks[i].detail.as_str()));
        }
        i = i + 1;
    }
    None
}

/// Plans what a failed verification leads to (see `spec_failure_action`).
pub fn plan_failure(
    reported_type: Option<String>,
    checks: &Vec<VerifyCheck>,
    retryable: &Vec<String>,
    attempt: u32,
    max_attempts: u32,
    has_repair: bool,
) -> (r: FailurePlan)
    ensures
        r.failure_type@ == spec_failure_type(
            match reported_type {
                Some(t) => Some(t@),
                None => None,
            },
        ),
        r.detail@ == spec_failure_detail(checks@),
        r.action == spec_failure_action(r.failure_type@, string_views(retryable@), attempt, max_attempts, has_repair),
        has_repair ==> r.action == FailureAction::Repair,
        !has_repair && attempt < max_attempts && (exists|i: int| 0 <= i < retryable@.len() && #[trigger] retryable@[i]@ == r.failure_type@)
            ==> r.action == (FailureAction::Retry { next_attempt: (attempt + 1) as u32 }),
        !has_repair && (forall|i: int| 0 <= i < retryable@.len() ==> #[trigger] retryable@[i]@ != r.failure_type@)
            ==> r.action == FailureAction::Fail,
        !has_repair && attempt >= max_attempts ==> r.action == FailureAction::Fail,
{
    let failure_type = match reported_type {
        Some(t) => t,
        None => String::from_str("contract_violation"),
    };
    let detail = match first_failed(checks) {
        Some(d) => d,
        None => String::from_str("验证未通过"),
    };
    proof {
        lemma_retryable_anywhere(failure_type@, retryable@, attempt, max_attempts, has_repair);
    }
    let action = if has_repair {
        FailureAction::Repair
    } else if attempt < max_attempts && contains_str(retryable, failure_type.as_str()) {
        FailureAction::Retry { next_attempt: attempt + 1 }
    } else {
        FailureAction::Fail
    };
    FailurePlan { failure_type, detail, action }
}

/// A failure type is retried wherever it stands in the retryable list: with
/// no repairer and attempts left, a type equal to any entry of the list gets
/// the next attempt; a type equal to no entry, or no attempts left, fails
/// the node.
pub proof fn lemma_retryable_anywhere(
    failure_type: Seq<char>,
    retryable: Seq<String>,
    attempt: u32,
    max_attempts: u32,
    has_repair: bool,
)
    ensures
        forall|i: int|
            0 <= i < retryable.len() && #[trigger] retryable[i]@ == failure_type && !has_repair && attempt
                < max_attempts ==> spec_failure_action(failure_type, string_views(retryable), attempt, max_attempts, has_repair)
                == (FailureAction::Retry { next_attempt: (attempt + 1) as u32 }),
        !has_repair && (forall|i: int| 0 <= i < retryable.len() ==> #[trigger] retryable[i]@ != failure_type)
            ==> spec_failure_action(failure_type, string_views(retryable), attempt, max_attempts, has_repair)
            == FailureAction::Fail,
        !has_repair && attempt >= max_attempts ==> spec_failure_action(
            failure_type,
            string_views(retryable),
            attempt,
            max_attempts,
            has_repair,
        ) == FailureAction::Fail,
{
    assert forall|i: int|
        0 <= i < retryable.len() && #[trigger] retryable[i]@ == failure_type implies string_views(retryable).contains(
        failure_type,
    ) by {
        assert(string_views(retryable)[i] == failure_type);
    }
    if string_views(retryable).contains(failure_type) {
        let j = choose|j: int| 0 <= j < string_views(retryable).len() && string_views(retryable)[j] == failure_type;
        assert(retryable[j]@ == failure_type);
    }
}

/// Whether some node of the graph names `node_key` in its `on_failure` list,
/// i.e. is its repairer.
pub fn has_repair_node(on_failure_lists: &Vec<Vec<String>>, node_key: &str) -> (r: bool)
    ensures
        r == exists|i: int| 0 <= i < on_failure_lists@.len() && #[trigger] string_views(on_failure_lists@[i]@).contains(node_key@),
{
    let mut i: usize = 0;
    while i < on_failure_lists.len()
        invariant
            i <= on_failure_lists@.len(),
            forall|j: int| 0 <= j < i ==> !#[trigger] string_views(on_failure_lists@[j]@).contains(node_key@),
        decreases on_failure_lists@.len() - i,
    {
        if contains_str(&on_failure_lists[i], node_key) {
            return true;
        }
        i = i + 1;
    }
    false
}

/// After a repairer succeeds, a repaired node whose latest attempt failed or
/// timed out gets a new attempt.
pub fn needs_retry_after_repair(status: &NodeRunStatus) -> (r: bool)
    ensures
        r == (*status == NodeRunStatus::Failed || *status == NodeRunStatus::TimedOut),
{
    match status {
        NodeRunStatus::Failed | NodeRunStatus::TimedOut => true,
        _ => false,
    }
}

/// The status and message reported back for a failed verification. A retry
/// that did not create a new attempt (one already existed) reports a plain
/// failure.
pub fn failure_report(plan: &FailurePlan, retry_created: bool) -> (r: (String, String))
    ensures
        plan.action == FailureAction::Repair ==> r.0@ == "failed_repairing"@ && r.1@ == "验证失败（"@
            + plan.failure_type@ + "），进入修复流程"@,
        plan.action matches FailureAction::Retry { next_attempt } ==> (retry_created ==> r.0@
            == "retrying"@ && r.1@ == "验证失败（"@ + plan.failure_type@ + "），重试 attempt "@
            + crate::text::decimal(next_attempt as nat)),
        (plan.action == FailureAction::Fail || (plan.action is Retry && !retry_created)) ==> r.0@ == "failed"@
            && r.1@ == "验证失败（"@ + plan.failure_type@ + "）："@ + plan.detail@,
{
    match plan.action {
        FailureAction::Repair => (
            String::from_str("failed_repairing"),
            framed("验证失败（", plan.failure_type.as_str(), "），进入修复流程"),
        ),
        FailureAction::Retry { next_attempt } => {
            if retry_created {
                let mut m = framed("验证失败（", plan.failure_type.as_str(), "），重试 attempt ");
                let n = crate::decimal::u32_to_decimal(next_attempt);
                m.append(n.as_str());
                (String::from_str("retrying"), m)
            } else {
                let mut m = framed("验证失败（", plan.failure_type.as_str(), "）：");
                m.append(plan.detail.as_str());
                (String::from_str("failed"), m)
            }
        },
        FailureAction::Fail => {
            let mut m = framed("验证失败（", plan.failure_type.as_str(), "）：");
            m.append(plan.detail.as_str());
            (String::from_str("failed"), m)
        },
    }
}

/// The status and message reported for a result that passed verification.
pub fn verified_report() -> (r: (String, String))
    ensures
        r.0@ == "succeeded"@,
        r.1@ == "节点结果已通过验证（路径/artifact/schema）"@,
{
    (String::from_str("succeeded"), String::from_str("节点结果已通过验证（路径/artifact/schema）"))
}

/// The status and message reported when committing a writing node's
/// worktree failed after verification: the node is rolled back to failed
/// (failure type `workspace_failure`).
pub fn commit_failure_report(error: &str) -> (r: (String, String))
    ensures
        r.0@ == "failed"@,
        r.1@ == "worktree commit 失败，节点回滚 failed: "@ + error@,
{
    let mut m = String::from_str("worktree commit 失败，节点回滚 failed: ");
    m.append(error);
    (String::from_str("failed"), m)
}

/// The control actions on a graph run.
#[derive(Debug)]
pub enum ControlAction {
    Cancel,
    Pause,
    Resume,
}

impl ControlAction {
    /// The run status that the action leads to.
    pub open spec fn spec_resulting_status(&self) -> Seq<char> {
        match self {
            ControlAction::Cancel => "cancelled"@,
            ControlAction::Pause => "paused"@,
            ControlAction::Resume => "running"@,
        }
    }

    /// The run status that the action leads to.
    pub fn resulting_status(&self) -> (r: &'static str)
        ensures
            r@ == self.spec_resulting_status(),
    {
        match self {
            ControlAction::Cancel => "cancelled",
            ControlAction::Pause => "paused",
            ControlAction::Resume => "running",
        }
    }
}

/// Parses a control action: `cancel`, `pause` or `resume`; anything else is
/// refused with `graph_unknown_action`.
pub fn parse_control_action(action: &str) -> (r: Result<ControlAction, ServerMsg>)
    ensures
        action@ == "cancel"@ ==> r == Ok::<ControlAction, ServerMsg>(ControlAction::Cancel),
        action@ == "pause"@ ==> r == Ok::<ControlAction, ServerMsg>(ControlAction::Pause),
        action@ == "resume"@ ==> r == Ok::<ControlAction, ServerMsg>(ControlAction::Resume),
        !(action@ == "cancel"@ || action@ == "pause"@ || action@ == "resume"@) ==> (r matches Err(e)
            && is_error(e, "graph_unknown_action"@, "未知控制动作: "@ + action@)),
{
    proof {
        reveal_strlit("cancel");
        reveal_strlit("pause");
        reveal_strlit("resume");
        assert("pause"@.len() != "cancel"@.len());
        assert("resume"@[0] != "cancel"@[0]);
        assert("resume"@.len() != "pause"@.len());
    }
    if str_eq(action, "cancel") {
        Ok(ControlAction::Cancel)
    } else if str_eq(action, "pause") {
        Ok(ControlAction::Pause)
    } else if str_eq(action, "resume") {
        Ok(ControlAction::Resume)
    } else {
        let mut m = String::from_str("未知控制动作: ");
        m.append(action);
        Err(err_owned("graph_unknown_action", m))
    }
}

/// The reply to a control action that was carried out.
pub fn control_reply(run_id: &str, action: &str, done: &ControlAction) -> (r: ServerMsg)
    ensures
        r matches ServerMsg::GraphRunControlOk { run_id: rid, action: a, status } && rid@ == run_id@ && a@
            == action@ && status@ == done.spec_resulting_status(),
{
    ServerMsg::GraphRunControlOk {
        run_id: String::from_str(run_id),
        action: String::from_str(action),
        status: String::from_str(done.resulting_status()),
    }
}

/// The run event a control action appends.
pub open spec fn spec_control_event(a: ControlAction) -> Seq<char> {
    match a {
        ControlAction::Cancel => "graph_cancelled"@,
        ControlAction::Pause => "graph_paused"@,
        ControlAction::Resume => "graph_resumed"@,
    }
}

/// What a control action writes: the nodes moved to `cancelled` (positions
/// among the run's node attempts), the run's new status (set only when the
/// run is paused, for a resume; with the completion time, for a cancel), the
/// run event appended, and the reply.
#[derive(Debug)]
pub struct ControlPlan {
    pub cancel_nodes: Vec<usize>,
    pub run_status: String,
    pub only_if_paused: bool,
    pub sets_completed_at: bool,
    pub event_type: String,
    pub reply: ServerMsg,
}

/// Plans a control action on a run from the states of its node attempts.
pub fn control_plan(run_id: &str, action: &str, statuses: &Vec<NodeRunStatus>) -> (r: Result<ControlPlan, ServerMsg>)
    ensures
        !(action@ == "cancel"@ || action@ == "pause"@ || action@ == "resume"@) ==> (r matches Err(e)
            && is_error(e, "graph_unknown_action"@, "未知控制动作: "@ + action@)),
        (action@ == "cancel"@ || action@ == "pause"@ || action@ == "resume"@) ==> r is Ok,
        r matches Ok(p) ==> {
            let a = if action@ == "cancel"@ {
                ControlAction::Cancel
            } else if action@ == "pause"@ {
                ControlAction::Pause
            } else {
                ControlAction::Resume
            };
            &&& p.run_status@ == a.spec_resulting_status()
            &&& p.event_type@ == spec_control_event(a)
            &&& p.only_if_paused == (a == ControlAction::Resume)
            &&& p.sets_completed_at == (a == ControlAction::Cancel)
            &&& (a != ControlAction::Cancel ==> p.cancel_nodes@.len() == 0)
            &&& (a == ControlAction::Cancel ==> {
                &&& forall|k: int| 0 <= k < p.cancel_nodes@.len() ==> (#[trigger] p.cancel_nodes@[k] as int)
                    < statuses@.len() && !statuses@[p.cancel_nodes@[k] as int].spec_is_terminal()
                &&& forall|i: int| 0 <= i < statuses@.len() && !#[trigger] statuses@[i].spec_is_terminal()
                    ==> p.cancel_nodes@.contains(i as usize)
                &&& forall|k1: int, k2: int| 0 <= k1 < k2 < p.cancel_nodes@.len() ==> p.cancel_nodes@[k1]
                    < p.cancel_nodes@[k2]
            })
            &&& p.reply matches ServerMsg::GraphRunControlOk { run_id: rid, action: ac, status } && rid@ == run_id@
                && ac@ == action@ && status@ == a.spec_resulting_status()
        },
{
    let a = match parse_control_action(action) {
        Ok(a) => a,
        Err(e) => {
            return Err(e);
        },
    };
    let reply = control_reply(run_id, action, &a);
    match a {
        ControlAction::Cancel => Ok(ControlPlan {
            cancel_nodes: cancel_targets(statuses),
            run_status: String::from_str("cancelled"),
            only_if_paused: false,
            sets_completed_at: true,
            event_type: String::from_str("graph_cancelled"),
            reply,
        }),
        ControlAction::Pause => Ok(ControlPlan {
            cancel_nodes: Vec::new(),
            run_status: String::from_str("paused"),
            only_if_paused: false,
            sets_completed_at: false,
            event_type: String::from_str("graph_paused"),
            reply,
        }),
        ControlAction::Resume => Ok(ControlPlan {
            cancel_nodes: Vec::new(),
            run_status: String::from_str("running"),
            only_if_paused: true,
            sets_completed_at: false,
            event_type: String::from_str("graph_resumed"),
            reply,
        }),
    }
}

/// The state of a node after its run is cancelled.
pub open spec fn spec_cancelled(s: NodeRunStatus) -> NodeRunStatus {
    if s.spec_is_terminal() {
        s
    } else {
        NodeRunStatus::Cancelled
    }
}

/// The positions of the nodes that cancelling the run moves to `cancelled`:
/// exactly those not yet finished, in order.
pub fn cancel_targets(statuses: &Vec<NodeRunStatus>) -> (r: Vec<usize>)
    ensures
        forall|k: int| 0 <= k < r@.len() ==> (#[trigger] r@[k] as int) < statuses@.len() && !statuses@[r@[k] as int].spec_is_terminal(),
        forall|i: int| 0 <= i < statuses@.len() && !#[trigger] statuses@[i].spec_is_terminal() ==> r@.contains(i as usize),
        forall|k1: int, k2: int| 0 <= k1 < k2 < r@.len() ==> r@[k1] < r@[k2],
{
    let mut out: Vec<usize> = Vec::new();
    let mut i: usize = 0;
    while i < statuses.len()
        invariant
            i <= statuses@.len(),
            forall|k: int| 0 <= k < out@.len() ==> (#[trigger] out@[k] as int) < i && !statuses@[out@[k] as int].spec_is_terminal(),
            forall|j: int| 0 <= j < i && !#[trigger] statuses@[j].spec_is_terminal() ==> out@.contains(j as usize),
            forall|k1: int, k2: int| 0 <= k1 < k2 < out@.len() ==> out@[k1] < out@[k2],
        decreases statuses@.len() - i,
    {
        if !statuses[i].is_terminal() {
            let ghost prev = out@;
            out.push(i);
            assert forall|j: int| 0 <= j < i + 1 && !#[trigger] statuses@[j].spec_is_terminal() implies out@.contains(j as usize) by {
                if j < i {
                    assert(prev.contains(j as usize));
                    let k = choose|k: int| 0 <= k < prev.len() && prev[k] == j as usize;
                    assert(out@[k] == j as usize);
                } else {
                    assert(out@[prev.len() as int] == i);
                }
            }
        }
        i = i + 1;
    }
    out
}

/// Cancelling a run leaves every node finished, and leaves the nodes that
/// were already finished as they were.
pub proof fn lemma_cancel_finishes_all(statuses: Seq<NodeRunStatus>)
    ensures
        forall|i: int| 0 <= i < statuses.len() ==> (#[trigger] spec_cancelled(statuses[i])).spec_is_terminal(),
        forall|i: int| 0 <= i < statuses.len() && statuses[i].spec_is_terminal() ==> #[trigger] spec_cancelled(statuses[i]) == statuses[i],
{
}

/// A retry never goes beyond the maximum number of attempts.
pub proof fn lemma_retry_within_max(
    failure_type: Seq<char>,
    retryable: Seq<Seq<char>>,
    attempt: u32,
    max_attempts: u32,
    has_repair: bool,
)
    ensures
        spec_failure_action(failure_type, retryable, attempt, max_attempts, has_repair) matches FailureAction::Retry { next_attempt }
            ==> next_attempt == attempt + 1 && next_attempt <= max_attempts,
        has_repair ==> spec_failure_action(failure_type, retryable, attempt, max_attempts, has_repair) == FailureAction::Repair,
        !retryable.contains(failure_type) && !has_repair ==> spec_failure_action(failure_type, retryable, attempt, max_attempts, has_repair) == FailureAction::Fail,
{
}

/// A node accepts heartbeats from the moment it is dispatched until it stops
/// running; a repeated heartbeat keeps it running.
pub proof fn lemma_heartbeat_idempotent(s: NodeRunStatus)
    ensures
        spec_after_heartbeat(s) matches Some(t) ==> t == NodeRunStatus::Running && spec_after_heartbeat(t) == Some(
            NodeRunStatus::Running,
        ),
        s.spec_is_terminal() ==> spec_after_heartbeat(s) is None,
{
}

/// What happens to one attempt of a node.
#[derive(Debug)]
pub enum NodeEvent {
    /// The node is handed to its participant.
    Dispatch,
    /// The participant reports that it works on the node.
    Heartbeat,
    /// The participant submits a result with blockers.
    ResultBlocked,
    /// The participant submits a result without blockers.
    ResultSubmitted,
    /// The result passed verification and, for a writing node, its
    /// worktree was committed.
    VerifyPassed,
    /// The result failed verification, or its worktree commit failed.
    VerifyFailed,
    /// The run is cancelled.
    Cancel,
}

/// The node-run state machine: the state after an event, or `None` where
/// the state does not accept the event (the report is refused).
pub open spec fn node_step(s: NodeRunStatus, e: NodeEvent) -> Option<NodeRunStatus> {
    match e {
        NodeEvent::Dispatch => if s == NodeRunStatus::Pending {
            Some(NodeRunStatus::Dispatched)
        } else {
            None
        },
        NodeEvent::Heartbeat => spec_after_heartbeat(s),
        NodeEvent::ResultBlocked => if s == NodeRunStatus::Running {
            Some(NodeRunStatus::Blocked)
        } else {
            None
        },
        NodeEvent::ResultSubmitted => if s == NodeRunStatus::Running {
            Some(NodeRunStatus::Verifying)
        } else {
            None
        },
        NodeEvent::VerifyPassed => if s == NodeRunStatus::Verifying {
            Some(NodeRunStatus::Succeeded)
        } else {
            None
        },
        NodeEvent::VerifyFailed => if s == NodeRunStatus::Verifying {
            Some(NodeRunStatus::Failed)
        } else {
            None
        },
        NodeEvent::Cancel => Some(spec_cancelled(s)),
    }
}

/// A finished attempt stays as it is: it accepts no report, and cancelling
/// the run leaves it unchanged.
pub proof fn lemma_finished_attempt_is_final(s: NodeRunStatus, e: NodeEvent)
    requires
        s.spec_is_terminal(),
    ensures
        node_step(s, e) is None || node_step(s, e) == Some(s),
{
}

/// An attempt succeeds only from verification, on a passed verification;
/// it reaches verification only from running, on a result without blockers.
pub proof fn lemma_success_needs_verification(s: NodeRunStatus, e: NodeEvent)
    ensures
        node_step(s, e) == Some(NodeRunStatus::Succeeded) && s != NodeRunStatus::Succeeded ==> s
            == NodeRunStatus::Verifying && e == NodeEvent::VerifyPassed,
        node_step(s, e) == Some(NodeRunStatus::Verifying) ==> s == NodeRunStatus::Running && e
            == NodeEvent::ResultSubmitted,
{
}

/// Every state that has not finished can still be finished: cancelling
/// moves it to `cancelled`.
pub proof fn lemma_unfinished_can_finish(s: NodeRunStatus)
    requires
        !s.spec_is_terminal(),
    ensures
        node_step(s, NodeEvent::Cancel) == Some(NodeRunStatus::Cancelled),
{
}

/// A finished run: `completed`, `failed` or `cancelled`.
pub open spec fn is_finished_run(status: Seq<char>) -> bool {
    status == "completed"@ || status == "failed"@ || status == "cancelled"@
}

/// Whether a run in the given status may be patched: only a `paused` or a
/// `ready` run. A finished run is refused with `graph_patch_terminal`, a
/// running one with `graph_patch_running`, any other with
/// `graph_patch_invalid_state`.
pub fn patch_gate(status: &str) -> (r: Result<(), ServerMsg>)
    ensures
        r is Ok <==> (status@ == "paused"@ || status@ == "ready"@),
        is_finished_run(status@) ==> (r matches Err(e) && is_error(
            e,
            "graph_patch_terminal"@,
            "图已 "@ + status@ + "，不能 patch"@,
        )),
        status@ == "running"@ ==> (r matches Err(e) && is_error(
            e,
            "graph_patch_running"@,
            "运行中的图不能 patch（先 pause 或 cancel）"@,
        )),
        !(is_finished_run(status@) || status@ == "running"@ || status@ == "paused"@ || status@ == "ready"@)
            ==> (r matches Err(e) && is_error(
            e,
            "graph_patch_invalid_state"@,
            "图状态 "@ + status@ + " 不能 patch（仅 paused/ready 可 patch）"@,
        )),
{
    proof {
        reveal_strlit("completed");
        reveal_strlit("failed");
        reveal_strlit("cancelled");
        reveal_strlit("running");
        reveal_strlit("paused");
        reveal_strlit("ready");
        assert("paused"@[0] != "failed"@[0]);
        assert("paused"@[0] != "cancelled"@[0]);
        assert("paused"@[0] != "completed"@[0]);
        assert("paused"@.len() != "running"@.len());
        assert("ready"@.len() != "failed"@.len());
        assert("ready"@.len() != "cancelled"@.len());
        assert("ready"@.len() != "completed"@.len());
        assert("ready"@.len() != "running"@.len());
    }
    if str_eq(status, "completed") || str_eq(status, "failed") || str_eq(status, "cancelled") {
        return Err(err_owned("graph_patch_terminal", framed("图已 ", status, "，不能 patch")));
    }
    if str_eq(status, "running") {
        return Err(err("graph_patch_running", "运行中的图不能 patch（先 pause 或 cancel）"));
    }
    if str_eq(status, "paused") || str_eq(status, "ready") {
        return Ok(());
    }
    Err(err_owned("graph_patch_invalid_state", framed("图状态 ", status, " 不能 patch（仅 paused/ready 可 patch）")))
}

/// The reply to a patch that was applied.
pub fn patch_reply(run_id: &str) -> (r: ServerMsg)
    ensures
        r matches ServerMsg::GraphRunControlOk { run_id: rid, action, status } && rid@ == run_id@ && action@
            == "patch"@ && status@ == "patched"@,
{
    ServerMsg::GraphRunControlOk {
        run_id: String::from_str(run_id),
        action: String::from_str("patch"),
        status: String::from_str("patched"),
    }
}

/// What sending a node to its participant writes: one message of content
/// type `graph_dispatch` with subject `[graph] <node_key>`, one assignment
/// row of kind `dispatch` tying the node run to that message, and one
/// `assignment_dispatched` event of the node.
#[derive(Debug)]
pub struct DispatchSend {
    pub content_type: String,
    pub subject: String,
    pub assignment_kind: String,
    pub event_type: String,
}

/// `d` is the dispatch of the node `node_key`.
pub open spec fn is_dispatch_send(d: DispatchSend, node_key: Seq<char>) -> bool {
    &&& d.content_type@ == "graph_dispatch"@
    &&& d.subject@ == "[graph] "@ + node_key
    &&& d.assignment_kind@ == "dispatch"@
    &&& d.event_type@ == "assignment_dispatched"@
}

/// The dispatch of a node to its single active mailbox.
pub fn dispatch_send(node_key: &str) -> (r: DispatchSend)
    ensures
        is_dispatch_send(r, node_key@),
{
    DispatchSend {
        content_type: String::from_str("graph_dispatch"),
        subject: dispatch_subject(node_key),
        assignment_kind: String::from_str("dispatch"),
        event_type: String::from_str("assignment_dispatched"),
    }
}

/// Where a ready node goes.
#[derive(Debug)]
pub enum DispatchPlan {
    /// An approval node: handed to the human approval flow.
    Approval,
    /// The node cannot be dispatched and blocks.
    Block { failure_type: String, detail: String },
    /// The single active mailbox of the participant receives it.
    Send(DispatchSend),
}

/// Plans the dispatch of a ready node from its participant and the number of
/// active mailboxes that the participant name resolves to.
pub fn plan_dispatch(node_key: &str, participant: Option<&str>, is_approval: bool, active_mailboxes: usize) -> (r: DispatchPlan)
    ensures
        participant is None && is_approval ==> r == DispatchPlan::Approval,
        participant is None && !is_approval ==> (r matches DispatchPlan::Block { failure_type, detail }
            && failure_type@ == "no_participant"@ && detail@
            == "节点未指定 participant（M1 暂不支持 Runtime 自执行 deterministic 节点）"@),
        participant matches Some(p) ==> (active_mailboxes == 0 ==> (r matches DispatchPlan::Block { failure_type, detail }
            && failure_type@ == "participant_offline"@ && detail@ == "participant '"@ + p@ + "' 不在线"@)),
        participant is Some ==> (active_mailboxes == 1 ==> (r matches DispatchPlan::Send(d) && is_dispatch_send(d, node_key@))),
        participant matches Some(p) ==> (active_mailboxes > 1 ==> (r matches DispatchPlan::Block { failure_type, detail }
            && failure_type@ == "participant_ambiguous"@ && detail@ == "participant '"@ + p@
            + "' 有多个活跃 mailbox，无法消歧"@)),
{
    match participant {
        None => {
            if is_approval {
                DispatchPlan::Approval
            } else {
                DispatchPlan::Block {
                    failure_type: String::from_str("no_participant"),
                    detail: String::from_str(
                        "节点未指定 participant（M1 暂不支持 Runtime 自执行 deterministic 节点）",
                    ),
                }
            }
        },
        Some(p) => {
            if active_mailboxes == 0 {
                DispatchPlan::Block {
                    failure_type: String::from_str("participant_offline"),
                    detail: framed("participant '", p, "' 不在线"),
                }
            } else if active_mailboxes == 1 {
                DispatchPlan::Send(dispatch_send(node_key))
            } else {
                DispatchPlan::Block {
                    failure_type: String::from_str("participant_ambiguous"),
                    detail: framed("participant '", p, "' 有多个活跃 mailbox，无法消歧"),
                }
            }
        },
    }
}

/// Whether a dispatched node gets an isolated worktree.
#[derive(Debug)]
pub enum WorkspacePlan {
    /// The node writes nothing: no worktree.
    NotNeeded,
    /// The run has no repository: no worktree, a `workspace_skipped` event.
    SkipNoRepository,
    /// A worktree on `base` (the run's base revision, `HEAD` when unknown).
    Ensure { base: String },
}

/// Plans the worktree of a dispatched node.
pub fn plan_workspace(writes_paths: bool, repository: Option<&str>, base_revision: Option<&str>) -> (r: WorkspacePlan)
    ensures
        !writes_paths ==> r == WorkspacePlan::NotNeeded,
        writes_paths && (repository is None || repository.unwrap()@.len() == 0) ==> r
            == WorkspacePlan::SkipNoRepository,
        writes_paths && repository is Some && repository.unwrap()@.len() > 0 ==> (r matches WorkspacePlan::Ensure { base }
            && base@ == match base_revision {
            Some(b) => b@,
            None => "HEAD"@,
        }),
{
    if !writes_paths {
        return WorkspacePlan::NotNeeded;
    }
    let repo_empty = match repository {
        None => true,
        Some(r) => crate::text::is_empty(r),
    };
    if repo_empty {
        return WorkspacePlan::SkipNoRepository;
    }
    match base_revision {
        Some(b) => WorkspacePlan::Ensure { base: String::from_str(b) },
        None => WorkspacePlan::Ensure { base: String::from_str("HEAD") },
    }
}

/// The subject of a dispatch message: `[graph] <node_key>`.
pub fn dispatch_subject(node_key: &str) -> (r: String)
    ensures
        r@ == "[graph] "@ + node_key@,
{
    let mut s = String::from_str("[graph] ");
    s.append(node_key);
    s
}

/// The reply to a node report that was applied.
pub fn node_report_ok(run_id: &str, node_key: &str, attempt: u32, status: String, message: String) -> (r: ServerMsg)
    ensures
        r matches ServerMsg::GraphNodeReportOk { run_id: rid, node_key: nk, attempt: a, status: st, message: m }
            && rid@ == run_id@ && nk@ == node_key@ && a == attempt && st == status && m == message,
{
    ServerMsg::GraphNodeReportOk {
        run_id: String::from_str(run_id),
        node_key: String::from_str(node_key),
        attempt,
        status,
        message,
    }
}

/// The reply to an accepted heartbeat.
pub fn heartbeat_report(run_id: &str, node_key: &str, attempt: u32) -> (r: ServerMsg)
    ensures
        r matches ServerMsg::GraphNodeReportOk { run_id: rid, node_key: nk, attempt: a, status: st, message: m }
            && rid@ == run_id@ && nk@ == node_key@ && a == attempt && st@ == "running"@ && m@
            == "heartbeat 已记录"@,
{
    node_report_ok(
        run_id,
        node_key,
        attempt,
        String::from_str("running"),
        String::from_str("heartbeat 已记录"),
    )
}

/// The reply when the reported attempt of the node does not exist.
pub fn node_not_found() -> (r: ServerMsg)
    ensures
        is_error(r, "graph_node_not_found"@, "节点不存在"@),
{
    err("graph_node_not_found", "节点不存在")
}

/// The reply to a result whose blockers blocked the node.
pub fn blocked_report(run_id: &str, node_key: &str, attempt: u32) -> (r: ServerMsg)
    ensures
        r matches ServerMsg::GraphNodeReportOk { run_id: rid, node_key: nk, attempt: a, status: st, message: m }
            && rid@ == run_id@ && nk@ == node_key@ && a == attempt && st@ == "blocked"@ && m@
            == "已记录 blocker，节点阻塞"@,
{
    node_report_ok(
        run_id,
        node_key,
        attempt,
        String::from_str("blocked"),
        String::from_str("已记录 blocker，节点阻塞"),
    )
}

/// The kinds of graph-store failure that replies tell apart.
#[derive(Debug)]
pub enum GraphErrorKind {
    /// The database failed.
    Sqlite,
    /// A stored JSON document did not read.
    Json,
    /// Any other failure of the graph store.
    Other,
}

/// The reply for a graph-store failure: `graph_db_error`, `graph_json_error`
/// or `graph_error`, with the failure's message.
pub fn graph_error_msg(kind: &GraphErrorKind, message: String) -> (r: ServerMsg)
    ensures
        *kind == GraphErrorKind::Sqlite ==> is_error(r, "graph_db_error"@, message@),
        *kind == GraphErrorKind::Json ==> is_error(r, "graph_json_error"@, message@),
        *kind == GraphErrorKind::Other ==> is_error(r, "graph_error"@, message@),
{
    match kind {
        GraphErrorKind::Sqlite => err_owned("graph_db_error", message),
        GraphErrorKind::Json => err_owned("graph_json_error", message),
        GraphErrorKind::Other => err_owned("graph_error", message),
    }
}

} // verus!
