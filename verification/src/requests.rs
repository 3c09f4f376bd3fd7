//! The bodies and query strings the HTTP routes accept, and what a route
//! takes from each of them before it calls its handler.

use vstd::prelude::*;
use crate::messaging::{ask_content_type, done_uses_receipt, merge_choices, notify_enabled};

verus! {

/// A graph run submission: the run's spec as text.
#[derive(Debug)]
pub struct SubmitBody {
    pub spec: String,
}

/// An artifact a node reports as its output.
#[derive(Debug)]
pub struct GraphArtifactRef {
    pub artifact_type: String,
    pub schema_version: String,
    pub uri: String,
    pub checksum: String,
}

/// A verification claim a node reports: a command and how it ended.
#[derive(Debug)]
pub struct GraphClaim {
    pub command: String,
    pub exit_code: i32,
    pub stdout_ref: String,
    pub summary: String,
}

/// A node's heartbeat or result report.
#[derive(Debug)]
pub struct NodeBody {
    pub run_id: String,
    pub node_key: String,
    pub attempt: u32,
    pub result: String,
    pub changed_files: Vec<String>,
    pub output_artifacts: Vec<GraphArtifactRef>,
    pub verification_claims: Vec<GraphClaim>,
    pub blockers: Vec<String>,
}

/// A control request on a graph run (`pause`, `resume`, `cancel`).
#[derive(Debug)]
pub struct ControlBody {
    pub action: String,
}

/// The filter of a graph run listing.
#[derive(Debug)]
pub struct ListQuery {
    pub status: Option<String>,
}

/// The starting point of a graph event listing.
#[derive(Debug)]
pub struct EventsQuery {
    pub since: Option<i64>,
}

/// The query of the human inbox.
#[derive(Debug)]
pub struct HumanInboxQuery {
    pub all: bool,
}

/// A human read request; without an id the oldest unread message is read.
#[derive(Debug)]
pub struct HumanReadBody {
    pub message_id: Option<String>,
}

/// A human reply. `choice` is the single-choice field, `choices` the list.
#[derive(Debug)]
pub struct HumanReplyBody {
    pub message_id: String,
    pub body: String,
    pub choice: Option<String>,
    pub choices: Vec<String>,
    pub surface: String,
    pub external_event_id: Option<String>,
}

impl HumanReplyBody {
    /// The choices the reply carries: the list, then the single choice when
    /// both are given.
    pub fn selected_choices(self) -> (r: Vec<String>)
        ensures
            self.choice matches Some(c) ==> r@ == self.choices@.push(c),
            self.choice is None ==> r@ == self.choices@,
    {
        merge_choices(self.choices, self.choice)
    }
}

/// A human cancel of a pending question.
#[derive(Debug)]
pub struct HumanCancelBody {
    pub message_id: String,
    pub surface: String,
    pub external_event_id: Option<String>,
}

/// A human marking a message done.
#[derive(Debug)]
pub struct HumanDoneBody {
    pub message_id: String,
    pub surface: Option<String>,
    pub external_event_id: Option<String>,
}

impl HumanDoneBody {
    /// Whether the done is recorded as a receipt of an outside surface:
    /// both the surface and the outside event id are given.
    pub fn uses_receipt(&self) -> (r: bool)
        ensures
            r == (self.surface is Some && self.external_event_id is Some),
    {
        done_uses_receipt(&self.surface, &self.external_event_id)
    }
}

/// A surface acknowledging that a message was delivered to it.
#[derive(Debug)]
pub struct HumanDeliveryAckBody {
    pub message_id: String,
    pub surface: String,
}

/// A message a human sends.
#[derive(Debug)]
pub struct HumanSendBody {
    pub to: String,
    pub body: String,
    pub subject: Option<String>,
    pub surface: Option<String>,
    pub external_event_id: Option<String>,
}

/// An identity leave request; `purge` also removes the mailbox.
#[derive(Debug)]
pub struct IdLeaveBody {
    pub purge: bool,
    pub address: Option<String>,
}

/// A cleanup request; without `execute` it only reports.
#[derive(Debug)]
pub struct IdCleanupBody {
    pub execute: bool,
}

/// A browser joining as a participant.
#[derive(Debug)]
pub struct BrowserJoinBody {
    pub name: Option<String>,
    pub intro: Option<String>,
    pub workspace: Option<String>,
}

/// An update of the caller's plan; absent fields stay as they are.
#[derive(Debug)]
pub struct MemPlanUpdateBody {
    pub plan: Option<String>,
    pub context: Option<String>,
    pub status: Option<String>,
    pub summary: Option<String>,
}

/// A memory entry to add. `ty` is the entry type.
#[derive(Debug)]
pub struct MemAddBody {
    pub text: String,
    pub topic: String,
    pub ty: String,
    pub title: Option<String>,
    pub tags: Vec<String>,
}

/// A message to send.
#[derive(Debug)]
pub struct MsgSendBody {
    pub to: String,
    pub body: String,
    pub subject: Option<String>,
    pub files: Vec<String>,
    pub notify: Option<bool>,
    pub send_enter: Option<bool>,
    pub more: bool,
}

/// A reply to a message.
#[derive(Debug)]
pub struct MsgReplyBody {
    pub message_id: String,
    pub body: String,
    pub files: Vec<String>,
    pub notify: Option<bool>,
    pub send_enter: Option<bool>,
}

/// Marking a message done, with an optional closing reply.
#[derive(Debug)]
pub struct MsgDoneBody {
    pub message_id: Option<String>,
    pub body: Option<String>,
    pub files: Vec<String>,
}

/// The choices offered with a question.
#[derive(Debug)]
pub struct AskOptions {
    pub questions: Vec<String>,
    pub options: Vec<String>,
    pub recommended: Option<String>,
    pub single: bool,
    pub select_only: bool,
}

impl AskOptions {
    /// The content type of the question: an approval request when choices
    /// are offered, plain text otherwise.
    pub fn content_type(&self) -> (r: &'static str)
        ensures
            self.options@.len() == 0 ==> r@ == "text"@,
            self.options@.len() > 0 ==> r@ == "approval_request"@,
    {
        ask_content_type(self.options.len())
    }
}

/// A question to the human.
#[derive(Debug)]
pub struct MsgAskBody {
    pub message: String,
    pub questions: Vec<String>,
    pub options: AskOptions,
    pub wait: bool,
    pub timeout: Option<u64>,
    pub notify: Option<bool>,
}

impl MsgAskBody {
    /// Whether the human is notified: unless the request turns it off.
    pub fn notify_flag(&self) -> (r: bool)
        ensures
            r == (self.notify != Some(false)),
    {
        notify_enabled(self.notify)
    }
}

/// A read request; without an id the oldest unread message is read.
#[derive(Debug)]
pub struct MsgReadBody {
    pub message_id: Option<String>,
}

/// A wait for a reply or for new mail.
#[derive(Debug)]
pub struct MsgWaitBody {
    pub message_id: Option<String>,
    pub timeout: Option<u64>,
    pub since: Option<i64>,
}

/// A configuration value to set.
#[derive(Debug)]
pub struct ConfigSetBody {
    pub value: String,
}

} // verus!
