//! Daemon lifecycle logic: the status line, the pid file's content, the
//! persisted status record and the live status reply.

use vstd::prelude::*;
use crate::proto::{ServerMsg, err, is_error};
use crate::text::{trim_spec, parse_u32_spec, decimal};

verus! {

/// Why a daemon operation failed. The payload of the I/O-like variants is
/// the underlying error's message.
#[derive(Debug)]
pub enum DaemonError {
    AlreadyRunning,
    NotRunning,
    Io(String),
    Storage(String),
    Config(String),
    Bind(String),
}

impl DaemonError {
    /// The human-readable message of the error.
    pub open spec fn spec_message(&self) -> Seq<char> {
        match self {
            DaemonError::AlreadyRunning => "daemon 已经在运行"@,
            DaemonError::NotRunning => "daemon 未运行"@,
            DaemonError::Io(e) => "IO 错误: "@ + e@,
            DaemonError::Storage(e) => "存储错误: "@ + e@,
            DaemonError::Config(e) => "配置错误: "@ + e@,
            DaemonError::Bind(e) => "绑定端口失败: "@ + e@,
        }
    }

    /// The human-readable message of the error.
    pub fn message(&self) -> (r: String)
        ensures
            r@ == self.spec_message(),
    {
        let (prefix, detail) = match self {
            DaemonError::AlreadyRunning => { return String::from_str("daemon 已经在运行") },
            DaemonError::NotRunning => { return String::from_str("daemon 未运行") },
            DaemonError::Io(e) => ("IO 错误: ", e),
            DaemonError::Storage(e) => ("存储错误: ", e),
            DaemonError::Config(e) => ("配置错误: ", e),
            DaemonError::Bind(e) => ("绑定端口失败: ", e),
        };
        let mut s = String::from_str(prefix);
        s.append(detail.as_str());
        s
    }
}

/// The persisted record of a running daemon (`daemon.json`).
#[derive(Debug)]
pub struct DaemonStatusFile {
    pub pid: u32,
    pub start_time: u64,
    pub version: String,
    pub http_port: u16,
    pub config_path: String,
    pub db_path: String,
}

/// The status line: `running (pid N)` when the daemon runs and its pid file
/// reads back, `running` when it runs but the pid file does not, `stopped`
/// when it does not run.
pub open spec fn spec_status(running: bool, pid: Option<u32>) -> Seq<char> {
    if running {
        match pid {
            Some(p) => "running (pid "@ + decimal(p as nat) + ")"@,
            None => "running"@,
        }
    } else {
        "stopped"@
    }
}

/// The status line of the daemon (see `spec_status`), from whether the
/// daemon process is alive and what its pid file read back.
pub fn status(running: bool, pid: Option<u32>) -> (r: String)
    ensures
        r@ == spec_status(running, pid),
{
    if running {
        match pid {
            Some(p) => {
                let mut s = String::from_str("running (pid ");
                let n = crate::decimal::u32_to_decimal(p);
                s.append(n.as_str());
                s.append(")");
                s
            },
            None => String::from_str("running"),
        }
    } else {
        String::from_str("stopped")
    }
}

/// The pid that a pid file holds: its content trimmed and parsed, 0 when it
/// does not parse.
pub open spec fn spec_pid_from_file(content: Seq<char>, pid: u32) -> bool {
    exists|t: Seq<char>| #[trigger] trim_spec(content, t) && pid == match parse_u32_spec(t) {
        Some(p) => p,
        None => 0u32,
    }
}

/// Reads the pid out of a pid file's content (see `spec_pid_from_file`).
pub fn pid_from_file(content: &str) -> (r: u32)
    ensures
        spec_pid_from_file(content@, r),
{
    let t = crate::text::trim(content);
    match crate::decimal::parse_u32(t.as_str()) {
        Some(p) => p,
        None => 0,
    }
}

/// The daemon's pid written to its pid file reads back as that pid.
pub proof fn lemma_pid_file_roundtrip(pid: u32)
    ensures
        spec_pid_from_file(decimal(pid as nat), pid),
{
    let d = decimal(pid as nat);
    crate::decimal::lemma_parse_decimal_roundtrip(pid);
    lemma_decimal_untrimmed(pid as nat);
    assert(crate::text::is_trim_of(d, 0, d.len() as int));
    assert(d.subrange(0, d.len() as int) =~= d);
    assert(trim_spec(d, d));
}

proof fn lemma_decimal_untrimmed(n: nat)
    ensures
        forall|i: int| 0 <= i < decimal(n).len() ==> crate::text::is_digit(#[trigger] decimal(n)[i]),
        decimal(n).len() > 0,
    decreases n,
{
    if n >= 10 {
        lemma_decimal_untrimmed(n / 10);
        assert forall|i: int| 0 <= i < decimal(n).len() implies crate::text::is_digit(#[trigger] decimal(n)[i]) by {
            if i < decimal(n / 10).len() {
                assert(decimal(n)[i] == decimal(n / 10)[i]);
            } else {
                assert(((n % 10 + 48) as u32) as char as u32 == (n % 10 + 48) as u32);
            }
        }
    } else {
        assert(((n + 48) as u32) as char as u32 == (n + 48) as u32);
    }
}

/// Uptime in seconds: `now - start`, 0 if the clock is behind the start.
pub open spec fn spec_uptime(now: u64, start_time: u64) -> u64 {
    if now >= start_time {
        (now - start_time) as u64
    } else {
        0
    }
}

/// The live status reply: from the status record (none when the daemon does
/// not run), the clock and the live counters.
pub fn build_status(
    file: Option<DaemonStatusFile>,
    now: u64,
    active_mailboxes: u64,
    pending_messages: u64,
    sse_subscribers: u64,
) -> (r: ServerMsg)
    ensures
        file is None ==> is_error(r, "daemon_not_running"@, "daemon 未运行"@),
        file matches Some(f) ==> r == (ServerMsg::DaemonStatus {
            pid: f.pid,
            start_time: f.start_time,
            version: f.version,
            http_port: f.http_port,
            uptime_seconds: spec_uptime(now, f.start_time),
            active_mailboxes,
            pending_messages,
            sse_subscribers,
            config_path: f.config_path,
            db_path: f.db_path,
        }),
{
    match file {
        None => err("daemon_not_running", "daemon 未运行"),
        Some(f) => {
            let uptime_seconds = now.saturating_sub(f.start_time);
            ServerMsg::DaemonStatus {
                pid: f.pid,
                start_time: f.start_time,
                version: f.version,
                http_port: f.http_port,
                uptime_seconds,
                active_mailboxes,
                pending_messages,
                sse_subscribers,
                config_path: f.config_path,
                db_path: f.db_path,
            }
        },
    }
}

} // verus!
