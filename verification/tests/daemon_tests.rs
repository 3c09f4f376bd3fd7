use agtalk::daemon::{build_status, pid_from_file, status, DaemonError, DaemonStatusFile};
use agtalk::decimal::{parse_u32, parse_u64, u32_to_decimal, u64_to_decimal};
use agtalk::proto::ServerMsg;

fn status_file(pid: u32, start_time: u64) -> DaemonStatusFile {
    DaemonStatusFile {
        pid,
        start_time,
        version: "0.1.0".to_string(),
        http_port: 19527,
        config_path: "/tmp/config.json".to_string(),
        db_path: "/tmp/agtalk.db".to_string(),
    }
}

#[test]
fn build_status_returns_live_metrics() {
    let status = build_status(Some(status_file(77, 1_000)), 1_060, 1, 0, 2);
    match status {
        ServerMsg::DaemonStatus {
            pid,
            start_time,
            version,
            http_port,
            uptime_seconds,
            active_mailboxes,
            pending_messages,
            sse_subscribers,
            config_path,
            db_path,
        } => {
            assert_eq!(pid, 77);
            assert_eq!(start_time, 1_000);
            assert_eq!(version, "0.1.0");
            assert_eq!(http_port, 19527);
            assert_eq!(uptime_seconds, 60);
            assert_eq!(active_mailboxes, 1);
            assert_eq!(pending_messages, 0);
            assert_eq!(sse_subscribers, 2);
            assert_eq!(config_path, "/tmp/config.json");
            assert_eq!(db_path, "/tmp/agtalk.db");
        }
        other => panic!("expected DaemonStatus, got {:?}", other),
    }
}

#[test]
fn build_status_clock_behind_start_gives_zero_uptime() {
    match build_status(Some(status_file(1, 500)), 100, 0, 0, 0) {
        ServerMsg::DaemonStatus { uptime_seconds, .. } => assert_eq!(uptime_seconds, 0),
        other => panic!("unexpected {:?}", other),
    }
}

#[test]
fn build_status_without_record_is_not_running() {
    match build_status(None, 100, 0, 0, 0) {
        ServerMsg::Error { code, message } => {
            assert_eq!(code, "daemon_not_running");
            assert_eq!(message, "daemon 未运行");
        }
        other => panic!("unexpected {:?}", other),
    }
}

#[test]
fn status_line_variants() {
    assert_eq!(status(true, Some(1234)), "running (pid 1234)");
    assert_eq!(status(true, None), "running");
    assert_eq!(status(false, Some(1234)), "stopped");
    assert_eq!(status(false, None), "stopped");
}

#[test]
fn pid_file_roundtrip_on_values() {
    for pid in [0u32, 7, 10, 4242, u32::MAX] {
        let text = u32_to_decimal(pid);
        assert_eq!(text, pid.to_string());
        assert_eq!(pid_from_file(&text), pid);
        assert_eq!(pid_from_file(&format!("  {}\n", text)), pid);
    }
}

#[test]
fn pid_file_garbage_reads_zero() {
    assert_eq!(pid_from_file(""), 0);
    assert_eq!(pid_from_file("abc"), 0);
    assert_eq!(pid_from_file("12a"), 0);
    assert_eq!(pid_from_file("4294967296"), 0);
    assert_eq!(pid_from_file("-1"), 0);
}

#[test]
fn decimal_parsing_bounds() {
    assert_eq!(parse_u32("4294967295"), Some(u32::MAX));
    assert_eq!(parse_u32("4294967296"), None);
    assert_eq!(parse_u32(""), None);
    assert_eq!(parse_u32("007"), Some(7));
    assert_eq!(parse_u32("+7"), Some(7));
    assert_eq!(parse_u32("+"), None);
    assert_eq!(parse_u64("18446744073709551615"), Some(u64::MAX));
    assert_eq!(parse_u64("18446744073709551616"), None);
    assert_eq!(u64_to_decimal(u64::MAX), u64::MAX.to_string());
    assert_eq!(u64_to_decimal(0), "0");
}

#[test]
fn daemon_error_messages() {
    assert_eq!(DaemonError::AlreadyRunning.message(), "daemon 已经在运行");
    assert_eq!(DaemonError::NotRunning.message(), "daemon 未运行");
    assert_eq!(DaemonError::Io("disk".to_string()).message(), "IO 错误: disk");
    assert_eq!(DaemonError::Storage("db".to_string()).message(), "存储错误: db");
    assert_eq!(DaemonError::Config("cfg".to_string()).message(), "配置错误: cfg");
    assert_eq!(DaemonError::Bind("port".to_string()).message(), "绑定端口失败: port");
}
