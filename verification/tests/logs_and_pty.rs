use opencode_desktop::logs::{bind_failure_reported, LogBuffer, LogStream, MAX_LOG_ENTRIES};
use opencode_desktop::pty::{no_such_pty, pty_failure, read_output_reply, PtyOp, Pties};

#[test]
fn log_entries_are_tagged_by_stream() {
    let mut log = LogBuffer::new();
    assert_eq!(log.len(), 0);
    assert_eq!(log.joined(), "");
    log.record(LogStream::Stdout, "listening\n");
    log.record(LogStream::Stderr, "warning\n");
    assert_eq!(log.len(), 2);
    assert_eq!(log.joined(), "[STDOUT] listening\n[STDERR] warning\n");
}

#[test]
fn log_keeps_only_newest_entries() {
    let mut log = LogBuffer::new();
    for i in 0..(MAX_LOG_ENTRIES + 5) {
        log.record(LogStream::Stdout, &format!("{i};"));
        assert!(log.len() <= MAX_LOG_ENTRIES);
    }
    assert_eq!(MAX_LOG_ENTRIES, 200);
    assert_eq!(log.len(), 200);
    let all = log.joined();
    assert!(all.starts_with("[STDOUT] 5;"));
    assert!(all.ends_with("[STDOUT] 204;"));
    assert!(!all.contains("[STDOUT] 4;"));
}

#[test]
fn bind_failure_is_recognised_in_logs() {
    assert!(bind_failure_reported("[STDERR] Failed to start server on port 10420\n"));
    assert!(bind_failure_reported("error: address already in use (os error 98)"));
    assert!(!bind_failure_reported("[STDOUT] opencode server listening"));
    assert!(!bind_failure_reported(""));
}

#[test]
fn pty_table_files_finds_and_removes_terminals() {
    let mut t: Pties<u32> = Pties::new();
    assert!(!t.contains("1"));
    t.insert("1".to_string(), 10);
    t.insert("2".to_string(), 20);
    assert_eq!(t.get("1"), Some(&10));
    assert_eq!(t.get("2"), Some(&20));
    t.insert("1".to_string(), 11);
    assert_eq!(t.get("1"), Some(&11));
    assert_eq!(t.remove("1"), Some(11));
    assert_eq!(t.get("1"), None);
    assert_eq!(t.remove("1"), None);
    assert_eq!(t.get("2"), Some(&20));
}

#[test]
fn pty_commands_report_unknown_ids() {
    let mut t: Pties<&str> = Pties::new();
    assert_eq!(t.handle_for("7"), Err("no such PTY id".to_string()));
    t.insert("7".to_string(), "handle");
    assert_eq!(t.handle_for("7"), Ok(&"handle"));
    assert_eq!(no_such_pty(), "no such PTY id");
}

#[test]
fn close_after_start_restores_table() {
    let mut t: Pties<u8> = Pties::new();
    t.insert("a".to_string(), 1);
    t.insert("b".to_string(), 2);
    assert_eq!(t.remove("b"), Some(2));
    assert!(!t.contains("b"));
    assert!(t.contains("a"));
}

#[test]
fn pty_failures_carry_their_detail() {
    assert_eq!(pty_failure(PtyOp::Spawn, "no binary"), "failed to spawn pty: no binary");
    assert_eq!(pty_failure(PtyOp::Write, "closed"), "failed to write: closed");
    assert_eq!(pty_failure(PtyOp::Resize, "bad size"), "failed to resize: bad size");
    assert_eq!(pty_failure(PtyOp::Read, "eof"), "failed to read: eof");
}

#[test]
fn read_output_reply_cases() {
    assert_eq!(read_output_reply(None), Ok(String::new()));
    assert_eq!(read_output_reply(Some(Ok("$ ".to_string()))), Ok("$ ".to_string()));
    assert_eq!(read_output_reply(Some(Err("broken pipe".to_string()))), Err("failed to read: broken pipe".to_string()));
}
