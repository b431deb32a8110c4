use ada_lib::persistence::{
    history_from_scrollback, rotated_scrollback, truncate_utf8_safe, ScrollbackLog, SessionMeta,
    FLUSH_EVERY_BYTES, KEEP_AFTER_ROTATE, MAX_SCROLLBACK_BYTES,
};
use ada_lib::session::terminal_from_request;
use ada_lib::protocol::CreateSessionRequest;
use ada_lib::time::Timestamp;
use ada_lib::types::{AgentStatus, CommandSpec, TerminalMode, TerminalStatus};

#[test]
fn limits_are_five_and_four_mebibytes() {
    assert_eq!(MAX_SCROLLBACK_BYTES, 5 * 1024 * 1024);
    assert_eq!(KEEP_AFTER_ROTATE, 4 * 1024 * 1024);
    assert_eq!(FLUSH_EVERY_BYTES, 4096);
}

#[test]
fn utf8_safe_cut_skips_continuation_bytes() {
    // "é" is 0xC3 0xA9: starting at the continuation byte skips it.
    let bytes = [0xA9u8, b'a', b'b'];
    assert_eq!(truncate_utf8_safe(&bytes), 1);
    assert_eq!(truncate_utf8_safe(b"abc"), 0);
    assert_eq!(truncate_utf8_safe(b""), 0);
    // Four continuation bytes: no cut within three bytes helps, keep all.
    let bad = [0x80u8, 0x80, 0x80, 0x80, 0x80];
    assert_eq!(truncate_utf8_safe(&bad), 0);
}

#[test]
fn rotation_keeps_the_tail() {
    let mut content = vec![b'x'; KEEP_AFTER_ROTATE + 10];
    content[9] = b'a';
    content[10] = b'b';
    let kept = rotated_scrollback(&content);
    assert_eq!(kept.len(), KEEP_AFTER_ROTATE);
    assert_eq!(kept[0], b'b');
    let short = rotated_scrollback(b"hello");
    assert_eq!(short, b"hello".to_vec());
}

#[test]
fn scrollback_stays_under_cap() {
    let mut log = ScrollbackLog::resume(MAX_SCROLLBACK_BYTES - 10);
    let data = vec![b'z'; 4096];
    assert!(log.needs_rotation(data.len()));
    let content = vec![b'y'; MAX_SCROLLBACK_BYTES - 10];
    let kept = log.rotate(&content);
    assert_eq!(kept.len(), KEEP_AFTER_ROTATE);
    assert!(log.accepts(data.len()));
    log.record_append(data.len());
    assert!(log.bytes_written() <= MAX_SCROLLBACK_BYTES);
    assert_eq!(log.bytes_written(), KEEP_AFTER_ROTATE + 4096);
}

#[test]
fn flush_every_four_kib() {
    let mut log = ScrollbackLog::new();
    assert!(!log.needs_rotation(100));
    assert!(!log.record_append(4000));
    assert!(log.record_append(96));
    assert!(!log.record_append(1));
    assert_eq!(log.bytes_written(), 4097);
    log.reset();
    assert_eq!(log.bytes_written(), 0);
}

#[test]
fn history_of_empty_scrollback_is_empty() {
    assert!(history_from_scrollback(String::new()).is_empty());
    assert_eq!(history_from_scrollback("hi\n".to_string()), vec!["hi\n".to_string()]);
}

fn request() -> CreateSessionRequest {
    CreateSessionRequest {
        terminal_id: "t6".into(),
        project_id: "p".into(),
        name: "n".into(),
        client_id: "shell".into(),
        working_dir: "/tmp".into(),
        branch: Some("main".into()),
        worktree_path: None,
        folder_path: Some("sub".into()),
        is_main: false,
        mode: TerminalMode::Folder,
        command: CommandSpec { command: "sleep".into(), args: vec!["100".into()], env: vec![("K".into(), "V".into())] },
        cols: 120,
        rows: 30,
    }
}

#[test]
fn meta_records_session_and_recovers_it() {
    let now = Timestamp { secs: 1000, nanos: 5 };
    let t = terminal_from_request(&request(), "/bin/bash", now);
    let mut meta = SessionMeta::for_terminal(&t, 120, 30);
    assert_eq!(meta.terminal_id, "t6");
    assert_eq!(meta.branch.as_deref(), Some("main"));
    assert_eq!(meta.last_activity, now);
    assert!(meta.should_respawn());
    let back = meta.recovered_terminal();
    assert_eq!(back.id, "t6");
    assert_eq!(back.folder_path.as_deref(), Some("sub"));
    assert_eq!(back.mode, TerminalMode::Folder);
    assert_eq!(back.command.env, vec![("K".to_string(), "V".to_string())]);
    assert_eq!(back.status, TerminalStatus::Stopped);
    assert_eq!(back.agent_status, AgentStatus::Idle);
    meta.record_activity(42, Timestamp { secs: 1001, nanos: 0 });
    assert_eq!(meta.scrollback_bytes, 42);
    meta.mark_ended(Timestamp { secs: 1002, nanos: 0 });
    assert!(!meta.should_respawn());
    meta.set_size(80, 24);
    assert_eq!((meta.cols, meta.rows), (80, 24));
}

#[test]
fn rotation_cuts_on_a_character_boundary() {
    // The kept tail would start inside a three-byte character (U+20AC is
    // E2 82 AC); the cut skips its two continuation bytes.
    let mut content = vec![b'a'; 3];
    content.extend_from_slice("\u{20AC}".as_bytes());
    content.extend(vec![b'b'; KEEP_AFTER_ROTATE - 2]);
    let kept = rotated_scrollback(&content);
    assert_eq!(kept.len(), KEEP_AFTER_ROTATE - 2);
    assert!(kept.iter().all(|b| *b == b'b'));
}

#[test]
fn scrollback_at_cap_rotates_only_past_it() {
    let log = ScrollbackLog::resume(MAX_SCROLLBACK_BYTES - 4);
    assert!(!log.needs_rotation(4));
    assert!(log.needs_rotation(5));
    assert!(!log.accepts(usize::MAX));
}

#[test]
fn flush_restarts_the_unflushed_count() {
    let mut log = ScrollbackLog::resume(10);
    assert!(!log.record_append(4095));
    assert!(log.record_append(1));
    assert!(!log.record_append(4095));
    assert!(log.record_append(5000));
    assert_eq!(log.bytes_written(), 10 + 4095 + 1 + 4095 + 5000);
}
