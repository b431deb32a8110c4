use ada_lib::persistence::SessionMeta;
use ada_lib::error::Error;
use ada_lib::session::{terminal_from_request, SessionRegistry};
use ada_lib::protocol::{CreateSessionRequest, DaemonEvent};
use ada_lib::time::Timestamp;
use ada_lib::types::{AgentStatus, CommandSpec, TerminalMode, TerminalStatus};

fn request(id: &str, is_main: bool) -> CreateSessionRequest {
    CreateSessionRequest {
        terminal_id: id.to_string(),
        project_id: "proj-a".to_string(),
        name: "n".to_string(),
        client_id: "shell".to_string(),
        working_dir: "/tmp".to_string(),
        branch: None,
        worktree_path: None,
        folder_path: None,
        is_main,
        mode: TerminalMode::Main,
        command: CommandSpec { command: "/bin/echo".to_string(), args: vec!["hi".to_string()], env: vec![] },
        cols: 80,
        rows: 24,
    }
}

fn at(secs: i64) -> Timestamp {
    Timestamp { secs, nanos: 0 }
}

fn registry_with(id: &str, is_main: bool) -> SessionRegistry<u32, u32, u32> {
    let mut reg = SessionRegistry::new();
    let t = terminal_from_request(&request(id, is_main), "/bin/bash", at(1));
    let info = reg.insert_session(t, 7, 8, 9, 80, 24).unwrap();
    assert_eq!(info.status, TerminalStatus::Running);
    reg
}

#[test]
fn create_then_get_reports_running() {
    let reg = registry_with("t1", true);
    let info = reg.get_session("t1").unwrap();
    assert_eq!(info.id, "t1");
    assert_eq!(info.project_id, "proj-a");
    assert_eq!(info.status, TerminalStatus::Running);
    assert_eq!(info.agent_status, AgentStatus::Idle);
    assert_eq!(info.shell.as_deref(), Some("/bin/bash"));
    assert_eq!(reg.list_sessions().len(), 1);
}

#[test]
fn close_then_get_is_not_found() {
    let mut reg = registry_with("t1", false);
    let closed = reg.close_session("t1").unwrap();
    assert_eq!(closed.terminal.status, TerminalStatus::Stopped);
    assert_eq!(closed.pty, Some(7));
    match closed.event {
        DaemonEvent::TerminalStatus { terminal_id, status, .. } => {
            assert_eq!(terminal_id, "t1");
            assert_eq!(status, TerminalStatus::Stopped);
        }
        _ => panic!("expected a status event"),
    }
    match reg.get_session("t1") {
        Err(Error::TerminalNotFound(id)) => assert_eq!(id, "t1"),
        _ => panic!("closed session still found"),
    }
    assert!(reg.list_sessions().is_empty());
}

#[test]
fn close_unknown_is_not_found() {
    let mut reg: SessionRegistry<u32, u32, u32> = SessionRegistry::new();
    assert!(matches!(reg.close_session("nope"), Err(Error::TerminalNotFound(_))));
}

#[test]
fn duplicate_create_is_refused() {
    let mut reg = registry_with("t1", false);
    let again = terminal_from_request(&request("t1", false), "/bin/zsh", at(2));
    match reg.insert_session(again, 1, 2, 3, 80, 24) {
        Err(e) => {
            assert!(matches!(e, Error::InvalidRequest(_)));
            assert_eq!(e.message(), "Invalid request: Terminal already exists: t1");
        }
        Ok(_) => panic!("second create accepted"),
    }
    assert_eq!(reg.len(), 1);
    assert_eq!(reg.get_session("t1").unwrap().shell.as_deref(), Some("/bin/bash"));
}

#[test]
fn main_session_cannot_be_closed_by_client() {
    let mut reg = registry_with("t4", true);
    match reg.close_terminal("t4") {
        Err(Error::InvalidRequest(m)) => assert_eq!(m, "Cannot close the main terminal"),
        _ => panic!("main terminal closed"),
    }
    let stopped = reg.mark_session_stopped("t4").unwrap();
    assert_eq!(stopped.status, TerminalStatus::Stopped);
    assert_eq!(stopped.pty, Some(7));
    assert_eq!(stopped.reader, Some(8));
    assert_eq!(reg.get_session("t4").unwrap().status, TerminalStatus::Stopped);
}

#[test]
fn client_close_of_other_session_removes_it() {
    let mut reg = registry_with("t3", false);
    assert!(reg.close_terminal("t3").is_ok());
    assert!(!reg.contains_session("t3"));
}

#[test]
fn stopped_session_has_no_terminal() {
    let mut reg = registry_with("t1", false);
    reg.mark_session_stopped("t1").unwrap();
    match reg.pty_handle("t1") {
        Err(Error::TerminalError(m)) => assert_eq!(m, "Terminal PTY is not running"),
        _ => panic!("stopped session still writable"),
    }
    assert!(matches!(reg.pty_handle("zz"), Err(Error::TerminalNotFound(_))));
}

#[test]
fn restart_keeps_identity_and_runs_again() {
    let mut reg = registry_with("t5", false);
    let phase1 = reg.begin_restart("t5", "/bin/zsh".to_string(), at(50)).unwrap();
    assert_eq!(phase1.pty, Some(7));
    assert_eq!(phase1.meta.terminal_id, "t5");
    assert_eq!(phase1.meta.scrollback_bytes, 0);
    assert_eq!(phase1.meta.ended_at, None);
    assert_eq!(phase1.meta.created_at, at(50));
    assert_eq!(reg.get_session("t5").unwrap().status, TerminalStatus::Stopped);
    let info = reg.complete_restart("t5", 17, 18).unwrap();
    assert_eq!(info.id, "t5");
    assert_eq!(info.status, TerminalStatus::Running);
    assert_eq!(info.shell.as_deref(), Some("/bin/zsh"));
    assert_eq!(*reg.pty_handle("t5").unwrap(), 17);
}

#[test]
fn switch_agent_changes_command_and_resets_status() {
    let mut reg = registry_with("t1", false);
    reg.update_agent_status("t1", AgentStatus::Working);
    assert_eq!(reg.get_session("t1").unwrap().agent_status, AgentStatus::Working);
    let cmd = CommandSpec { command: "codex".to_string(), args: vec![], env: vec![] };
    let phase1 = reg.begin_switch("t1", "codex".to_string(), cmd, "/bin/bash".to_string(), at(9)).unwrap();
    assert_eq!(phase1.meta.client_id, "codex");
    let info = reg.complete_switch("t1", 1, 2).unwrap();
    assert_eq!(info.client_id, "codex");
    assert_eq!(info.command.command, "codex");
    assert_eq!(info.agent_status, AgentStatus::Idle);
    assert_eq!(info.status, TerminalStatus::Running);
}

#[test]
fn restart_of_unknown_session_is_not_found() {
    let mut reg: SessionRegistry<u32, u32, u32> = SessionRegistry::new();
    assert!(matches!(reg.begin_restart("x", "/bin/sh".to_string(), at(0)), Err(Error::TerminalNotFound(_))));
    assert!(matches!(reg.complete_restart("x", 1, 2), Err(Error::TerminalNotFound(_))));
}

#[test]
fn reader_exit_marks_stopped_once_registered() {
    let mut reg = registry_with("t1", false);
    assert!(reg.reader_exited("other").is_none());
    let out = reg.reader_exited("t1").unwrap();
    assert_eq!(out.status, TerminalStatus::Stopped);
    assert_eq!(reg.get_session("t1").unwrap().status, TerminalStatus::Stopped);
}

#[test]
fn resize_records_new_size() {
    let mut reg = registry_with("t1", false);
    reg.set_size("t1", 100, 40);
    assert_eq!(*reg.persistence("t1").unwrap(), 9);
    assert!(matches!(reg.persistence("t2"), Err(Error::TerminalNotFound(_))));
}

#[test]
fn recovery_installs_running_or_stopped() {
    let mut reg: SessionRegistry<u32, u32, u32> = SessionRegistry::new();
    let t = terminal_from_request(&request("a", false), "/bin/bash", at(1));
    assert!(reg.install_recovered(t, Some((1, 2)), 3, 80, 24).is_none());
    let t2 = terminal_from_request(&request("b", false), "/bin/bash", at(1));
    assert!(reg.install_recovered(t2, None, 4, 80, 24).is_none());
    assert_eq!(reg.get_session("a").unwrap().status, TerminalStatus::Running);
    assert_eq!(reg.get_session("b").unwrap().status, TerminalStatus::Stopped);
    let t3 = terminal_from_request(&request("b", false), "/bin/bash", at(2));
    assert!(reg.install_recovered(t3, None, 5, 80, 24).is_some());
    assert_eq!(reg.len(), 2);
}

#[test]
fn updates_of_unknown_sessions_change_nothing() {
    let mut reg = registry_with("t1", false);
    reg.update_agent_status("ghost", AgentStatus::Permission);
    reg.set_size("ghost", 1, 1);
    assert!(reg.mark_session_stopped("ghost").is_err());
    let info = reg.get_session("t1").unwrap();
    assert_eq!(info.agent_status, AgentStatus::Idle);
    assert_eq!(info.status, TerminalStatus::Running);
    assert_eq!(reg.len(), 1);
}

#[test]
fn close_after_stop_still_removes() {
    let mut reg = registry_with("t1", false);
    reg.mark_session_stopped("t1").unwrap();
    let closed = reg.close_session("t1").unwrap();
    assert_eq!(closed.pty, None);
    assert_eq!(closed.reader, None);
    assert_eq!(closed.persistence, 9);
    assert_eq!(reg.len(), 0);
}

#[test]
fn ended_session_is_recovered_stopped() {
    let mut reg: SessionRegistry<u32, u32, u32> = SessionRegistry::new();
    let t = terminal_from_request(&request("e1", false), "/bin/bash", at(1));
    let mut meta = SessionMeta::for_terminal(&t, 80, 24);
    meta.mark_ended(at(2));
    let (replaced, unused) = reg.install_from_meta(&meta, Some((1, 2)), 3);
    assert!(replaced.is_none());
    assert_eq!(unused, Some((1, 2)));
    assert_eq!(reg.get_session("e1").unwrap().status, TerminalStatus::Stopped);
    assert!(reg.pty_handle("e1").is_err());
    let live = SessionMeta::for_terminal(&terminal_from_request(&request("e2", false), "/bin/bash", at(1)), 80, 24);
    let (_, unused) = reg.install_from_meta(&live, Some((4, 5)), 6);
    assert!(unused.is_none());
    assert_eq!(reg.get_session("e2").unwrap().status, TerminalStatus::Running);
}
