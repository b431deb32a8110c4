use ada_lib::error::Error;
use ada_lib::notification::{agent_status_for_event, hook_events, AgentEventQuery};
use ada_lib::protocol::{
    history_response, request_kind, request_of, session_response, stopped_response, unit_response,
    DaemonEvent, DaemonMessage, DaemonRequest, DaemonResponse, RuntimeConfig, RuntimeSettings,
};
use ada_lib::types::{AgentStatus, TerminalStatus};

fn query(event: &str, agent: Option<&str>) -> AgentEventQuery {
    AgentEventQuery {
        terminal_id: "t2".to_string(),
        event: event.to_string(),
        agent: agent.map(|a| a.to_string()),
        project_id: None,
        payload: None,
    }
}

#[test]
fn start_hook_emits_raw_event_then_working() {
    let events = hook_events(query("Start", Some("codex")));
    assert_eq!(events.len(), 2);
    match &events[0] {
        DaemonEvent::HookEvent { terminal_id, project_id, agent, event, payload } => {
            assert_eq!(terminal_id, "t2");
            assert_eq!(agent, "codex");
            assert_eq!(event, "Start");
            assert!(project_id.is_none());
            assert!(payload.is_none());
        }
        _ => panic!("first event is not the raw hook event"),
    }
    match &events[1] {
        DaemonEvent::AgentStatus { terminal_id, status } => {
            assert_eq!(terminal_id, "t2");
            assert_eq!(*status, AgentStatus::Working);
        }
        _ => panic!("second event is not a status"),
    }
}

#[test]
fn stop_and_permission_hooks_map_to_status() {
    assert_eq!(agent_status_for_event("Stop"), Some(AgentStatus::Idle));
    assert_eq!(agent_status_for_event("Permission"), Some(AgentStatus::Permission));
    assert_eq!(agent_status_for_event("Start"), Some(AgentStatus::Working));
    assert_eq!(agent_status_for_event("start"), None);
    assert_eq!(hook_events(query("Permission", None)).len(), 2);
}

#[test]
fn unknown_hook_emits_only_raw_event_with_unknown_agent() {
    let mut q = query("ToolUse", None);
    q.payload = Some("{\"x\":1}".to_string());
    q.project_id = Some("proj-b".to_string());
    let events = hook_events(q);
    assert_eq!(events.len(), 1);
    match &events[0] {
        DaemonEvent::HookEvent { agent, payload, project_id, .. } => {
            assert_eq!(agent, "unknown");
            assert_eq!(payload.as_deref(), Some("{\"x\":1}"));
            assert_eq!(project_id.as_deref(), Some("proj-b"));
        }
        _ => panic!("expected the raw hook event"),
    }
}

#[test]
fn request_kinds_use_wire_names() {
    assert_eq!(request_kind(&DaemonRequest::Ping), "ping");
    assert_eq!(request_kind(&DaemonRequest::GetHistory { terminal_id: "x".into() }), "get_history");
    assert_eq!(request_kind(&DaemonRequest::SetShellOverride { shell: None }), "set_shell_override");
    assert_eq!(request_kind(&DaemonRequest::CloseSession { terminal_id: "x".into() }), "close_session");
}

#[test]
fn error_messages_name_their_kind() {
    assert_eq!(Error::TerminalNotFound("t1".into()).message(), "Terminal not found: t1");
    assert_eq!(Error::IoError("disk".into()).message(), "IO error: disk");
    assert_eq!(Error::ConfigError("x".into()).message(), "Configuration error: x");
    assert_eq!(Error::SerializationError("y".into()).message(), "Serialization error: y");
    assert_eq!(Error::TerminalError("z".into()).message(), "Terminal error: z");
    assert_eq!(Error::ClientNotFound("c".into()).message(), "Client not found: c");
    assert_eq!(Error::WorktreeError("w".into()).message(), "Worktree error: w");
    assert_eq!(Error::GitError("g".into()).message(), "Git error: g");
    assert_eq!(Error::ProjectNotFound("p".into()).message(), "Project not found: p");
    assert_eq!(Error::InvalidRequest("bad".into()).message(), "Invalid request: bad");
}

#[test]
fn responses_follow_outcomes() {
    match session_response(Err(Error::TerminalNotFound("t1".into()))) {
        DaemonResponse::Error { message } => assert_eq!(message, "Terminal not found: t1"),
        _ => panic!("expected an error response"),
    }
    assert!(matches!(unit_response(Ok(())), DaemonResponse::Done));
    match history_response("t1".into(), Ok(vec!["hi".into()])) {
        DaemonResponse::History { terminal_id, history } => {
            assert_eq!(terminal_id, "t1");
            assert_eq!(history, vec!["hi".to_string()]);
        }
        _ => panic!("expected history"),
    }
    match stopped_response("t4".into(), Ok(TerminalStatus::Stopped)) {
        DaemonResponse::TerminalStatusResponse { terminal_id, status } => {
            assert_eq!(terminal_id, "t4");
            assert_eq!(status, TerminalStatus::Stopped);
        }
        _ => panic!("expected a status response"),
    }
}

#[test]
fn only_requests_are_acted_on() {
    let r = request_of(DaemonMessage::Request { id: "r1".into(), request: DaemonRequest::Ping });
    assert_eq!(r.map(|(id, _)| id), Some("r1".to_string()));
    assert!(request_of(DaemonMessage::Response { id: "r1".into(), response: DaemonResponse::Pong }).is_none());
}

#[test]
fn shell_override_survives_settings_round_trip() {
    let mut config = RuntimeConfig {
        ada_home: "/h/.ada".into(),
        data_dir: "/d/ada".into(),
        daemon_port: 1,
        notification_port: 2,
        shell_override: None,
    };
    config.set_shell_override(Some("/bin/zsh".into()));
    let saved: RuntimeSettings = config.settings();
    let restarted = RuntimeConfig::from_settings("/h/.ada".into(), "/d/ada".into(), 3, 4, saved);
    assert_eq!(restarted.shell_override.as_deref(), Some("/bin/zsh"));
    assert_eq!(restarted.daemon_port, 3);
}
