//! Messages of the control-plane protocol: requests, responses and events.

use vstd::prelude::*;
use crate::types::{AgentStatus, CommandSpec, TerminalInfo, TerminalMode, TerminalStatus};

verus! {

/// Paths, ports and settings of the running daemon.
#[derive(Clone, Debug)]
pub struct RuntimeConfig {
    pub ada_home: String,
    pub data_dir: String,
    pub daemon_port: u16,
    pub notification_port: u16,
    pub shell_override: Option<String>,
}

/// The settings that outlive the daemon process.
#[derive(Clone, Debug)]
pub struct RuntimeSettings {
    pub shell_override: Option<String>,
}

/// What a client sends to open a new session.
#[derive(Clone, Debug)]
pub struct CreateSessionRequest {
    pub terminal_id: String,
    pub project_id: String,
    pub name: String,
    pub client_id: String,
    pub working_dir: String,
    pub branch: Option<String>,
    pub worktree_path: Option<String>,
    pub folder_path: Option<String>,
    pub is_main: bool,
    pub mode: TerminalMode,
    pub command: CommandSpec,
    pub cols: u16,
    pub rows: u16,
}

/// A request of a client.
#[derive(Clone, Debug)]
pub enum DaemonRequest {
    Ping,
    Status,
    ListSessions,
    GetSession { terminal_id: String },
    CreateSession { request: CreateSessionRequest },
    MarkSessionStopped { terminal_id: String },
    CloseSession { terminal_id: String },
    WriteToSession { terminal_id: String, data: String },
    ResizeSession { terminal_id: String, cols: u16, rows: u16 },
    RestartSession { terminal_id: String },
    SwitchSessionAgent { terminal_id: String, client_id: String, command: CommandSpec },
    GetHistory { terminal_id: String },
    GetRuntimeConfig,
    SetShellOverride { shell: Option<String> },
    Shutdown,
}

/// The daemon's answer to one request.
#[derive(Clone, Debug)]
pub enum DaemonResponse {
    Done,
    Pong,
    Error { message: String },
    Sessions { sessions: Vec<TerminalInfo> },
    Session { session: TerminalInfo },
    History { terminal_id: String, history: Vec<String> },
    RuntimeConfig { config: RuntimeConfig },
    TerminalStatusResponse { terminal_id: String, status: TerminalStatus },
    DaemonStatus { pid: u32, port: u16, uptime_secs: u64, session_count: usize, version: String },
}

/// A notification that every subscribed client receives.
#[derive(Clone, Debug)]
pub enum DaemonEvent {
    TerminalOutput { terminal_id: String, data: String },
    TerminalStatus { terminal_id: String, project_id: String, status: TerminalStatus },
    AgentStatus { terminal_id: String, status: AgentStatus },
    HookEvent {
        terminal_id: String,
        project_id: Option<String>,
        agent: String,
        event: String,
        payload: Option<String>,
    },
}

/// One line of the wire protocol.
#[derive(Clone, Debug)]
pub enum DaemonMessage {
    Request { id: String, request: DaemonRequest },
    Response { id: String, response: DaemonResponse },
    Event { event: DaemonEvent },
}

/// The wire name of each kind of request.
pub open spec fn request_kind_name(r: DaemonRequest) -> Seq<char> {
    match r {
        DaemonRequest::Ping => "ping"@,
        DaemonRequest::Status => "status"@,
        DaemonRequest::ListSessions => "list_sessions"@,
        DaemonRequest::GetSession { .. } => "get_session"@,
        DaemonRequest::CreateSession { .. } => "create_session"@,
        DaemonRequest::MarkSessionStopped { .. } => "mark_session_stopped"@,
        DaemonRequest::CloseSession { .. } => "close_session"@,
        DaemonRequest::WriteToSession { .. } => "write_to_session"@,
        DaemonRequest::ResizeSession { .. } => "resize_session"@,
        DaemonRequest::RestartSession { .. } => "restart_session"@,
        DaemonRequest::SwitchSessionAgent { .. } => "switch_session_agent"@,
        DaemonRequest::GetHistory { .. } => "get_history"@,
        DaemonRequest::GetRuntimeConfig => "get_runtime_config"@,
        DaemonRequest::SetShellOverride { .. } => "set_shell_override"@,
        DaemonRequest::Shutdown => "shutdown"@,
    }
}

/// The wire name of a request's kind, for logs.
pub fn request_kind(request: &DaemonRequest) -> (r: &'static str)
    ensures
        r@ == request_kind_name(*request),
{
    match request {
        DaemonRequest::Ping => "ping",
        DaemonRequest::Status => "status",
        DaemonRequest::ListSessions => "list_sessions",
        DaemonRequest::GetSession { .. } => "get_session",
        DaemonRequest::CreateSession { .. } => "create_session",
        DaemonRequest::MarkSessionStopped { .. } => "mark_session_stopped",
        DaemonRequest::CloseSession { .. } => "close_session",
        DaemonRequest::WriteToSession { .. } => "write_to_session",
        DaemonRequest::ResizeSession { .. } => "resize_session",
        DaemonRequest::RestartSession { .. } => "restart_session",
        DaemonRequest::SwitchSessionAgent { .. } => "switch_session_agent",
        DaemonRequest::GetHistory { .. } => "get_history",
        DaemonRequest::GetRuntimeConfig => "get_runtime_config",
        DaemonRequest::SetShellOverride { .. } => "set_shell_override",
        DaemonRequest::Shutdown => "shutdown",
    }
}

/// The `TerminalStatus` event that announces a session's current status.
pub fn status_event(terminal: &TerminalInfo) -> (r: DaemonEvent)
    ensures
        r matches DaemonEvent::TerminalStatus { terminal_id, project_id, status }
            && terminal_id@ == terminal.id@ && project_id@ == terminal.project_id@
            && status == terminal.status,
{
    DaemonEvent::TerminalStatus {
        terminal_id: terminal.id.clone(),
        project_id: terminal.project_id.clone(),
        status: terminal.status,
    }
}

/// The response that reports an error.
pub fn error_response(e: &crate::error::Error) -> (r: DaemonResponse)
    ensures
        r matches DaemonResponse::Error { message }
            && message@ == crate::error::error_prefix(*e) + crate::error::error_detail(*e),
{
    DaemonResponse::Error { message: e.message() }
}

impl RuntimeConfig {
    /// The configuration of a daemon that starts with the given paths, ports
    /// and persisted settings.
    pub fn from_settings(
        ada_home: String,
        data_dir: String,
        daemon_port: u16,
        notification_port: u16,
        settings: RuntimeSettings,
    ) -> (r: RuntimeConfig)
        ensures
            r.ada_home@ == ada_home@,
            r.data_dir@ == data_dir@,
            r.daemon_port == daemon_port,
            r.notification_port == notification_port,
            opt_view_eq(r.shell_override, settings.shell_override),
    {
        RuntimeConfig {
            ada_home,
            data_dir,
            daemon_port,
            notification_port,
            shell_override: settings.shell_override,
        }
    }

    /// Replaces the shell override; the rest is kept.
    pub fn set_shell_override(&mut self, shell: Option<String>)
        ensures
            final(self).ada_home@ == old(self).ada_home@,
            final(self).data_dir@ == old(self).data_dir@,
            final(self).daemon_port == old(self).daemon_port,
            final(self).notification_port == old(self).notification_port,
            opt_view_eq(final(self).shell_override, shell),
    {
        self.shell_override = shell;
    }

    /// The part of the configuration that is persisted.
    pub fn settings(&self) -> (r: RuntimeSettings)
        ensures
            opt_view_eq(r.shell_override, self.shell_override),
    {
        RuntimeSettings { shell_override: crate::types::copy_opt_string(&self.shell_override) }
    }
}

/// Two optional strings hold the same characters.
pub open spec fn opt_view_eq(a: Option<String>, b: Option<String>) -> bool {
    crate::types::opt_view(a) == crate::types::opt_view(b)
}

/// A shell override that is set, persisted, and read back when the daemon
/// starts again is the override that was set.
pub proof fn lemma_shell_override_survives_restart(
    before: RuntimeConfig,
    shell: Option<String>,
    after_set: RuntimeConfig,
    saved: RuntimeSettings,
    restarted: RuntimeConfig,
)
    requires
        opt_view_eq(after_set.shell_override, shell),
        opt_view_eq(saved.shell_override, after_set.shell_override),
        opt_view_eq(restarted.shell_override, saved.shell_override),
    ensures
        opt_view_eq(restarted.shell_override, shell),
{
}

/// The response to a request that yields a session record: the record, or
/// the error.
pub fn session_response(result: Result<TerminalInfo, crate::error::Error>) -> (r: DaemonResponse)
    ensures
        result matches Ok(t) ==> (r matches DaemonResponse::Session { session } && session@ == t@),
        result matches Err(e) ==> (r matches DaemonResponse::Error { message }
            && message@ == crate::error::error_prefix(e) + crate::error::error_detail(e)),
{
    match result {
        Ok(session) => DaemonResponse::Session { session },
        Err(e) => error_response(&e),
    }
}

/// The response to a request that yields nothing: `ok`, or the error.
pub fn unit_response(result: Result<(), crate::error::Error>) -> (r: DaemonResponse)
    ensures
        result is Ok ==> r is Done,
        result matches Err(e) ==> (r matches DaemonResponse::Error { message }
            && message@ == crate::error::error_prefix(e) + crate::error::error_detail(e)),
{
    match result {
        Ok(()) => DaemonResponse::Done,
        Err(e) => error_response(&e),
    }
}

/// The response to a history request.
pub fn history_response(terminal_id: String, result: Result<Vec<String>, crate::error::Error>) -> (r:
    DaemonResponse)
    ensures
        result matches Ok(h) ==> (r matches DaemonResponse::History { terminal_id: t, history }
            && t@ == terminal_id@ && history@ == h@),
        result matches Err(e) ==> (r matches DaemonResponse::Error { message }
            && message@ == crate::error::error_prefix(e) + crate::error::error_detail(e)),
{
    match result {
        Ok(history) => DaemonResponse::History { terminal_id, history },
        Err(e) => error_response(&e),
    }
}

/// The response to a request that marks a session stopped.
pub fn stopped_response(terminal_id: String, result: Result<TerminalStatus, crate::error::Error>) -> (r:
    DaemonResponse)
    ensures
        result matches Ok(s) ==> (r matches DaemonResponse::TerminalStatusResponse {
            terminal_id: t,
            status,
        } && t@ == terminal_id@ && status == s),
        result matches Err(e) ==> (r matches DaemonResponse::Error { message }
            && message@ == crate::error::error_prefix(e) + crate::error::error_detail(e)),
{
    match result {
        Ok(status) => DaemonResponse::TerminalStatusResponse { terminal_id, status },
        Err(e) => error_response(&e),
    }
}

/// The response to a request for the list of sessions.
pub fn sessions_response(sessions: Vec<TerminalInfo>) -> (r: DaemonResponse)
    ensures
        r matches DaemonResponse::Sessions { sessions: s } && s@ == sessions@,
{
    DaemonResponse::Sessions { sessions }
}

/// The answer to `ping`.
pub fn ping_response() -> (r: DaemonResponse)
    ensures
        r is Pong,
{
    DaemonResponse::Pong
}

/// Whether a line from a client is a request to act on; responses and
/// events sent by clients are ignored.
pub fn request_of(message: DaemonMessage) -> (r: Option<(String, DaemonRequest)>)
    ensures
        message is Request <==> r is Some,
        message matches DaemonMessage::Request { id, request } ==> r == Some((id, request)),
{
    match message {
        DaemonMessage::Request { id, request } => Some((id, request)),
        _ => None,
    }
}

} // verus!
