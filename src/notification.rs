//! The hook endpoint's logic: each call of an agent's hook becomes one raw
//! `HookEvent` and, for the known lifecycle events, one `AgentStatus` event.

use vstd::prelude::*;
use crate::protocol::DaemonEvent;
use crate::text::str_eq;
use crate::types::{copy_opt_string, opt_view, AgentStatus};

verus! {

/// The query of one hook call.
#[derive(Clone, Debug)]
pub struct AgentEventQuery {
    pub terminal_id: String,
    pub event: String,
    /// Name of the agent that reported.
    pub agent: Option<String>,
    pub project_id: Option<String>,
    /// Raw JSON payload of the hook.
    pub payload: Option<String>,
}

/// The agent status that a hook event announces, if it is one of the known
/// lifecycle events.
pub open spec fn status_for_event(event: Seq<char>) -> Option<AgentStatus> {
    if event == "Start"@ {
        Some(AgentStatus::Working)
    } else if event == "Stop"@ {
        Some(AgentStatus::Idle)
    } else if event == "Permission"@ {
        Some(AgentStatus::Permission)
    } else {
        None
    }
}

/// The agent name recorded for a hook call: the given one, else `unknown`.
pub open spec fn agent_name(agent: Option<String>) -> Seq<char> {
    match agent {
        Some(a) => a@,
        None => "unknown"@,
    }
}

/// Maps a hook event name to the agent status it announces.
pub fn agent_status_for_event(event: &str) -> (r: Option<AgentStatus>)
    ensures
        r == status_for_event(event@),
{
    if str_eq(event, "Start") {
        Some(AgentStatus::Working)
    } else if str_eq(event, "Stop") {
        Some(AgentStatus::Idle)
    } else if str_eq(event, "Permission") {
        Some(AgentStatus::Permission)
    } else {
        None
    }
}

/// The raw event that records a hook call.
pub open spec fn is_hook_event_of(e: DaemonEvent, q: AgentEventQuery) -> bool {
    match e {
        DaemonEvent::HookEvent { terminal_id, project_id, agent, event, payload } => {
            &&& terminal_id@ == q.terminal_id@
            &&& opt_view(project_id) == opt_view(q.project_id)
            &&& agent@ == agent_name(q.agent)
            &&& event@ == q.event@
            &&& opt_view(payload) == opt_view(q.payload)
        },
        _ => false,
    }
}

/// The status event that a hook call with a known event adds.
pub open spec fn is_status_event_of(e: DaemonEvent, q: AgentEventQuery, s: AgentStatus) -> bool {
    match e {
        DaemonEvent::AgentStatus { terminal_id, status } => terminal_id@ == q.terminal_id@ && status == s,
        _ => false,
    }
}

/// The events that one hook call puts on the bus, in order: always the raw
/// `HookEvent`, then an `AgentStatus` event exactly when the event is
/// `Start`, `Stop` or `Permission`.
pub fn hook_events(query: AgentEventQuery) -> (r: Vec<DaemonEvent>)
    ensures
        r@.len() == if status_for_event(query.event@) is Some { 2int } else { 1int },
        is_hook_event_of(r@[0], query),
        status_for_event(query.event@) matches Some(s) ==> is_status_event_of(r@[1], query, s),
{
    let agent = match &query.agent {
        Some(a) => a.clone(),
        None => crate::text::owned("unknown"),
    };
    let status = agent_status_for_event(query.event.as_str());
    let mut events: Vec<DaemonEvent> = Vec::new();
    events.push(DaemonEvent::HookEvent {
        terminal_id: query.terminal_id.clone(),
        project_id: copy_opt_string(&query.project_id),
        agent,
        event: query.event.clone(),
        payload: copy_opt_string(&query.payload),
    });
    match status {
        Some(s) => {
            events.push(DaemonEvent::AgentStatus { terminal_id: query.terminal_id.clone(), status: s });
        },
        None => {},
    }
    events
}

} // verus!
