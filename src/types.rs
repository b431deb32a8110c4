//! Terminal session values: status enums, the command to run, and the
//! session record that clients see.

use vstd::prelude::*;
use crate::time::Timestamp;

verus! {

/// How a terminal relates to its project's checkout.
#[derive(Clone, Copy, Debug, PartialEq, Eq, Structural)]
pub enum TerminalMode {
    /// The project's main terminal, at the project root.
    Main,
    /// A terminal in a subfolder of the project.
    Folder,
    /// A terminal on the current branch at the project root.
    CurrentBranch,
    /// A terminal in an isolated git worktree.
    Worktree,
}

impl Default for TerminalMode {
    fn default() -> (r: Self)
        ensures
            r == TerminalMode::Main,
    {
        TerminalMode::Main
    }
}

/// What the agent inside a terminal is doing, as its hooks report it.
#[derive(Clone, Copy, Debug, PartialEq, Eq, Structural)]
pub enum AgentStatus {
    Idle,
    Working,
    Permission,
    Review,
}

impl Default for AgentStatus {
    fn default() -> (r: Self)
        ensures
            r == AgentStatus::Idle,
    {
        AgentStatus::Idle
    }
}

/// Lifecycle state of a terminal session.
#[derive(Clone, Copy, Debug, PartialEq, Eq, Structural)]
pub enum TerminalStatus {
    Starting,
    Running,
    Stopped,
    Error,
}

/// The program a session runs inside the login shell, with extra environment.
#[derive(Clone, Debug)]
pub struct CommandSpec {
    pub command: String,
    pub args: Vec<String>,
    pub env: Vec<(String, String)>,
}

/// The mathematical content of a `CommandSpec`.
pub struct CommandSpecView {
    pub command: Seq<char>,
    pub args: Seq<Seq<char>>,
    pub env: Seq<(Seq<char>, Seq<char>)>,
}

pub open spec fn strings_view(v: Seq<String>) -> Seq<Seq<char>> {
    v.map_values(|s: String| s@)
}

pub open spec fn pairs_view(v: Seq<(String, String)>) -> Seq<(Seq<char>, Seq<char>)> {
    v.map_values(|p: (String, String)| (p.0@, p.1@))
}

pub open spec fn opt_view(o: Option<String>) -> Option<Seq<char>> {
    match o {
        Some(s) => Some(s@),
        None => None,
    }
}

impl View for CommandSpec {
    type V = CommandSpecView;

    open spec fn view(&self) -> CommandSpecView {
        CommandSpecView {
            command: self.command@,
            args: strings_view(self.args@),
            env: pairs_view(self.env@),
        }
    }
}

/// A copy of an optional string.
pub fn copy_opt_string(o: &Option<String>) -> (r: Option<String>)
    ensures
        opt_view(r) == opt_view(*o),
{
    match o {
        Some(s) => Some(s.clone()),
        None => None,
    }
}

/// A copy of a list of strings.
pub fn copy_strings(v: &Vec<String>) -> (r: Vec<String>)
    ensures
        strings_view(r@) == strings_view(v@),
{
    let mut r: Vec<String> = Vec::new();
    let mut i: usize = 0;
    while i < v.len()
        invariant
            i <= v@.len(),
            r@.len() == i,
            forall|j: int| 0 <= j < i ==> r@[j]@ == v@[j]@,
        decreases v@.len() - i,
    {
        r.push(v[i].clone());
        i += 1;
    }
    assert(strings_view(r@) =~= strings_view(v@));
    r
}

/// A copy of a list of key/value pairs.
pub fn copy_pairs(v: &Vec<(String, String)>) -> (r: Vec<(String, String)>)
    ensures
        pairs_view(r@) == pairs_view(v@),
{
    let mut r: Vec<(String, String)> = Vec::new();
    let mut i: usize = 0;
    while i < v.len()
        invariant
            i <= v@.len(),
            r@.len() == i,
            forall|j: int| 0 <= j < i ==> r@[j].0@ == v@[j].0@ && r@[j].1@ == v@[j].1@,
        decreases v@.len() - i,
    {
        let k = v[i].0.clone();
        let x = v[i].1.clone();
        r.push((k, x));
        i += 1;
    }
    assert(pairs_view(r@) =~= pairs_view(v@));
    r
}

impl CommandSpec {
    /// A copy of this command.
    pub fn copy(&self) -> (r: CommandSpec)
        ensures
            r@ == self@,
    {
        CommandSpec {
            command: self.command.clone(),
            args: copy_strings(&self.args),
            env: copy_pairs(&self.env),
        }
    }
}

/// A terminal session as the daemon records it and reports it to clients.
#[derive(Clone, Debug)]
pub struct TerminalInfo {
    pub id: String,
    pub project_id: String,
    pub name: String,
    pub client_id: String,
    pub working_dir: String,
    pub branch: Option<String>,
    pub worktree_path: Option<String>,
    pub status: TerminalStatus,
    pub created_at: Timestamp,
    pub command: CommandSpec,
    pub shell: Option<String>,
    pub agent_status: AgentStatus,
    pub mode: TerminalMode,
    pub is_main: bool,
    pub folder_path: Option<String>,
}

/// The mathematical content of a `TerminalInfo`.
pub struct TerminalInfoView {
    pub id: Seq<char>,
    pub project_id: Seq<char>,
    pub name: Seq<char>,
    pub client_id: Seq<char>,
    pub working_dir: Seq<char>,
    pub branch: Option<Seq<char>>,
    pub worktree_path: Option<Seq<char>>,
    pub status: TerminalStatus,
    pub created_at: Timestamp,
    pub command: CommandSpecView,
    pub shell: Option<Seq<char>>,
    pub agent_status: AgentStatus,
    pub mode: TerminalMode,
    pub is_main: bool,
    pub folder_path: Option<Seq<char>>,
}

impl View for TerminalInfo {
    type V = TerminalInfoView;

    open spec fn view(&self) -> TerminalInfoView {
        TerminalInfoView {
            id: self.id@,
            project_id: self.project_id@,
            name: self.name@,
            client_id: self.client_id@,
            working_dir: self.working_dir@,
            branch: opt_view(self.branch),
            worktree_path: opt_view(self.worktree_path),
            status: self.status,
            created_at: self.created_at,
            command: self.command@,
            shell: opt_view(self.shell),
            agent_status: self.agent_status,
            mode: self.mode,
            is_main: self.is_main,
            folder_path: opt_view(self.folder_path),
        }
    }
}

impl TerminalInfo {
    /// A copy of this record.
    pub fn copy(&self) -> (r: TerminalInfo)
        ensures
            r@ == self@,
    {
        TerminalInfo {
            id: self.id.clone(),
            project_id: self.project_id.clone(),
            name: self.name.clone(),
            client_id: self.client_id.clone(),
            working_dir: self.working_dir.clone(),
            branch: copy_opt_string(&self.branch),
            worktree_path: copy_opt_string(&self.worktree_path),
            status: self.status,
            created_at: self.created_at,
            command: self.command.copy(),
            shell: copy_opt_string(&self.shell),
            agent_status: self.agent_status,
            mode: self.mode,
            is_main: self.is_main,
            folder_path: copy_opt_string(&self.folder_path),
        }
    }
}

/// A request from the GUI to open a terminal in a project.
#[derive(Clone, Debug)]
pub struct CreateTerminalRequest {
    pub project_id: String,
    pub name: String,
    pub client_id: String,
    pub mode: TerminalMode,
    pub folder_path: Option<String>,
    pub worktree_branch: Option<String>,
}

/// A chunk of terminal output addressed to one terminal.
#[derive(Clone, Debug)]
pub struct TerminalOutput {
    pub terminal_id: String,
    pub data: String,
}

/// A request to change a terminal's size.
#[derive(Clone, Debug)]
pub struct ResizeTerminalRequest {
    pub terminal_id: String,
    pub cols: u16,
    pub rows: u16,
}

} // verus!
